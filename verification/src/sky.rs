//! Sky cover: cloud layers, their coverage, and the share of the sky that
//! they hide.
use vstd::prelude::*;
use vstd::string::*;
use crate::units::text::decimal;
use crate::units::text::push_decimal;

verus! {

/// Whether two texts are the same.
pub fn same_text(a: &str, b: &str) -> (r: bool)
    ensures
        r == (a@ == b@),
{
    String::from_str(a) == String::from_str(b)
}

/// How much of the sky one cloud layer covers.
#[derive(Debug, Clone, Copy, PartialEq, Eq, Structural)]
pub enum CloudLayerCoverage {
    Few,
    Scattered,
    Broken,
    Overcast,
}

impl CloudLayerCoverage {
    /// The three-letter code of the coverage.
    pub open spec fn spec_str(&self) -> Seq<char> {
        match self {
            CloudLayerCoverage::Few => "FEW"@,
            CloudLayerCoverage::Scattered => "SCT"@,
            CloudLayerCoverage::Broken => "BKN"@,
            CloudLayerCoverage::Overcast => "OVC"@,
        }
    }

    /// The eighths of the sky that the coverage stands for.
    pub open spec fn spec_oktas(&self) -> int {
        match self {
            CloudLayerCoverage::Few => 1,
            CloudLayerCoverage::Scattered => 3,
            CloudLayerCoverage::Broken => 6,
            CloudLayerCoverage::Overcast => 8,
        }
    }

    /// The three-letter code of the coverage.
    pub fn str(&self) -> (r: &'static str)
        ensures
            r@ == self.spec_str(),
    {
        match self {
            CloudLayerCoverage::Few => "FEW",
            CloudLayerCoverage::Scattered => "SCT",
            CloudLayerCoverage::Broken => "BKN",
            CloudLayerCoverage::Overcast => "OVC",
        }
    }

    /// The eighths of the sky that the coverage stands for.
    pub fn oktas(&self) -> (r: u8)
        ensures
            r == self.spec_oktas(),
    {
        match self {
            CloudLayerCoverage::Few => 1,
            CloudLayerCoverage::Scattered => 3,
            CloudLayerCoverage::Broken => 6,
            CloudLayerCoverage::Overcast => 8,
        }
    }
}

/// What is wrong with a report of the sky.
#[derive(Debug)]
pub enum SkyError {
    /// A coverage code that is none of the six known ones.
    UnknownCover(String),
    /// A layer with a coverage but no height, or a height but no coverage.
    Mismatched,
}

/// A [`SkyError`] with the refused code as plain text.
pub enum SkyErrorView {
    UnknownCover(Seq<char>),
    Mismatched,
}

impl View for SkyError {
    type V = SkyErrorView;

    open spec fn view(&self) -> SkyErrorView {
        match self {
            SkyError::UnknownCover(code) => SkyErrorView::UnknownCover(code@),
            SkyError::Mismatched => SkyErrorView::Mismatched,
        }
    }
}

impl SkyError {
    /// The text of the error.
    pub open spec fn spec_message(&self) -> Seq<char> {
        match self {
            SkyError::UnknownCover(code) => "Unknown cloud cover string '"@ + code@ + "'"@,
            SkyError::Mismatched => "Mismatched skycover and skylevel values"@,
        }
    }

    /// A sentence that says what was wrong.
    pub fn message(&self) -> (r: String)
        ensures
            r@ == self.spec_message(),
    {
        match self {
            SkyError::UnknownCover(code) => {
                let mut s = String::from_str("Unknown cloud cover string '");
                s.append(code.as_str());
                s.append("'");
                s
            },
            SkyError::Mismatched => String::from_str("Mismatched skycover and skylevel values"),
        }
    }
}

/// One layer of cloud: its coverage and the height of its base in feet.
#[derive(Debug, Clone, Copy, PartialEq, Eq, Structural)]
pub struct CloudLayer {
    pub coverage: CloudLayerCoverage,
    pub height: u32,
}

impl CloudLayer {
    /// The coverage that a code stands for: none for the two codes of a
    /// clear sky, an error for a code that is not known.
    pub open spec fn spec_coverage_of(code: Seq<char>) -> Result<
        Option<CloudLayerCoverage>,
        SkyErrorView,
    > {
        if code == "SKC"@ || code == "CLR"@ {
            Ok(None)
        } else if code == "FEW"@ {
            Ok(Some(CloudLayerCoverage::Few))
        } else if code == "SCT"@ {
            Ok(Some(CloudLayerCoverage::Scattered))
        } else if code == "BKN"@ {
            Ok(Some(CloudLayerCoverage::Broken))
        } else if code == "OVC"@ {
            Ok(Some(CloudLayerCoverage::Overcast))
        } else {
            Err(SkyErrorView::UnknownCover(code))
        }
    }

    /// The layer that a code and a height report.
    pub open spec fn spec_from_code(code: Seq<char>, height: u32) -> Result<
        Option<CloudLayer>,
        SkyErrorView,
    > {
        match CloudLayer::spec_coverage_of(code) {
            Ok(Some(coverage)) => Ok(Some(CloudLayer { coverage, height })),
            Ok(None) => Ok(None),
            Err(e) => Err(e),
        }
    }

    /// The text of the layer: its code, `@`, its height and ` ft`.
    pub open spec fn spec_to_text(&self) -> Seq<char> {
        self.coverage.spec_str() + "@"@ + decimal(self.height as nat) + " ft"@
    }

    /// The layer that a code and a height report: `SKC` and `CLR` report no
    /// layer, `FEW`, `SCT`, `BKN` and `OVC` one of that coverage, and any
    /// other code is an error.
    pub fn from_code(code: &str, height: u32) -> (r: Result<Option<CloudLayer>, SkyError>)
        ensures
            r matches Ok(layer) ==> CloudLayer::spec_from_code(code@, height) == Ok::<
                Option<CloudLayer>,
                SkyErrorView,
            >(layer),
            r matches Err(e) ==> CloudLayer::spec_from_code(code@, height) == Err::<
                Option<CloudLayer>,
                SkyErrorView,
            >(e@),
    {
        let coverage_opt = if same_text(code, "SKC") || same_text(code, "CLR") {
            None
        } else if same_text(code, "FEW") {
            Some(CloudLayerCoverage::Few)
        } else if same_text(code, "SCT") {
            Some(CloudLayerCoverage::Scattered)
        } else if same_text(code, "BKN") {
            Some(CloudLayerCoverage::Broken)
        } else if same_text(code, "OVC") {
            Some(CloudLayerCoverage::Overcast)
        } else {
            return Err(SkyError::UnknownCover(String::from_str(code)));
        };
        match coverage_opt {
            Some(coverage) => Ok(Some(CloudLayer { coverage, height })),
            None => Ok(None),
        }
    }

    /// The text of the layer, as in `BKN@2500 ft`.
    pub fn to_text(&self) -> (r: String)
        ensures
            r@ == self.spec_to_text(),
    {
        let mut s = String::from_str(self.coverage.str());
        s.append("@");
        push_decimal(&mut s, self.height as u64);
        s.append(" ft");
        s
    }
}

/// The greatest number of eighths that any of the layers covers; zero where
/// there is no layer.
pub open spec fn most_oktas(layers: Seq<CloudLayer>) -> int
    decreases layers.len(),
{
    if layers.len() == 0 {
        0
    } else {
        let rest = most_oktas(layers.drop_last());
        let last = layers.last().coverage.spec_oktas();
        if last > rest {
            last
        } else {
            rest
        }
    }
}

/// No layer covers more than [`most_oktas`], and where there is a layer, one
/// of them covers as much.
pub proof fn lemma_most_oktas(layers: Seq<CloudLayer>)
    ensures
        forall|i: int| 0 <= i < layers.len() ==> #[trigger] layers[i].coverage.spec_oktas()
            <= most_oktas(layers),
        layers.len() > 0 ==> exists|i: int| 0 <= i < layers.len()
            && #[trigger] layers[i].coverage.spec_oktas() == most_oktas(layers),
        0 <= most_oktas(layers) <= 8,
    decreases layers.len(),
{
    if layers.len() > 0 {
        let front = layers.drop_last();
        lemma_most_oktas(front);
        assert forall|i: int| 0 <= i < layers.len() implies #[trigger] layers[i].coverage.spec_oktas()
            <= most_oktas(layers) by {
            if i < layers.len() - 1 {
                assert(front[i] == layers[i]);
            }
        }
        if layers.last().coverage.spec_oktas() > most_oktas(front) || front.len() == 0 {
            assert(layers[layers.len() - 1].coverage.spec_oktas() == most_oktas(layers));
        } else {
            let i = choose|i: int| 0 <= i < front.len() && #[trigger] front[i].coverage.spec_oktas()
                == most_oktas(front);
            assert(front[i] == layers[i]);
            assert(layers[i].coverage.spec_oktas() == most_oktas(layers));
        }
    }
}

/// The state of the sky: clear, or a list of cloud layers.
#[derive(Debug)]
pub enum SkyCoverage {
    Clear,
    Cloudy(Vec<CloudLayer>),
}

impl Clone for SkyCoverage {
    fn clone(&self) -> (r: Self)
        ensures
            r is Clear <==> self is Clear,
            r matches SkyCoverage::Cloudy(v) ==> self matches SkyCoverage::Cloudy(w) && v@ == w@,
    {
        match self {
            SkyCoverage::Clear => SkyCoverage::Clear,
            SkyCoverage::Cloudy(v) => {
                let w = v.clone();
                assert(w@ =~= v@);
                SkyCoverage::Cloudy(w)
            },
        }
    }
}

/// A sky as plain values.
pub enum SkyView {
    Clear,
    Cloudy(Seq<CloudLayer>),
}

/// A sky as plain values.
pub open spec fn sky_view(sky: SkyCoverage) -> SkyView {
    match sky {
        SkyCoverage::Clear => SkyView::Clear,
        SkyCoverage::Cloudy(v) => SkyView::Cloudy(v@),
    }
}

/// A sky, if there is one, as plain values.
pub open spec fn sky_option_view(sky: Option<SkyCoverage>) -> Option<SkyView> {
    match sky {
        Some(s) => Some(sky_view(s)),
        None => None,
    }
}

/// The texts of some layers, joined by a comma and a space.
pub open spec fn joined(layers: Seq<CloudLayer>) -> Seq<char>
    decreases layers.len(),
{
    if layers.len() == 0 {
        Seq::<char>::empty()
    } else if layers.len() == 1 {
        layers[0].spec_to_text()
    } else {
        joined(layers.drop_last()) + ", "@ + layers.last().spec_to_text()
    }
}

impl SkyCoverage {
    /// The eighths of the sky that are covered: those of the layer that
    /// covers most.
    pub open spec fn spec_oktas(&self) -> int {
        match self {
            SkyCoverage::Clear => 0,
            SkyCoverage::Cloudy(v) => most_oktas(v@),
        }
    }

    /// The text of the sky: `CLR`, or the layers from first to last.
    pub open spec fn spec_to_text(&self) -> Seq<char> {
        match self {
            SkyCoverage::Clear => "CLR"@,
            SkyCoverage::Cloudy(v) => joined(v@),
        }
    }

    /// The eighths of the sky that are covered, from 0 to 8: few clouds
    /// count 1, scattered 3, broken 6 and overcast 8, and the layer that
    /// covers most decides. A cloudy sky without a layer counts 0.
    pub fn oktas(&self) -> (r: u8)
        ensures
            r == self.spec_oktas(),
            r <= 8,
    {
        match self {
            SkyCoverage::Clear => 0,
            SkyCoverage::Cloudy(v) => {
                let mut most: u8 = 0;
                let mut i: usize = 0;
                while i < v.len()
                    invariant
                        i <= v.len(),
                        most == most_oktas(v@.take(i as int)),
                        most <= 8,
                    decreases v.len() - i,
                {
                    let o = v[i].coverage.oktas();
                    proof {
                        assert(v@.take(i + 1).drop_last() == v@.take(i as int));
                    }
                    if o > most {
                        most = o;
                    }
                    i += 1;
                }
                proof {
                    assert(v@.take(v.len() as int) == v@);
                }
                most
            },
        }
    }

    /// The text of the sky, as in `FEW@1200 ft, OVC@4000 ft`.
    pub fn to_text(&self) -> (r: String)
        ensures
            r@ == self.spec_to_text(),
    {
        match self {
            SkyCoverage::Clear => String::from_str("CLR"),
            SkyCoverage::Cloudy(v) => {
                let mut s = String::new();
                let mut i: usize = 0;
                while i < v.len()
                    invariant
                        i <= v.len(),
                        s@ == joined(v@.take(i as int)),
                    decreases v.len() - i,
                {
                    proof {
                        assert(v@.take(i + 1).drop_last() == v@.take(i as int));
                        assert(v@.take(i + 1).last() == v@[i as int]);
                        assert(joined(Seq::<CloudLayer>::empty()) == Seq::<char>::empty());
                    }
                    if i > 0 {
                        s.append(", ");
                    }
                    let t = v[i].to_text();
                    s.append(t.as_str());
                    proof {
                        if i == 0 {
                            assert(v@.take(1)[0] == v@[0]);
                            assert(s@ =~= joined(v@.take(1)));
                        }
                    }
                    i += 1;
                }
                proof {
                    assert(v@.take(v.len() as int) == v@);
                }
                s
            },
        }
    }
}

/// What the first `n` pairs of a report give: the layers they name, in
/// order, or the error of the first pair that is wrong.
pub open spec fn layers_of_pairs(
    cover: Seq<Option<String>>,
    level: Seq<Option<u32>>,
    n: nat,
) -> Result<Seq<CloudLayer>, SkyErrorView>
    decreases n,
{
    if n == 0 {
        Ok(Seq::<CloudLayer>::empty())
    } else {
        match layers_of_pairs(cover, level, (n - 1) as nat) {
            Err(e) => Err(e),
            Ok(found) => match (cover[n - 1], level[n - 1]) {
                (Some(code), Some(height)) => match CloudLayer::spec_from_code(code@, height) {
                    Ok(Some(layer)) => Ok(found.push(layer)),
                    Ok(None) => Ok(found),
                    Err(e) => Err(e),
                },
                (None, None) => Ok(found),
                _ => Err(SkyErrorView::Mismatched),
            },
        }
    }
}

/// The number of pairs that two lists make.
pub open spec fn pairs(cover: Seq<Option<String>>, level: Seq<Option<u32>>) -> nat {
    if cover.len() < level.len() {
        cover.len()
    } else {
        level.len()
    }
}

/// The sky that a report of coverage codes and heights describes: clear
/// without any height, and else the layers of its pairs or the error of the
/// first pair that is wrong.
pub open spec fn sky_of_report(cover: Seq<Option<String>>, level: Seq<Option<u32>>) -> Result<
    SkyView,
    SkyErrorView,
> {
    if forall|i: int| 0 <= i < level.len() ==> level[i] is None {
        Ok(SkyView::Clear)
    } else {
        match layers_of_pairs(cover, level, pairs(cover, level)) {
            Ok(layers) => Ok(SkyView::Cloudy(layers)),
            Err(e) => Err(e),
        }
    }
}

/// The sky that a report of coverage codes and heights describes, pair by
/// pair. Without any height the sky is clear. Otherwise each pair of a code
/// and a height gives the layer of [`CloudLayer::from_code`], a pair of two
/// absent values gives none, and a pair of one absent value is an error; what
/// one list has beyond the other's length is not read.
pub fn skycover_from_vecs(cover: Vec<Option<String>>, level: Vec<Option<u32>>) -> (r: Result<
    SkyCoverage,
    SkyError,
>)
    ensures
        match sky_of_report(cover@, level@) {
            Ok(sky) => r matches Ok(s) && sky_view(s) == sky,
            Err(e) => r matches Err(err) && err@ == e,
        },
{
    let mut heights: usize = 0;
    let mut k: usize = 0;
    while k < level.len()
        invariant
            k <= level.len(),
            heights <= k,
            heights == 0 ==> forall|i: int| 0 <= i < k ==> level[i] is None,
            heights != 0 ==> exists|i: int| 0 <= i < k && level[i] is Some,
        decreases level.len() - k,
    {
        if level[k].is_some() {
            heights += 1;
        }
        k += 1;
    }
    if heights == 0 {
        return Ok(SkyCoverage::Clear);
    }
    let n = if cover.len() < level.len() {
        cover.len()
    } else {
        level.len()
    };
    let mut skyc: Vec<CloudLayer> = Vec::new();
    let mut i: usize = 0;
    while i < n
        invariant
            i <= n,
            n == pairs(cover@, level@),
            exists|i: int| 0 <= i < level.len() && level[i] is Some,
            layers_of_pairs(cover@, level@, i as nat) == Ok::<Seq<CloudLayer>, SkyErrorView>(
                skyc@,
            ),
        decreases n - i,
    {
        match (&cover[i], &level[i]) {
            (Some(s), Some(l)) => {
                match CloudLayer::from_code(s.as_str(), *l) {
                    Ok(Some(layer)) => {
                        skyc.push(layer);
                    },
                    Ok(None) => {},
                    Err(e) => {
                        proof {
                            lemma_error_stays(cover@, level@, (i + 1) as nat, n as nat);
                        }
                        return Err(e);
                    },
                }
            },
            (None, None) => {},
            _ => {
                proof {
                    lemma_error_stays(cover@, level@, (i + 1) as nat, n as nat);
                }
                return Err(SkyError::Mismatched);
            },
        }
        i += 1;
    }
    Ok(SkyCoverage::Cloudy(skyc))
}

/// Once a pair is wrong, reading further pairs does not change the error.
pub proof fn lemma_error_stays(
    cover: Seq<Option<String>>,
    level: Seq<Option<u32>>,
    n: nat,
    m: nat,
)
    requires
        n <= m,
        layers_of_pairs(cover, level, n) is Err,
    ensures
        layers_of_pairs(cover, level, m) == layers_of_pairs(cover, level, n),
    decreases m,
{
    if n < m {
        lemma_error_stays(cover, level, n, (m - 1) as nat);
    }
}

} // verus!
