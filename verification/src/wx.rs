//! Present weather: what is falling or hanging in the air, how hard, and the
//! reading of the coded groups that report it.
use vstd::prelude::*;
use crate::tokens::find_all;
use crate::tokens::has_token;
use crate::tokens::regex_matches;
use crate::tokens::texts;

verus! {

/// How intense a phenomenon is, from absent to heavy.
#[derive(Debug, Copy, Clone, PartialEq, Eq, Structural)]
pub enum Intensity {
    Absent,
    Nearby,
    VeryLight,
    Light,
    Medium,
    Heavy,
}

impl Intensity {
    /// The place of an intensity in the order
    /// Absent < Nearby < VeryLight < Light < Medium < Heavy.
    pub open spec fn spec_rank(self) -> int {
        match self {
            Intensity::Absent => 0,
            Intensity::Nearby => 1,
            Intensity::VeryLight => 2,
            Intensity::Light => 3,
            Intensity::Medium => 4,
            Intensity::Heavy => 5,
        }
    }

    /// The greater of two intensities.
    pub open spec fn spec_most_intense(self, other: Intensity) -> Intensity {
        if self.spec_rank() > other.spec_rank() {
            self
        } else {
            other
        }
    }

    /// The place of the intensity in the order, from 0 for absent to 5 for
    /// heavy.
    pub fn rank(self) -> (r: u8)
        ensures
            r == self.spec_rank(),
    {
        match self {
            Intensity::Absent => 0,
            Intensity::Nearby => 1,
            Intensity::VeryLight => 2,
            Intensity::Light => 3,
            Intensity::Medium => 4,
            Intensity::Heavy => 5,
        }
    }

    /// Whether the phenomenon is absent.
    pub fn is_none(&self) -> (r: bool)
        ensures
            r == (*self == Intensity::Absent),
    {
        match self {
            Intensity::Absent => true,
            _ => false,
        }
    }

    /// The greater of two intensities.
    pub fn most_intense(self, other: Intensity) -> (r: Intensity)
        ensures
            r == self.spec_most_intense(other),
    {
        if self.rank() > other.rank() {
            self
        } else {
            other
        }
    }
}

/// The state of present weather: qualifiers that hold or not, and an
/// intensity for each kind of phenomenon.
#[derive(Debug, Clone, Copy, PartialEq, Eq, Structural)]
pub struct Wx {
    pub blowing: bool,
    pub freezing: bool,
    pub showers: bool,
    pub squalls: bool,
    pub thunderstorm: bool,
    pub fog: bool,
    pub smoke: bool,
    pub visibility_inhibitor: bool,
    pub rain: Intensity,
    pub snow: Intensity,
    pub falling_ice: Intensity,
    pub dust: Intensity,
    pub sand: Intensity,
    pub funnel_cloud: Intensity,
    pub unknown: Intensity,
}

/// The pattern of the tokens that a weather group is made of: the intensity
/// marks, the two-letter abbreviations, `NSW`, and runs of slashes.
pub const WX_PATTERN: &'static str =
    "(-|\\+|BC|BL|BR|DR|DS|DU|DZ|FC|FG|FU|FZ|GR|GS|HZ|IC|MI|NSW|PL|PO|PR|PY|RA|SA|SG|SH|SN|SQ|SS|TS|UP|VA|VC|/+)";

impl Wx {
    /// The state in which nothing is reported.
    pub open spec fn spec_none() -> Wx {
        Wx {
            blowing: false,
            freezing: false,
            showers: false,
            squalls: false,
            thunderstorm: false,
            fog: false,
            smoke: false,
            visibility_inhibitor: false,
            rain: Intensity::Absent,
            snow: Intensity::Absent,
            falling_ice: Intensity::Absent,
            dust: Intensity::Absent,
            sand: Intensity::Absent,
            funnel_cloud: Intensity::Absent,
            unknown: Intensity::Absent,
        }
    }

    /// Two states taken together: a qualifier holds if it holds in either,
    /// and each phenomenon has the greater of its two intensities.
    pub open spec fn spec_combine(self, other: Wx) -> Wx {
        Wx {
            blowing: self.blowing || other.blowing,
            freezing: self.freezing || other.freezing,
            showers: self.showers || other.showers,
            squalls: self.squalls || other.squalls,
            thunderstorm: self.thunderstorm || other.thunderstorm,
            fog: self.fog || other.fog,
            smoke: self.smoke || other.smoke,
            visibility_inhibitor: self.visibility_inhibitor || other.visibility_inhibitor,
            rain: self.rain.spec_most_intense(other.rain),
            snow: self.snow.spec_most_intense(other.snow),
            falling_ice: self.falling_ice.spec_most_intense(other.falling_ice),
            dust: self.dust.spec_most_intense(other.dust),
            sand: self.sand.spec_most_intense(other.sand),
            funnel_cloud: self.funnel_cloud.spec_most_intense(other.funnel_cloud),
            unknown: self.unknown.spec_most_intense(other.unknown),
        }
    }

    /// The intensity that a group's marks give to what it reports: `VC`
    /// before `-` before `+`, and medium without any of them.
    pub open spec fn spec_general_intensity(tokens: Seq<Seq<char>>) -> Intensity {
        if tokens.contains("VC"@) {
            Intensity::Nearby
        } else if tokens.contains("-"@) {
            Intensity::Light
        } else if tokens.contains("+"@) {
            Intensity::Heavy
        } else {
            Intensity::Medium
        }
    }

    /// The state that a group's tokens report, whatever their order and
    /// however often each occurs.
    ///
    /// Rain takes the general intensity from `RA`, and is very light from
    /// `DZ` alone. Dust and sand take it from `DU` and from `SA` or `PO`, and
    /// are heavy from a storm (`DS`, `SS`) alone. Falling ice takes it from
    /// `PL`, and is heavy from hail (`GR`) alone. `BC`, `DR`, `MI`, `PR`,
    /// `PY`, `NSW`, `VA` and slashes change nothing.
    pub open spec fn spec_from_tokens(tokens: Seq<Seq<char>>) -> Wx {
        let general = Wx::spec_general_intensity(tokens);
        Wx {
            blowing: tokens.contains("BL"@) || tokens.contains("SS"@) || tokens.contains("PO"@)
                || tokens.contains("DS"@),
            freezing: tokens.contains("FZ"@),
            showers: tokens.contains("SH"@),
            squalls: tokens.contains("SQ"@),
            thunderstorm: tokens.contains("TS"@),
            fog: tokens.contains("BR"@) || tokens.contains("FG"@),
            smoke: tokens.contains("FU"@) || tokens.contains("HZ"@),
            visibility_inhibitor: false,
            rain: if tokens.contains("RA"@) {
                general
            } else if tokens.contains("DZ"@) {
                Intensity::VeryLight
            } else {
                Intensity::Absent
            },
            snow: if tokens.contains("SN"@) || tokens.contains("GS"@) || tokens.contains("IC"@)
                || tokens.contains("SG"@) {
                general
            } else {
                Intensity::Absent
            },
            falling_ice: if tokens.contains("PL"@) {
                general
            } else if tokens.contains("GR"@) {
                Intensity::Heavy
            } else {
                Intensity::Absent
            },
            dust: if tokens.contains("DU"@) {
                general
            } else if tokens.contains("DS"@) {
                Intensity::Heavy
            } else {
                Intensity::Absent
            },
            sand: if tokens.contains("SA"@) || tokens.contains("PO"@) {
                general
            } else if tokens.contains("SS"@) {
                Intensity::Heavy
            } else {
                Intensity::Absent
            },
            funnel_cloud: if tokens.contains("FC"@) {
                general
            } else {
                Intensity::Absent
            },
            unknown: if tokens.contains("UP"@) {
                general
            } else {
                Intensity::Absent
            },
        }
    }

    /// The state that a coded group reports: that of the tokens which
    /// [`WX_PATTERN`] finds in it.
    pub open spec fn spec_parse_code(code: Seq<char>) -> Wx {
        match regex_matches(WX_PATTERN@, code) {
            Some(tokens) => Wx::spec_from_tokens(tokens),
            None => Wx::spec_none(),
        }
    }

    /// The state in which nothing is reported.
    pub fn none() -> (r: Wx)
        ensures
            r == Wx::spec_none(),
    {
        Wx {
            blowing: false,
            freezing: false,
            showers: false,
            squalls: false,
            thunderstorm: false,
            visibility_inhibitor: false,
            fog: false,
            smoke: false,
            unknown: Intensity::Absent,
            rain: Intensity::Absent,
            snow: Intensity::Absent,
            falling_ice: Intensity::Absent,
            dust: Intensity::Absent,
            sand: Intensity::Absent,
            funnel_cloud: Intensity::Absent,
        }
    }

    /// Two states taken together.
    pub fn combine(self, other: Wx) -> (r: Wx)
        ensures
            r == self.spec_combine(other),
    {
        Wx {
            blowing: self.blowing || other.blowing,
            freezing: self.freezing || other.freezing,
            showers: self.showers || other.showers,
            squalls: self.squalls || other.squalls,
            thunderstorm: self.thunderstorm || other.thunderstorm,
            visibility_inhibitor: self.visibility_inhibitor || other.visibility_inhibitor,
            fog: self.fog || other.fog,
            smoke: self.smoke || other.smoke,
            rain: self.rain.most_intense(other.rain),
            snow: self.snow.most_intense(other.snow),
            falling_ice: self.falling_ice.most_intense(other.falling_ice),
            dust: self.dust.most_intense(other.dust),
            sand: self.sand.most_intense(other.sand),
            funnel_cloud: self.funnel_cloud.most_intense(other.funnel_cloud),
            unknown: self.unknown.most_intense(other.unknown),
        }
    }

    /// The state that a group's tokens report.
    pub fn from_tokens(tokens: &Vec<String>) -> (r: Wx)
        ensures
            r == Wx::spec_from_tokens(texts(tokens@)),
    {
        let general_intensity = Wx::general_intensity(tokens);

        let fz = has_token(tokens, "FZ");
        let sh = has_token(tokens, "SH");
        let bl = has_token(tokens, "BL");
        let ss = has_token(tokens, "SS");
        let po = has_token(tokens, "PO");
        let ds = has_token(tokens, "DS");
        let sq = has_token(tokens, "SQ");
        let ts = has_token(tokens, "TS");
        let br = has_token(tokens, "BR");
        let fg = has_token(tokens, "FG");
        let fu = has_token(tokens, "FU");
        let hz = has_token(tokens, "HZ");
        let ra = has_token(tokens, "RA");
        let dz = has_token(tokens, "DZ");
        let du = has_token(tokens, "DU");
        let sa = has_token(tokens, "SA");
        let pl = has_token(tokens, "PL");
        let gr = has_token(tokens, "GR");
        let up = has_token(tokens, "UP");
        let sn = has_token(tokens, "SN");
        let gs = has_token(tokens, "GS");
        let ic = has_token(tokens, "IC");
        let sg = has_token(tokens, "SG");
        let fc = has_token(tokens, "FC");


        Wx {
            blowing: bl || ss || po || ds,
            freezing: fz,
            showers: sh,
            squalls: sq,
            thunderstorm: ts,
            fog: br || fg,
            smoke: fu || hz,
            visibility_inhibitor: false,
            rain: if ra {
                general_intensity
            } else if dz {
                Intensity::VeryLight
            } else {
                Intensity::Absent
            },
            snow: if sn || gs || ic || sg {
                general_intensity
            } else {
                Intensity::Absent
            },
            falling_ice: if pl {
                general_intensity
            } else if gr {
                Intensity::Heavy
            } else {
                Intensity::Absent
            },
            dust: if du {
                general_intensity
            } else if ds {
                Intensity::Heavy
            } else {
                Intensity::Absent
            },
            sand: if sa || po {
                general_intensity
            } else if ss {
                Intensity::Heavy
            } else {
                Intensity::Absent
            },
            funnel_cloud: if fc {
                general_intensity
            } else {
                Intensity::Absent
            },
            unknown: if up {
                general_intensity
            } else {
                Intensity::Absent
            },
        }
    }

    /// The intensity that a group's marks give to what it reports.
    pub fn general_intensity(tokens: &Vec<String>) -> (r: Intensity)
        ensures
            r == Wx::spec_general_intensity(texts(tokens@)),
    {
        if has_token(tokens, "VC") {
            Intensity::Nearby
        } else if has_token(tokens, "-") {
            Intensity::Light
        } else if has_token(tokens, "+") {
            Intensity::Heavy
        } else {
            Intensity::Medium
        }
    }

    /// The state that a coded group such as `-RA` or `+TSRA` reports. A group
    /// in which the pattern finds nothing reports nothing.
    pub fn parse_code(code: &str) -> (r: Wx)
        ensures
            r == Wx::spec_parse_code(code@),
    {
        match find_all(WX_PATTERN, code) {
            Ok(tokens) => Wx::from_tokens(&tokens),
            Err(_) => Wx::none(),
        }
    }
}

/// Taking two states together does not depend on their order.
pub proof fn lemma_combine_commutative(a: Wx, b: Wx)
    ensures
        a.spec_combine(b) == b.spec_combine(a),
{
}

/// Taking three states together does not depend on how they are grouped.
pub proof fn lemma_combine_associative(a: Wx, b: Wx, c: Wx)
    ensures
        a.spec_combine(b).spec_combine(c) == a.spec_combine(b.spec_combine(c)),
{
    lemma_most_intense_laws(a.rain, b.rain, c.rain);
    lemma_most_intense_laws(a.snow, b.snow, c.snow);
    lemma_most_intense_laws(a.falling_ice, b.falling_ice, c.falling_ice);
    lemma_most_intense_laws(a.dust, b.dust, c.dust);
    lemma_most_intense_laws(a.sand, b.sand, c.sand);
    lemma_most_intense_laws(a.funnel_cloud, b.funnel_cloud, c.funnel_cloud);
    lemma_most_intense_laws(a.unknown, b.unknown, c.unknown);
}

/// Taking a state together with itself changes nothing.
pub proof fn lemma_combine_idempotent(a: Wx)
    ensures
        a.spec_combine(a) == a,
{
}

/// The empty state changes nothing when taken together with another.
pub proof fn lemma_combine_none(a: Wx)
    ensures
        a.spec_combine(Wx::spec_none()) == a,
        Wx::spec_none().spec_combine(a) == a,
{
}

/// The greater of two intensities does not depend on their order, nor a
/// chain of three on its grouping, and an intensity is its own greater.
pub proof fn lemma_most_intense_laws(a: Intensity, b: Intensity, c: Intensity)
    ensures
        a.spec_most_intense(b) == b.spec_most_intense(a),
        a.spec_most_intense(b).spec_most_intense(c) == a.spec_most_intense(b.spec_most_intense(c)),
        a.spec_most_intense(a) == a,
        a.spec_most_intense(b).spec_rank() >= a.spec_rank(),
        a.spec_most_intense(b).spec_rank() >= b.spec_rank(),
        a.spec_most_intense(b) == a || a.spec_most_intense(b) == b,
{
}

} // verus!
