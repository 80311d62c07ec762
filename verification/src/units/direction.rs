//! Compass direction, quantized to tens of degrees.
use vstd::prelude::*;
use vstd::string::*;
use crate::units::text::decimal;
use crate::units::text::push_decimal;

verus! {

/// Degrees given to [`Direction::from_degrees`] that lie beyond a full turn.
#[derive(Clone, Copy, Debug, PartialEq, Eq, Structural)]
pub struct DirectionError {
    pub degrees: u16,
}

impl DirectionError {
    /// The text of the error.
    pub open spec fn spec_message(&self) -> Seq<char> {
        "Degrees provided ("@ + decimal(self.degrees as nat) + ") were not under 360."@
    }

    /// A sentence that names the degrees that were refused.
    pub fn message(&self) -> (r: String)
        ensures
            r@ == self.spec_message(),
    {
        let mut s = String::from_str("Degrees provided (");
        push_decimal(&mut s, self.degrees as u64);
        s.append(") were not under 360.");
        s
    }
}

/// The multiple of ten nearest to `degrees`, a tie going up, reduced to less
/// than a full turn.
pub open spec fn quantize(degrees: int) -> int {
    if degrees % 10 != 0 {
        (((degrees + 5) / 10) * 10) % 360
    } else {
        degrees % 360
    }
}

/// The compass point of a quantized direction: sixteen points, the four main
/// ones three steps wide and the others two.
pub open spec fn cardinal_of(degrees: int) -> Option<Seq<char>> {
    if degrees == 350 || degrees == 0 || degrees == 10 {
        Some("N"@)
    } else if degrees == 20 || degrees == 30 {
        Some("NNE"@)
    } else if degrees == 40 || degrees == 50 {
        Some("NE"@)
    } else if degrees == 60 || degrees == 70 {
        Some("ENE"@)
    } else if degrees == 80 || degrees == 90 || degrees == 100 {
        Some("E"@)
    } else if degrees == 110 || degrees == 120 {
        Some("ESE"@)
    } else if degrees == 130 || degrees == 140 {
        Some("SE"@)
    } else if degrees == 150 || degrees == 160 {
        Some("SSE"@)
    } else if degrees == 170 || degrees == 180 || degrees == 190 {
        Some("S"@)
    } else if degrees == 200 || degrees == 210 {
        Some("SSW"@)
    } else if degrees == 220 || degrees == 230 {
        Some("SW"@)
    } else if degrees == 240 || degrees == 250 {
        Some("WSW"@)
    } else if degrees == 260 || degrees == 270 || degrees == 280 {
        Some("W"@)
    } else if degrees == 290 || degrees == 300 {
        Some("WNW"@)
    } else if degrees == 310 || degrees == 320 {
        Some("NW"@)
    } else if degrees == 330 || degrees == 340 {
        Some("NNW"@)
    } else {
        None
    }
}

/// Every multiple of ten below a full turn has a compass point.
pub proof fn lemma_quantized_has_cardinal(degrees: int)
    requires
        0 <= degrees < 360,
        degrees % 10 == 0,
    ensures
        cardinal_of(degrees) is Some,
{
}

/// The compass point of `n` degrees, where `n` is a multiple of ten below
/// 360.
pub fn int_to_cardinal(n: u16) -> (r: Option<&'static str>)
    ensures
        r is Some <==> cardinal_of(n as int) is Some,
        r matches Some(s) ==> Some(s@) == cardinal_of(n as int),
{
    match n {
        350 | 0 | 10 => Some("N"),
        20 | 30 => Some("NNE"),
        40 | 50 => Some("NE"),
        60 | 70 => Some("ENE"),
        80 | 90 | 100 => Some("E"),
        110 | 120 => Some("ESE"),
        130 | 140 => Some("SE"),
        150 | 160 => Some("SSE"),
        170 | 180 | 190 => Some("S"),
        200 | 210 => Some("SSW"),
        220 | 230 => Some("SW"),
        240 | 250 => Some("WSW"),
        260 | 270 | 280 => Some("W"),
        290 | 300 => Some("WNW"),
        310 | 320 => Some("NW"),
        330 | 340 => Some("NNW"),
        _ => None,
    }
}

/// A direction in whole tens of degrees, from 0 to 350.
#[derive(Clone, Copy, Debug, PartialEq, Eq, Structural)]
pub struct Direction {
    degrees: u16,
}

impl Direction {
    /// The direction in degrees.
    pub closed spec fn spec_degrees(&self) -> int {
        self.degrees as int
    }

    #[verifier::type_invariant]
    closed spec fn quantized(&self) -> bool {
        self.degrees < 360 && self.degrees % 10 == 0
    }

    /// Rounds `degrees` to the nearest ten and reduces 360 to 0; refuses more
    /// than a full turn.
    pub fn sanitize_degrees(degrees: u16) -> (r: Result<u16, DirectionError>)
        ensures
            degrees > 360 <==> r is Err,
            r matches Err(e) ==> e.degrees == degrees,
            r matches Ok(d) ==> d == quantize(degrees as int) && d < 360 && d % 10 == 0,
    {
        if degrees > 360 {
            return Err(DirectionError { degrees });
        }
        let rounded: u16 = if degrees % 10 != 0 {
            ((degrees + 5) / 10) * 10
        } else {
            degrees
        };
        Ok(rounded % 360)
    }

    /// The direction nearest to `degrees`; an error where `degrees` is more
    /// than 360.
    pub fn from_degrees(degrees: u16) -> (r: Result<Direction, DirectionError>)
        ensures
            degrees > 360 <==> r is Err,
            r matches Err(e) ==> e.degrees == degrees,
            r matches Ok(d) ==> d.spec_degrees() == quantize(degrees as int)
                && 0 <= d.spec_degrees() <= 350 && d.spec_degrees() % 10 == 0,
    {
        match Direction::sanitize_degrees(degrees) {
            Ok(corrected) => Ok(Direction { degrees: corrected }),
            Err(e) => Err(e),
        }
    }

    /// The compass point of the direction, one of sixteen.
    pub fn cardinal(&self) -> (r: &'static str)
        ensures
            Some(r@) == cardinal_of(self.spec_degrees()),
    {
        proof {
            use_type_invariant(self);
            lemma_quantized_has_cardinal(self.degrees as int);
        }
        match int_to_cardinal(self.degrees) {
            Some(s) => s,
            None => "N",
        }
    }

    /// The degrees of the direction as text.
    pub fn to_text(&self) -> (r: String)
        ensures
            r@ == decimal(self.spec_degrees() as nat),
    {
        let mut s = String::new();
        push_decimal(&mut s, self.degrees as u64);
        s
    }

    /// The direction in degrees: a multiple of ten from 0 to 350.
    pub fn degrees(&self) -> (r: u16)
        ensures
            r == self.spec_degrees(),
            r < 360,
            r % 10 == 0,
    {
        proof {
            use_type_invariant(self);
        }
        self.degrees
    }
}

} // verus!
