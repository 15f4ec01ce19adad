use vstd::prelude::*;
use vstd::string::StringExecFns;
use crate::text::{decimal, decimal_string};

verus! {

/// A span of time.
#[derive(Clone, Copy, Debug, PartialEq, Eq, Structural)]
pub enum Duration {
    Instantaneous,
    Rounds(usize),
    Minutes(usize),
    Hours(usize),
    Years(usize),
}

/// A length.
#[derive(Clone, Copy, Debug, PartialEq, Eq, Structural)]
pub enum Distance {
    Inches(usize),
    Feet(usize),
}

/// A weight.
#[derive(Clone, Copy, Debug, PartialEq, Eq, Structural)]
pub enum Weight {
    Pounds(usize),
}

/// A number followed by a unit.
fn with_unit(n: usize, unit: &str) -> (r: String)
    ensures
        r@ == decimal(n as nat) + unit@,
{
    let mut r = decimal_string(n);
    r.append(unit);
    r
}

impl Duration {
    /// The duration in short form: "inst", "3 rnds.", "10 mins.", "1 hrs.", "40 yrs.".
    pub fn text(&self) -> (r: String)
        ensures
            r@ == match self {
                Duration::Instantaneous => "inst"@,
                Duration::Rounds(n) => decimal(*n as nat) + " rnds."@,
                Duration::Minutes(n) => decimal(*n as nat) + " mins."@,
                Duration::Hours(n) => decimal(*n as nat) + " hrs."@,
                Duration::Years(n) => decimal(*n as nat) + " yrs."@,
            },
    {
        match self {
            Duration::Instantaneous => String::from_str("inst"),
            Duration::Rounds(n) => with_unit(*n, " rnds."),
            Duration::Minutes(n) => with_unit(*n, " mins."),
            Duration::Hours(n) => with_unit(*n, " hrs."),
            Duration::Years(n) => with_unit(*n, " yrs."),
        }
    }
}

impl Distance {
    /// The length with its unit mark: 4" or 3'.
    pub fn text(&self) -> (r: String)
        ensures
            r@ == match self {
                Distance::Inches(n) => decimal(*n as nat) + "\""@,
                Distance::Feet(n) => decimal(*n as nat) + "'"@,
            },
    {
        match self {
            Distance::Inches(n) => with_unit(*n, "\""),
            Distance::Feet(n) => with_unit(*n, "'"),
        }
    }
}

impl Weight {
    /// The weight in pounds: "40 lbs.".
    pub fn text(&self) -> (r: String)
        ensures
            r@ == match self {
                Weight::Pounds(n) => decimal(*n as nat) + " lbs."@,
            },
    {
        match self {
            Weight::Pounds(n) => with_unit(*n, " lbs."),
        }
    }
}

} // verus!
