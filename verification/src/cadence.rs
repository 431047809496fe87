//! How often a monitor is due.

use vstd::prelude::*;
use vstd::string::*;

verus! {

/// The scheduling frequency of a monitor.
#[derive(Clone, Copy, Debug, PartialEq, Eq, Structural)]
pub enum Cadence {
    Hourly,
    Daily,
}

impl Cadence {
    /// The cadence that a label selects, if any. Matching is exact.
    pub open spec fn spec_parse(label: Seq<char>) -> Option<Cadence> {
        if label == "hourly"@ {
            Some(Cadence::Hourly)
        } else if label == "daily"@ {
            Some(Cadence::Daily)
        } else {
            None
        }
    }

    /// The label of a cadence.
    pub open spec fn spec_name(self) -> Seq<char> {
        match self {
            Cadence::Hourly => "hourly"@,
            Cadence::Daily => "daily"@,
        }
    }

    /// Reads a cadence label.
    pub fn parse(label: &str) -> (r: Option<Cadence>)
        ensures
            r == Self::spec_parse(label@),
    {
        let l = String::from_str(label);
        if l == String::from_str("hourly") {
            Some(Cadence::Hourly)
        } else if l == String::from_str("daily") {
            Some(Cadence::Daily)
        } else {
            None
        }
    }

    /// The label of a cadence.
    pub fn name(self) -> (s: &'static str)
        ensures
            s@ == self.spec_name(),
    {
        match self {
            Cadence::Hourly => "hourly",
            Cadence::Daily => "daily",
        }
    }

    /// Reading a cadence's label gives the cadence back, and a label that
    /// selects a cadence is that cadence's label.
    pub proof fn lemma_parse_inverts_name(cadence: Cadence, label: Seq<char>)
        ensures
            Self::spec_parse(cadence.spec_name()) == Some(cadence),
            Self::spec_parse(label) matches Some(c) ==> c.spec_name() == label,
    {
        reveal_strlit("hourly");
        reveal_strlit("daily");
        assert("daily"@.len() == 5);
    }
}

} // verus!
