//! The version of an engine build.

use crate::text::decimal_string;
use crate::version::{format_spec, triple_order};
use std::cmp::Ordering;
use vstd::prelude::*;
use vstd::std_specs::cmp::PartialOrdSpecImpl;
use vstd::std_specs::convert::FromSpecImpl;
use vstd::string::*;

verus! {

broadcast use vstd::string::group_string_axioms;

/// The version of an engine build: three numbers, ordered
/// lexicographically.
#[derive(PartialEq, Eq, Structural, Debug, Copy, Clone)]
pub struct FactorioVersion {
    major: u16,
    minor: u16,
    patch: u16,
}

impl View for FactorioVersion {
    type V = (nat, nat, nat);

    closed spec fn view(&self) -> (nat, nat, nat) {
        (self.major as nat, self.minor as nat, self.patch as nat)
    }
}

impl PartialOrd for FactorioVersion {
    fn partial_cmp(&self, other: &Self) -> (r: Option<Ordering>) {
        if self.major < other.major {
            Some(Ordering::Less)
        } else if self.major > other.major {
            Some(Ordering::Greater)
        } else if self.minor < other.minor {
            Some(Ordering::Less)
        } else if self.minor > other.minor {
            Some(Ordering::Greater)
        } else if self.patch < other.patch {
            Some(Ordering::Less)
        } else if self.patch > other.patch {
            Some(Ordering::Greater)
        } else {
            Some(Ordering::Equal)
        }
    }
}

impl PartialOrdSpecImpl for FactorioVersion {
    open spec fn obeys_partial_cmp_spec() -> bool {
        true
    }

    open spec fn partial_cmp_spec(&self, other: &Self) -> Option<Ordering> {
        Some(triple_order(self@, other@))
    }
}

impl From<[u16; 3]> for FactorioVersion {
    fn from(value: [u16; 3]) -> (v: Self) {
        FactorioVersion { major: value[0], minor: value[1], patch: value[2] }
    }
}

impl FromSpecImpl<[u16; 3]> for FactorioVersion {
    open spec fn obeys_from_spec() -> bool {
        true
    }

    open spec fn from_spec(value: [u16; 3]) -> Self {
        FactorioVersion::of(value[0], value[1], value[2])
    }
}

impl FactorioVersion {
    /// The version with the given components.
    pub closed spec fn of(major: u16, minor: u16, patch: u16) -> FactorioVersion {
        FactorioVersion { major, minor, patch }
    }

    /// The components of the version with the given components.
    pub broadcast proof fn lemma_view_of(major: u16, minor: u16, patch: u16)
        ensures
            #[trigger] FactorioVersion::of(major, minor, patch)@ == (
                major as nat,
                minor as nat,
                patch as nat,
            ),
    {
    }

    /// The text of the version: `major.minor.patch` in decimal.
    pub fn to_string(&self) -> (s: String)
        ensures
            s@ == format_spec(self@),
    {
        proof {
            reveal_strlit(".");
            assert("."@ =~= seq!['.']);
        }
        let mut s = decimal_string(self.major as u64);
        s.append(".");
        s.append(decimal_string(self.minor as u64).as_str());
        s.append(".");
        s.append(decimal_string(self.patch as u64).as_str());
        s
    }
}

} // verus!
