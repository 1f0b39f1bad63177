//! Minimum-supported-platform version tags: ordered triples that can
//! render themselves as a conditional-compilation feature expression.

use vstd::prelude::*;
use vstd::string::StringExecFns;

use crate::text::{decimal_digits, push_decimal};

verus! {

/// An ordered, comparable minimum-platform version.
#[derive(Clone, Copy, Debug, PartialEq, Eq, Structural)]
pub struct Version {
    pub major: u16,
    pub minor: u16,
    pub patch: u16,
}

/// Lexicographic order on (major, minor, patch): true iff `a` is strictly
/// above `b`.
pub open spec fn version_gt(a: Version, b: Version) -> bool {
    ||| a.major > b.major
    ||| (a.major == b.major && a.minor > b.minor)
    ||| (a.major == b.major && a.minor == b.minor && a.patch > b.patch)
}

/// The feature expression a version renders to inside a gate:
/// `feature = "v<major>_<minor>"`.
pub open spec fn cfg_of_version(v: Version) -> Seq<char> {
    "feature = \"v"@ + decimal_digits(v.major as nat) + "_"@ + decimal_digits(v.minor as nat)
        + "\""@
}

impl Version {
    pub fn new(major: u16, minor: u16, patch: u16) -> (v: Version)
        ensures
            v == (Version { major, minor, patch }),
    {
        Version { major, minor, patch }
    }

    /// Strictly-above comparison, lexicographic on the three fields.
    pub fn gt(&self, other: &Version) -> (r: bool)
        ensures
            r == version_gt(*self, *other),
    {
        if self.major != other.major {
            self.major > other.major
        } else if self.minor != other.minor {
            self.minor > other.minor
        } else {
            self.patch > other.patch
        }
    }

    /// Renders the feature expression used inside a gate line.
    pub fn to_cfg(&self) -> (r: String)
        ensures
            r@ == cfg_of_version(*self),
    {
        let mut s = String::from_str("feature = \"v");
        push_decimal(&mut s, self.major);
        s.append("_");
        push_decimal(&mut s, self.minor);
        s.append("\"");
        proof {
            assert(s@ =~= cfg_of_version(*self));
        }
        s
    }
}

} // verus!
