//! The operator's verdict on a contact.

use vstd::prelude::*;
use vstd::string::StringExecFns;

verus! {

/// Trust in a contact. A contact starts out `Unknown`; only an explicit
/// decision of the operator makes it `Trusted` or `Rejected`.
#[derive(Debug, Clone, Copy, Hash, PartialEq, Eq, Structural, PartialOrd, Ord)]
pub enum Trust {
    Unknown,
    Trusted,
    Rejected,
}

impl Trust {
    /// The name of the variant.
    pub open spec fn name(&self) -> Seq<char> {
        match self {
            Trust::Unknown => "Unknown"@,
            Trust::Trusted => "Trusted"@,
            Trust::Rejected => "Rejected"@,
        }
    }

    /// The text shown for this verdict.
    pub fn to_text(&self) -> (text: String)
        ensures
            text@ == self.name(),
    {
        match self {
            Trust::Unknown => String::from_str("Unknown"),
            Trust::Trusted => String::from_str("Trusted"),
            Trust::Rejected => String::from_str("Rejected"),
        }
    }
}

} // verus!
