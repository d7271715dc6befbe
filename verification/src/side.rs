//! The side of an option contract: a call or a put.

use vstd::prelude::*;

verus! {

/// Represents the side of an option: Call or Put.
#[derive(Clone, Copy, Debug, PartialEq, Eq, Structural)]
pub enum OptionSide {
    Call,
    Put,
}

impl OptionSide {
    /// The long name of the side, as it is written in requests and storage.
    pub open spec fn spec_name(self) -> Seq<char> {
        match self {
            OptionSide::Call => "Call"@,
            OptionSide::Put => "Put"@,
        }
    }

    /// The one-letter code of the side, as the exchange feed writes it.
    pub open spec fn spec_code(self) -> Seq<char> {
        match self {
            OptionSide::Call => "C"@,
            OptionSide::Put => "P"@,
        }
    }

    pub fn name(&self) -> (r: &'static str)
        ensures
            r@ == self.spec_name(),
    {
        match self {
            OptionSide::Call => "Call",
            OptionSide::Put => "Put",
        }
    }

    pub fn code(&self) -> (r: &'static str)
        ensures
            r@ == self.spec_code(),
    {
        match self {
            OptionSide::Call => "C",
            OptionSide::Put => "P",
        }
    }

    /// Parses the long name, accepting exactly "Call" and "Put".
    pub fn from_name(s: &str) -> (r: Option<OptionSide>)
        ensures
            s@ == "Call"@ ==> r == Some(OptionSide::Call),
            s@ == "Put"@ ==> r == Some(OptionSide::Put),
            s@ != "Call"@ && s@ != "Put"@ ==> r is None,
    {
        proof {
            reveal_strlit("Call");
            reveal_strlit("Put");
            assert("Call"@.len() == 4 && "Put"@.len() == 3);
        }
        if crate::text::str_eq(s, "Call") {
            Some(OptionSide::Call)
        } else if crate::text::str_eq(s, "Put") {
            Some(OptionSide::Put)
        } else {
            None
        }
    }

    /// Parses the one-letter exchange code, accepting exactly "C" and "P".
    pub fn from_code(s: &str) -> (r: Option<OptionSide>)
        ensures
            s@ == "C"@ ==> r == Some(OptionSide::Call),
            s@ == "P"@ ==> r == Some(OptionSide::Put),
            s@ != "C"@ && s@ != "P"@ ==> r is None,
    {
        proof {
            reveal_strlit("C");
            reveal_strlit("P");
            assert("C"@[0] == 'C' && "P"@[0] == 'P');
        }
        if crate::text::str_eq(s, "C") {
            Some(OptionSide::Call)
        } else if crate::text::str_eq(s, "P") {
            Some(OptionSide::Put)
        } else {
            None
        }
    }
}

} // verus!
