//! The two-valued condition that the signal carries, with its inversion,
//! its display names and their parser.

use crate::errors::ParseGatewayError;
use vstd::prelude::*;
use vstd::string::StrSliceExecFns;

verus! {

/// The condition being signalled: a gate is either raised or lowered.
#[derive(Debug, PartialEq, Eq, Structural, Clone, Copy, Hash)]
pub enum Gateway {
    Raised,
    Lowered,
}

/// The display name of a state, as a sequence of characters.
pub open spec fn spec_label(g: Gateway) -> Seq<char> {
    if g == Gateway::Raised {
        "Raised"@
    } else {
        "Lowered"@
    }
}

/// What parsing a piece of text as a state name yields: the state whose
/// name it is, or an error for any other text.
pub open spec fn spec_parse(s: Seq<char>) -> Result<Gateway, ParseGatewayError> {
    if s == "Raised"@ {
        Ok(Gateway::Raised)
    } else if s == "Lowered"@ {
        Ok(Gateway::Lowered)
    } else {
        Err(ParseGatewayError)
    }
}

impl Gateway {
    /// The opposite state: the total inversion on the two values.
    pub open spec fn inverse(self) -> Gateway {
        match self {
            Gateway::Raised => Gateway::Lowered,
            Gateway::Lowered => Gateway::Raised,
        }
    }

    /// Flip the state to its opposite.
    pub fn not(self) -> (r: Gateway)
        ensures
            r == self.inverse(),
    {
        match self {
            Gateway::Raised => Gateway::Lowered,
            Gateway::Lowered => Gateway::Raised,
        }
    }

    /// Overwrite with `target`, reporting whether that changed the value.
    pub fn step_to(&mut self, target: Gateway) -> (changed: bool)
        ensures
            *final(self) == target,
            changed == (*old(self) != target),
    {
        let changed = *self != target;
        *self = target;
        changed
    }

    /// The name of the state.
    pub fn label(self) -> (r: &'static str)
        ensures
            r@ == spec_label(self),
    {
        match self {
            Gateway::Raised => "Raised",
            Gateway::Lowered => "Lowered",
        }
    }

    /// Read a state back from its name.
    pub fn parse(s: &str) -> (r: Result<Gateway, ParseGatewayError>)
        ensures
            r == spec_parse(s@),
    {
        if str_eq(s, "Raised") {
            Ok(Gateway::Raised)
        } else if str_eq(s, "Lowered") {
            Ok(Gateway::Lowered)
        } else {
            Err(ParseGatewayError)
        }
    }
}

impl core::str::FromStr for Gateway {
    type Err = ParseGatewayError;

    fn from_str(s: &str) -> Result<Gateway, ParseGatewayError> {
        Gateway::parse(s)
    }
}

/// Character-by-character equality of two pieces of text.
fn str_eq(a: &str, b: &str) -> (r: bool)
    ensures
        r == (a@ == b@),
{
    let a_len = a.unicode_len();
    let b_len = b.unicode_len();
    if a_len != b_len {
        return false;
    }
    let mut i: usize = 0;
    while i < a_len
        invariant
            i <= a_len,
            a_len == a@.len(),
            b_len == b@.len(),
            a_len == b_len,
            forall|j: int| 0 <= j < i ==> a@[j] == b@[j],
        decreases a_len - i,
    {
        if a.get_char(i) != b.get_char(i) {
            return false;
        }
        i += 1;
    }
    proof {
        assert(a@ =~= b@);
    }
    true
}

} // verus!
