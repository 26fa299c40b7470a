use vstd::prelude::*;

use crate::text::{decimal, push_decimal};
use crate::types::Frequency;

verus! {

/// The scaling policy of a cpu: the frequency range and the governor that
/// picks frequencies in it.
///
/// A policy read from the native library has `min <= max`; one built by a
/// caller need not.
#[derive(Debug)]
pub struct Policy {
    pub min: Frequency,
    pub max: Frequency,
    pub governor: String,
}

/// What a policy holds, with the governor as its characters.
pub struct PolicyView {
    pub min: Frequency,
    pub max: Frequency,
    pub governor: Seq<char>,
}

impl View for Policy {
    type V = PolicyView;

    open spec fn view(&self) -> PolicyView {
        PolicyView { min: self.min, max: self.max, governor: self.governor@ }
    }
}

impl PartialEq for Policy {
    fn eq(&self, other: &Policy) -> (r: bool)
        ensures
            r == (self@ == other@),
    {
        self.min == other.min && self.max == other.max && self.governor == other.governor
    }
}

impl vstd::std_specs::cmp::PartialEqSpecImpl for Policy {
    open spec fn obeys_eq_spec() -> bool {
        true
    }

    open spec fn eq_spec(&self, other: &Policy) -> bool {
        self@ == other@
    }
}

/// The text form of a policy: `Policy{min: A, max: B, governor: G}`.
pub open spec fn policy_text(p: PolicyView) -> Seq<char> {
    "Policy{min: "@ + decimal(p.min as nat) + ", max: "@ + decimal(p.max as nat) + ", governor: "@
        + p.governor + "}"@
}

impl Policy {
    /// A policy with the given range and governor.
    pub fn new(min: Frequency, max: Frequency, governor: &str) -> (r: Policy)
        ensures
            r@ == (PolicyView { min, max, governor: governor@ }),
    {
        let mut result = Policy { min, max, governor: String::new() };
        result.governor.append(governor);
        assert(result.governor@ =~= governor@);
        result
    }

    /// The text form of this policy.
    pub fn to_string(&self) -> (r: String)
        ensures
            r@ == policy_text(self@),
    {
        let mut out = String::new();
        out.append("Policy{min: ");
        push_decimal(&mut out, self.min);
        out.append(", max: ");
        push_decimal(&mut out, self.max);
        out.append(", governor: ");
        out.append(self.governor.as_str());
        out.append("}");
        assert(out@ =~= policy_text(self@));
        out
    }
}

/// A policy in the shape the native library reads and writes: the governor
/// as its bytes, without the terminator, or `None` where the native record
/// held a null text pointer.
#[derive(Debug)]
pub struct PolicyRecord {
    pub min: Frequency,
    pub max: Frequency,
    pub governor: Option<Vec<u8>>,
}

/// What a policy record holds.
pub struct PolicyRecordView {
    pub min: Frequency,
    pub max: Frequency,
    pub governor: Option<Seq<u8>>,
}

impl View for PolicyRecord {
    type V = PolicyRecordView;

    open spec fn view(&self) -> PolicyRecordView {
        PolicyRecordView {
            min: self.min,
            max: self.max,
            governor: match self.governor {
                Some(b) => Some(b@),
                None => None,
            },
        }
    }
}

} // verus!
