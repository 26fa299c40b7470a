use vstd::prelude::*;

use crate::text::{decimal, push_decimal};
use crate::types::Frequency;

verus! {

/// How long a cpu has spent at one frequency.
#[derive(Clone, Copy, Debug, PartialEq, Eq, Structural)]
pub struct Stat {
    pub freq: Frequency,
    /// Residency at `freq`, in the native library's ticks.
    pub time_in_state: u64,
}

impl View for Stat {
    type V = Stat;

    open spec fn view(&self) -> Stat {
        *self
    }
}

/// The text form of a stat: `Stat{freq: F, time_in_state: T}`.
pub open spec fn stat_text(s: Stat) -> Seq<char> {
    "Stat{freq: "@ + decimal(s.freq as nat) + ", time_in_state: "@ + decimal(s.time_in_state as nat)
        + "}"@
}

impl Stat {
    /// The text form of this stat.
    pub fn to_string(&self) -> (r: String)
        ensures
            r@ == stat_text(*self),
    {
        let mut out = String::new();
        out.append("Stat{freq: ");
        push_decimal(&mut out, self.freq);
        out.append(", time_in_state: ");
        push_decimal(&mut out, self.time_in_state);
        out.append("}");
        assert(out@ =~= stat_text(*self));
        out
    }
}

} // verus!
