//! Safe access to the CPU frequency-scaling control library of the host.
//!
//! The native library is driven from outside: every operation here takes
//! what the native call answered (and the error register read right after it)
//! and turns it into a value of this crate, and the list queries are state
//! machines that say when to read the next node and when to release the list.
//! The main entity is [`Cpu`].

mod adapters;
mod cpu;
mod error;
mod policy;
mod result;
mod stat;
mod text;
mod types;

pub use adapters::{
    chain_reports, chain_result, lemma_chain_order, lemma_walk_releases_once, node_step_view,
    outcome_view, walk_step, walk_trace, AffectedCpus, AvailableFrequencies, AvailableGovernors,
    Extract, Extraction, HeadStep, NodeStep, RelatedCpus, Stats, Walk, WalkView,
};
pub use cpu::{
    cpu_text, enumeration, iterator_step, lemma_get_all_prefix, lemma_policy_round_trip,
    policy_outcome, policy_read, policy_written, reading_result, status_result,
    status_result_spec, transitions_result, Cpu, Iterator, IteratorView,
};
pub use error::{description, message, CpuPowerError};
pub use policy::{policy_text, Policy, PolicyRecord, PolicyRecordView, PolicyView};
pub use result::Result;
pub use stat::{stat_text, Stat};
pub use text::{decimal, digit_char, is_first_nul, nul_free, signed_decimal};
pub use types::{CpuId, Frequency};
