use vstd::prelude::*;
use vstd::utf8::*;

use crate::adapters::{
    AffectedCpus,
    AvailableFrequencies,
    AvailableGovernors,
    Extract,
    Extraction,
    RelatedCpus,
    Stats,
};
use crate::error::CpuPowerError;
use crate::policy::{Policy, PolicyRecord, PolicyRecordView, PolicyView};
use crate::result::Result;
use crate::stat::Stat;
use crate::text::{decimal, is_first_nul, nul_free, push_decimal, utf8_string, find_nul};
use crate::types::{CpuId, Frequency};

verus! {

/// A handle on one logical processor. It holds only the id: every operation
/// goes to the native library again, so a handle always reflects the system
/// as it is now.
///
/// The native library is called from outside this crate. Each operation
/// here takes what the call answered, with the error register (errno) read
/// right after it, and gives the value or the error the caller sees.
#[derive(Clone, Copy, Debug, PartialEq, Eq, Structural)]
pub struct Cpu {
    id: CpuId,
}

impl View for Cpu {
    type V = CpuId;

    closed spec fn view(&self) -> CpuId {
        self.id
    }
}

/// A reading where 0 means failure: the reading, or the error register.
pub open spec fn reading_result(reading: u64, errno: i32) -> core::result::Result<u64, CpuPowerError> {
    if reading == 0 {
        Err(CpuPowerError::SystemError(errno))
    } else {
        Ok(reading)
    }
}

/// A status code where 0 means success.
pub open spec fn status_result_spec(status: i32, errno: i32) -> core::result::Result<(), CpuPowerError> {
    if status == 0 {
        Ok(())
    } else {
        Err(CpuPowerError::SystemError(errno))
    }
}

/// The outcome of a transition count: a zero count is a failure only where the
/// error register, cleared before the call, was set by it.
pub open spec fn transitions_result(count: u64, errno: i32) -> core::result::Result<u64, CpuPowerError> {
    if count == 0 && errno != 0 {
        Err(CpuPowerError::SystemError(errno))
    } else {
        Ok(count)
    }
}

/// The record that setting policy `p` hands to the native library.
pub open spec fn policy_written(p: PolicyView) -> PolicyRecordView {
    PolicyRecordView { min: p.min, max: p.max, governor: Some(encode_utf8(p.governor)) }
}

/// The policy read from what the native library returned: `None` where it
/// returned a null record.
pub open spec fn policy_read(record: Option<PolicyRecordView>, errno: i32) -> core::result::Result<
    PolicyView,
    CpuPowerError,
> {
    match record {
        None => Err(CpuPowerError::SystemError(errno)),
        Some(rec) => match rec.governor {
            None => Err(CpuPowerError::SystemError(errno)),
            Some(b) => if valid_utf8(b) {
                Ok(PolicyView { min: rec.min, max: rec.max, governor: decode_utf8(b) })
            } else {
                Err(CpuPowerError::Utf8Error)
            },
        },
    }
}

/// What a policy result holds, with the policy replaced by its view.
pub open spec fn policy_outcome(r: Result<Policy>) -> core::result::Result<PolicyView, CpuPowerError> {
    match r {
        Ok(p) => Ok(p@),
        Err(e) => Err(e),
    }
}

/// The text form of a cpu: `Cpu{id: N, frequency: F}`, with `Unknown` where
/// its frequency could not be read.
pub open spec fn cpu_text(id: CpuId, frequency: core::result::Result<Frequency, CpuPowerError>) -> Seq<
    char,
> {
    "Cpu{id: "@ + decimal(id as nat) + ", frequency: "@ + match frequency {
        Ok(f) => decimal(f as nat),
        Err(_) => "Unknown"@,
    } + "}"@
}

/// The outcome of a native call that answers with a status code, 0 meaning
/// success.
pub fn status_result(status: i32, errno: i32) -> (r: Result<()>)
    ensures
        r == status_result_spec(status, errno),
{
    if status == 0 {
        Ok(())
    } else {
        Err(CpuPowerError::SystemError(errno))
    }
}

fn reading(value: u64, errno: i32) -> (r: Result<u64>)
    ensures
        r == reading_result(value, errno),
{
    if value == 0 {
        Err(CpuPowerError::SystemError(errno))
    } else {
        Ok(value)
    }
}

impl Cpu {
    /// The handle on cpu `id`.
    pub fn new(id: CpuId) -> (r: Cpu)
        ensures
            r@ == id,
    {
        Cpu { id }
    }

    /// The id of this cpu.
    pub fn get_id(&self) -> (r: CpuId)
        ensures
            r == self@,
    {
        self.id
    }

    /// All cpus of the system: ids 0, 1, 2, ... for as long as they exist.
    pub fn get_all() -> (r: Iterator)
        ensures
            r@ == (IteratorView { next: 0, done: false }),
    {
        Iterator { next_id: 0, done: false }
    }

    /// Whether a cpu exists, from the native existence check's status: 0
    /// means that it does.
    pub fn cpu_exists(status: i32) -> (r: bool)
        ensures
            r == (status == 0),
    {
        status == 0
    }

    /// The frequency: the hardware's reading where it could be had, else the
    /// kernel's, which `kernel` reads only then.
    pub fn get_freq<F>(hardware: Result<Frequency>, kernel: F) -> (r: Result<Frequency>) where
        F: FnOnce() -> Result<Frequency>,
        requires
            hardware is Err ==> call_requires(kernel, ()),
        ensures
            hardware is Ok ==> r == hardware,
            hardware is Err ==> call_ensures(kernel, (), r),
    {
        match hardware {
            Ok(f) => Ok(f),
            Err(_) => kernel(),
        }
    }

    /// The frequency as the kernel sees it, from the native reading (0 on
    /// failure).
    pub fn get_freq_kernel(frequency: Frequency, errno: i32) -> (r: Result<Frequency>)
        ensures
            r == reading_result(frequency, errno),
    {
        reading(frequency, errno)
    }

    /// The frequency as the hardware reports it, from the native reading (0 on
    /// failure). Reading it usually takes root.
    pub fn get_freq_hardware(frequency: Frequency, errno: i32) -> (r: Result<Frequency>)
        ensures
            r == reading_result(frequency, errno),
    {
        reading(frequency, errno)
    }

    /// The outcome of setting this cpu's frequency, from the native status.
    pub fn set_freq(&self, status: i32, errno: i32) -> (r: Result<&Cpu>)
        ensures
            status == 0 ==> (r matches Ok(c) && *c == *self),
            status != 0 ==> r == Err::<&Cpu, CpuPowerError>(CpuPowerError::SystemError(errno)),
    {
        if status == 0 {
            Ok(self)
        } else {
            Err(CpuPowerError::SystemError(errno))
        }
    }

    /// The transition latency in nanoseconds, from the native reading (0 on
    /// failure).
    pub fn get_transition_latency(latency: u64, errno: i32) -> (r: Result<u64>)
        ensures
            r == reading_result(latency, errno),
    {
        reading(latency, errno)
    }

    /// The outcome of changing the policy's maximum, from the native status.
    pub fn modify_policy_max(status: i32, errno: i32) -> (r: Result<()>)
        ensures
            r == status_result_spec(status, errno),
    {
        status_result(status, errno)
    }

    /// The outcome of changing the policy's minimum, from the native status.
    pub fn modify_policy_min(status: i32, errno: i32) -> (r: Result<()>)
        ensures
            r == status_result_spec(status, errno),
    {
        status_result(status, errno)
    }

    /// The name to hand to the native call that changes the governor: the
    /// bytes of `governor`. A name with a terminator byte in it cannot be
    /// handed over; the error comes before any call.
    pub fn modify_policy_governor(governor: &str) -> (r: Result<Vec<u8>>)
        ensures
            nul_free(encode_utf8(governor@)) ==> (r matches Ok(b) && b@ == encode_utf8(governor@)),
            !nul_free(encode_utf8(governor@)) ==> (r matches Err(CpuPowerError::NulError {
                position,
            }) && is_first_nul(encode_utf8(governor@), position as int)),
    {
        let bytes = governor.as_bytes();
        match find_nul(bytes) {
            Some(position) => Err(CpuPowerError::NulError { position }),
            None => Ok(governor.as_bytes_vec()),
        }
    }

    /// The hardware frequency limits `(min, max)`, from the native status and
    /// the two values it wrote.
    pub fn get_hardware_limits(status: i32, min: Frequency, max: Frequency, errno: i32) -> (r: Result<
        (Frequency, Frequency),
    >)
        ensures
            status == 0 ==> r == Ok::<(Frequency, Frequency), CpuPowerError>((min, max)),
            status != 0 ==> r == Err::<(Frequency, Frequency), CpuPowerError>(
                CpuPowerError::SystemError(errno),
            ),
    {
        if status == 0 {
            Ok((min, max))
        } else {
            Err(CpuPowerError::SystemError(errno))
        }
    }

    /// The name of the frequency driver, from the text the native library
    /// returned (`None` for a null pointer), copied out before it was released.
    pub fn get_driver(name: Option<Vec<u8>>, errno: i32) -> (r: Result<String>)
        ensures
            name is None ==> r == Err::<String, CpuPowerError>(CpuPowerError::SystemError(errno)),
            name matches Some(b) ==> (valid_utf8(b@) ==> (r matches Ok(s) && s@ == decode_utf8(
                b@,
            ))),
            name matches Some(b) ==> (!valid_utf8(b@) ==> r == Err::<String, CpuPowerError>(
                CpuPowerError::FromUtf8Error,
            )),
    {
        match name {
            None => Err(CpuPowerError::SystemError(errno)),
            Some(bytes) => match utf8_string(bytes) {
                Some(s) => Ok(s),
                None => Err(CpuPowerError::FromUtf8Error),
            },
        }
    }

    /// The policy, from the record the native library returned (`None` for a
    /// null pointer), copied out before it was released.
    pub fn get_policy(record: Option<PolicyRecord>, errno: i32) -> (r: Result<Policy>)
        ensures
            policy_outcome(r) == policy_read(
                match record {
                    Some(rec) => Some(rec@),
                    None => None,
                },
                errno,
            ),
    {
        match record {
            None => Err(CpuPowerError::SystemError(errno)),
            Some(rec) => match rec.governor {
                None => Err(CpuPowerError::SystemError(errno)),
                Some(bytes) => match utf8_string(bytes) {
                    Some(governor) => Ok(Policy { min: rec.min, max: rec.max, governor }),
                    None => Err(CpuPowerError::Utf8Error),
                },
            },
        }
    }

    /// The record to hand to the native call that sets `policy`. A governor
    /// with a terminator byte in it cannot be handed over; the error comes
    /// before any call.
    pub fn set_policy(policy: &Policy) -> (r: Result<PolicyRecord>)
        ensures
            nul_free(encode_utf8(policy.governor@)) ==> (r matches Ok(rec) && rec@ == policy_written(
                policy@,
            )),
            !nul_free(encode_utf8(policy.governor@)) ==> (r matches Err(CpuPowerError::NulError {
                position,
            }) && is_first_nul(encode_utf8(policy.governor@), position as int)),
    {
        let governor = policy.governor.as_str();
        match find_nul(governor.as_bytes()) {
            Some(position) => Err(CpuPowerError::NulError { position }),
            None => {
                let rec = PolicyRecord {
                    min: policy.min,
                    max: policy.max,
                    governor: Some(governor.as_bytes_vec()),
                };
                assert(rec@ == policy_written(policy@));
                Ok(rec)
            },
        }
    }

    /// The governors this cpu can use.
    pub fn get_available_governors(&self) -> (r: Extraction<AvailableGovernors>)
        ensures
            r.cpu() == self@,
    {
        AvailableGovernors::extract(self.id)
    }

    /// The frequencies this cpu can run at.
    pub fn get_available_frequencies(&self) -> (r: Extraction<AvailableFrequencies>)
        ensures
            r.cpu() == self@,
    {
        AvailableFrequencies::extract(self.id)
    }

    /// The cpus whose frequency must be set together with this one's.
    pub fn get_affected_cpus(&self) -> (r: Extraction<AffectedCpus>)
        ensures
            r.cpu() == self@,
    {
        AffectedCpus::extract(self.id)
    }

    /// The cpus that share frequency hardware with this one.
    pub fn get_related_cpus(&self) -> (r: Extraction<RelatedCpus>)
        ensures
            r.cpu() == self@,
    {
        RelatedCpus::extract(self.id)
    }

    /// The time this cpu has spent at each frequency.
    pub fn get_stats(&self) -> (r: Extraction<Stats>)
        ensures
            r.cpu() == self@,
    {
        Stats::extract(self.id)
    }

    /// The number of frequency transitions, from the native count and the
    /// error register, which is cleared right before the call: a count of 0
    /// is a failure only where the call set the register.
    pub fn get_transitions(count: u64, errno: i32) -> (r: Result<u64>)
        ensures
            r == transitions_result(count, errno),
    {
        if count == 0 && errno != 0 {
            Err(CpuPowerError::SystemError(errno))
        } else {
            Ok(count)
        }
    }

    /// The text form of this cpu, with its frequency as read.
    pub fn to_string(&self, frequency: &Result<Frequency>) -> (r: String)
        ensures
            r@ == cpu_text(self@, *frequency),
    {
        let mut out = String::new();
        out.append("Cpu{id: ");
        push_decimal(&mut out, self.id as u64);
        out.append(", frequency: ");
        match frequency {
            Ok(f) => push_decimal(&mut out, *f),
            Err(_) => out.append("Unknown"),
        }
        out.append("}");
        assert(out@ =~= cpu_text(self@, *frequency));
        out
    }
}

/// Where an enumeration of the cpus stands: the next id to probe, and whether
/// it has ended.
pub struct IteratorView {
    pub next: CpuId,
    pub done: bool,
}

/// One step of an enumeration that is not over: the probe of its next id
/// answered `present`. It yields that cpu where it exists, and ends at the
/// first id that does not, or after the largest id.
pub open spec fn iterator_step(it: IteratorView, present: bool) -> (IteratorView, Option<CpuId>) {
    if !present {
        (IteratorView { next: it.next, done: true }, None)
    } else if it.next == CpuId::MAX {
        (IteratorView { next: it.next, done: true }, Some(it.next))
    } else {
        (IteratorView { next: (it.next + 1) as CpuId, done: false }, Some(it.next))
    }
}

/// How many steps an enumeration can still take.
pub open spec fn iterator_steps_left(it: IteratorView) -> nat {
    if it.done {
        0
    } else {
        (CpuId::MAX - it.next + 1) as nat
    }
}

/// The ids an enumeration yields from where it stands, where `present` answers
/// each probe.
pub open spec fn enumeration(present: spec_fn(CpuId) -> bool, it: IteratorView) -> Seq<CpuId>
    decreases iterator_steps_left(it),
{
    if it.done {
        seq![]
    } else {
        let (next, out) = iterator_step(it, present(it.next));
        match out {
            Some(id) => seq![id] + enumeration(present, next),
            None => seq![],
        }
    }
}

/// An enumeration of the cpus of the system, probing ids 0, 1, 2, ... and
/// stopping at the first id that does not exist. An id after a gap is not
/// reached: a system with sparse ids is listed up to its first gap.
pub struct Iterator {
    next_id: CpuId,
    done: bool,
}

impl View for Iterator {
    type V = IteratorView;

    closed spec fn view(&self) -> IteratorView {
        IteratorView { next: self.next_id, done: self.done }
    }
}

impl Iterator {
    /// The id whose existence to check next, or `None` once the enumeration
    /// has ended.
    pub fn probe(&self) -> (r: Option<CpuId>)
        ensures
            self@.done ==> r is None,
            !self@.done ==> r == Some(self@.next),
    {
        if self.done {
            None
        } else {
            Some(self.next_id)
        }
    }

    /// Takes the answer to the probe of the next id: the cpu where it exists,
    /// `None` where it does not or where the enumeration has already ended.
    pub fn next(&mut self, present: bool) -> (r: Option<Cpu>)
        ensures
            old(self)@.done ==> r is None && final(self)@ == old(self)@,
            !old(self)@.done ==> final(self)@ == iterator_step(old(self)@, present).0 && match r {
                Some(c) => iterator_step(old(self)@, present).1 == Some(c@),
                None => iterator_step(old(self)@, present).1 is None,
            },
    {
        if self.done {
            return None;
        }
        let current = self.next_id;
        if !present {
            self.done = true;
            None
        } else {
            if current == CpuId::MAX {
                self.done = true;
            } else {
                self.next_id = current + 1;
            }
            Some(Cpu::new(current))
        }
    }
}

proof fn lemma_enumeration_from(present: spec_fn(CpuId) -> bool, it: IteratorView)
    requires
        !it.done,
    ensures
        ({
            let ids = enumeration(present, it);
            &&& ids.len() <= CpuId::MAX - it.next + 1
            &&& forall|i: int|
                0 <= i < ids.len() ==> #[trigger] ids[i] == it.next + i && present(ids[i])
            &&& it.next + ids.len() <= CpuId::MAX ==> !present((it.next + ids.len()) as CpuId)
        }),
    decreases iterator_steps_left(it),
{
    let ids = enumeration(present, it);
    let (next, out) = iterator_step(it, present(it.next));
    if present(it.next) && it.next < CpuId::MAX {
        lemma_enumeration_from(present, next);
        let rest = enumeration(present, next);
        assert(ids == seq![it.next] + rest);
        assert forall|i: int| 0 <= i < ids.len() implies #[trigger] ids[i] == it.next + i && present(
            ids[i],
        ) by {
            if i > 0 {
                assert(ids[i] == rest[i - 1]);
            }
        }
    } else if present(it.next) {
        assert(enumeration(present, next) == Seq::<CpuId>::empty());
        assert(ids =~= seq![it.next]);
    }
}

/// `get_all` yields the cpus 0, 1, 2, ... in order, each of which exists, up
/// to the first id that does not exist; it yields none at or after that id.
pub proof fn lemma_get_all_prefix(present: spec_fn(CpuId) -> bool)
    ensures
        ({
            let ids = enumeration(present, IteratorView { next: 0, done: false });
            &&& forall|i: int| 0 <= i < ids.len() ==> #[trigger] ids[i] == i && present(ids[i])
            &&& ids.len() <= CpuId::MAX ==> !present(ids.len() as CpuId)
            &&& forall|id: CpuId| ids.contains(id) <==> id < ids.len()
        }),
{
    let it = IteratorView { next: 0, done: false };
    lemma_enumeration_from(present, it);
    let ids = enumeration(present, it);
    assert forall|id: CpuId| ids.contains(id) <==> id < ids.len() by {
        if id < ids.len() {
            assert(ids[id as int] == id);
        }
    }
}

/// Setting a policy whose governor holds no terminator byte, then reading it
/// back from a native library that returns the record it was given, gives the
/// same policy.
pub proof fn lemma_policy_round_trip(p: PolicyView, errno: i32)
    requires
        nul_free(encode_utf8(p.governor)),
    ensures
        policy_read(Some(policy_written(p)), errno) == Ok::<PolicyView, CpuPowerError>(p),
{
    encode_utf8_valid_utf8(p.governor);
    encode_utf8_decode_utf8(p.governor);
}

} // verus!
