use vstd::prelude::*;

use crate::text::{decimal, push_decimal, push_signed_decimal, signed_decimal};
use crate::types::{CpuId, Frequency};

verus! {

/// Every way an operation of this crate can fail.
#[derive(Debug, PartialEq, Eq)]
pub enum CpuPowerError {
    /// A failure with no known cause.
    Unknown,
    /// No processor with this id; for callers that check ids before use.
    CpuNotFound { id: CpuId },
    /// The native library failed; the value of the error register (errno).
    SystemError(i32),
    /// A frequency change was not applied.
    FrequencyNotSet { id: CpuId, requested: Frequency, actual: Frequency, errno: i32 },
    /// Reading the policy of a cpu failed, for the reason in `parent`.
    CantGetPolicy { id: CpuId, parent: Box<CpuPowerError> },
    /// Setting the policy of a cpu failed, for the reason in `parent`.
    CantSetPolicy { id: CpuId, parent: Box<CpuPowerError> },
    /// Text borrowed from the native library is not valid UTF-8.
    Utf8Error,
    /// Text copied out of the native library is not valid UTF-8.
    FromUtf8Error,
    /// Text handed to the native library holds a terminator byte at `position`.
    NulError { position: usize },
}

/// The human-readable message of an error, with the message of its cause after
/// the context of a wrapping error.
pub open spec fn message(e: CpuPowerError) -> Seq<char>
    decreases e,
{
    match e {
        CpuPowerError::Unknown => "Unknown error"@,
        CpuPowerError::CpuNotFound { id } => "Cpu "@ + decimal(id as nat) + " not found"@,
        CpuPowerError::SystemError(code) => "System error: errno "@ + signed_decimal(code as int),
        CpuPowerError::FrequencyNotSet { id, requested, actual, errno } => "Frequency wasn't set for cpu: "@
            + decimal(id as nat) + ". Requested: "@ + decimal(requested as nat) + ". Actual: "@
            + decimal(actual as nat) + ". Errno: "@ + signed_decimal(errno as int),
        CpuPowerError::CantGetPolicy { id, parent } => "Can't get policy for cpu: "@ + decimal(
            id as nat,
        ) + ". "@ + message(*parent),
        CpuPowerError::CantSetPolicy { id, parent } => "Can't set policy for cpu: "@ + decimal(
            id as nat,
        ) + ". "@ + message(*parent),
        CpuPowerError::Utf8Error => "UTF-8 conversion error: invalid UTF-8 text"@,
        CpuPowerError::FromUtf8Error => "UTF-8 conversion error: invalid UTF-8 text"@,
        CpuPowerError::NulError { position } => "Null pointer passed: nul byte found in provided data at position: "@
            + decimal(position as nat),
    }
}

/// A short description of the kind of an error.
pub open spec fn description(e: CpuPowerError) -> Seq<char> {
    match e {
        CpuPowerError::Unknown => "Unknown error occured"@,
        CpuPowerError::CpuNotFound { .. } => "Cpu with that id not found"@,
        CpuPowerError::SystemError(_) => "System error represented by errno value"@,
        CpuPowerError::FrequencyNotSet { .. } => "Frequency wasn't set"@,
        CpuPowerError::CantGetPolicy { .. } => "Can't get policy"@,
        CpuPowerError::CantSetPolicy { .. } => "Can't set policy"@,
        CpuPowerError::Utf8Error => "invalid utf-8: corrupt contents"@,
        CpuPowerError::FromUtf8Error => "invalid utf-8: corrupt contents"@,
        CpuPowerError::NulError { .. } => "nul byte found in data"@,
    }
}

impl CpuPowerError {
    /// Appends the message of this error to `out`.
    pub fn push_message(&self, out: &mut String)
        ensures
            final(out)@ == old(out)@ + message(*self),
        decreases self,
    {
        match self {
            CpuPowerError::Unknown => out.append("Unknown error"),
            CpuPowerError::CpuNotFound { id } => {
                out.append("Cpu ");
                push_decimal(out, *id as u64);
                out.append(" not found");
            },
            CpuPowerError::SystemError(code) => {
                out.append("System error: errno ");
                push_signed_decimal(out, *code);
            },
            CpuPowerError::FrequencyNotSet { id, requested, actual, errno } => {
                out.append("Frequency wasn't set for cpu: ");
                push_decimal(out, *id as u64);
                out.append(". Requested: ");
                push_decimal(out, *requested);
                out.append(". Actual: ");
                push_decimal(out, *actual);
                out.append(". Errno: ");
                push_signed_decimal(out, *errno);
            },
            CpuPowerError::CantGetPolicy { id, parent } => {
                out.append("Can't get policy for cpu: ");
                push_decimal(out, *id as u64);
                out.append(". ");
                parent.push_message(out);
            },
            CpuPowerError::CantSetPolicy { id, parent } => {
                out.append("Can't set policy for cpu: ");
                push_decimal(out, *id as u64);
                out.append(". ");
                parent.push_message(out);
            },
            CpuPowerError::Utf8Error => out.append("UTF-8 conversion error: invalid UTF-8 text"),
            CpuPowerError::FromUtf8Error => out.append(
                "UTF-8 conversion error: invalid UTF-8 text",
            ),
            CpuPowerError::NulError { position } => {
                out.append("Null pointer passed: nul byte found in provided data at position: ");
                push_decimal(out, *position as u64);
            },
        }
        assert(final(out)@ =~= old(out)@ + message(*self));
    }

    /// The human-readable message of this error.
    pub fn to_string(&self) -> (r: String)
        ensures
            r@ == message(*self),
    {
        let mut out = String::new();
        self.push_message(&mut out);
        assert(out@ =~= message(*self));
        out
    }

    /// A short description of the kind of this error.
    pub fn description(&self) -> (r: &'static str)
        ensures
            r@ == description(*self),
    {
        match self {
            CpuPowerError::Unknown => "Unknown error occured",
            CpuPowerError::CpuNotFound { .. } => "Cpu with that id not found",
            CpuPowerError::SystemError(_) => "System error represented by errno value",
            CpuPowerError::FrequencyNotSet { .. } => "Frequency wasn't set",
            CpuPowerError::CantGetPolicy { .. } => "Can't get policy",
            CpuPowerError::CantSetPolicy { .. } => "Can't set policy",
            CpuPowerError::Utf8Error => "invalid utf-8: corrupt contents",
            CpuPowerError::FromUtf8Error => "invalid utf-8: corrupt contents",
            CpuPowerError::NulError { .. } => "nul byte found in data",
        }
    }

    /// The error that this one wraps, if it wraps one.
    pub fn cause(&self) -> (r: Option<&CpuPowerError>)
        ensures
            r is Some <==> (self is CantGetPolicy || self is CantSetPolicy),
            self matches CpuPowerError::CantGetPolicy { parent, .. } ==> r matches Some(p) && *p == **parent,
            self matches CpuPowerError::CantSetPolicy { parent, .. } ==> r matches Some(p) && *p == **parent,
    {
        match self {
            CpuPowerError::CantGetPolicy { parent, .. } => Some(&**parent),
            CpuPowerError::CantSetPolicy { parent, .. } => Some(&**parent),
            _ => None,
        }
    }
}

} // verus!
