use vstd::prelude::*;

use crate::text::{decimal, decimal_text};

verus! {

/// Errors of protocol message validation.
#[derive(Debug, PartialEq, Eq)]
pub enum ProtoError {
    /// A required field is missing or empty.
    MissingField(&'static str),
    /// A field holds a value out of range.
    InvalidValue {
        /// Name of the offending field.
        field: &'static str,
        /// Why the value is refused.
        reason: String,
    },
    /// The peer needs a newer protocol than this build speaks.
    IncompatibleVersion {
        /// Oldest version the peer accepts.
        required: u32,
        /// Newest version this build speaks.
        supported: u32,
    },
}

/// `r` failed because the field named `name` is missing.
pub open spec fn is_missing_field<T>(r: Result<T, ProtoError>, name: Seq<char>) -> bool {
    r matches Err(ProtoError::MissingField(f)) && f@ == name
}

/// `r` failed because field `field` holds a refused value, for `reason`.
pub open spec fn is_invalid_value<T>(r: Result<T, ProtoError>, field: Seq<char>, reason: Seq<char>) -> bool {
    r matches Err(ProtoError::InvalidValue { field: f, reason: m }) && f@ == field && m@ == reason
}

/// `r` failed on a protocol version mismatch.
pub open spec fn is_incompatible<T>(r: Result<T, ProtoError>, required: u32, supported: u32) -> bool {
    r == Err::<T, ProtoError>(ProtoError::IncompatibleVersion { required, supported })
}

/// The description of a validation error.
pub open spec fn proto_error_text(e: ProtoError) -> Seq<char> {
    match e {
        ProtoError::MissingField(f) => "Missing required field: "@ + f@,
        ProtoError::InvalidValue { field, reason } => "Invalid field '"@ + field@ + "': "@ + reason@,
        ProtoError::IncompatibleVersion { required, supported } => "Incompatible protocol version: peer requires "@
            + decimal(required as nat) + ", supported is "@ + decimal(supported as nat),
    }
}

impl ProtoError {
    /// Human-readable description of the error.
    pub fn message(&self) -> (s: String)
        ensures
            s@ == proto_error_text(*self),
    {
        match self {
            ProtoError::MissingField(f) => {
                let mut s = String::from_str("Missing required field: ");
                s.append(f);
                s
            },
            ProtoError::InvalidValue { field, reason } => {
                let mut s = String::from_str("Invalid field '");
                s.append(field);
                s.append("': ");
                s.append(reason.as_str());
                s
            },
            ProtoError::IncompatibleVersion { required, supported } => {
                let mut s = String::from_str("Incompatible protocol version: peer requires ");
                let r = decimal_text(*required as u64);
                s.append(r.as_str());
                s.append(", supported is ");
                let v = decimal_text(*supported as u64);
                s.append(v.as_str());
                s
            },
        }
    }
}

} // verus!
