//! The error taxonomy of the volume driver.
//!
//! Every failure a lifecycle operation can report is one of these variants.
//! The protocol layer turns a `VolumeError` into the uniform failure envelope
//! by way of [`VolumeError::message`].

use vstd::prelude::*;
use vstd::string::StringExecFns;

verus! {

/// Mathematical model of a [`VolumeError`]: the same variants over
/// character sequences.
#[verifier::ext_equal]
pub enum ErrModel {
    /// An option key outside the recognized set; carries the offending key.
    NoOption(Seq<char>),
    /// Validation failed on create; carries the diagnostic text.
    InvalidOptions(Seq<char>),
    /// The named volume is not in the registry.
    NotFound,
    /// An operation at the OS level failed; carries the OS error text.
    FailedIO(Seq<char>),
    /// The external mount tool exited non-zero; carries its diagnostics.
    FailedMount(Seq<char>),
}

/// An error reported by a volume lifecycle operation.
#[derive(Debug)]
pub enum VolumeError {
    NoOption(String),
    InvalidOptions(String),
    NotFound,
    FailedIO(String),
    FailedMount(String),
}

impl View for VolumeError {
    type V = ErrModel;

    open spec fn view(&self) -> ErrModel {
        match self {
            VolumeError::NoOption(k) => ErrModel::NoOption(k@),
            VolumeError::InvalidOptions(m) => ErrModel::InvalidOptions(m@),
            VolumeError::NotFound => ErrModel::NotFound,
            VolumeError::FailedIO(m) => ErrModel::FailedIO(m@),
            VolumeError::FailedMount(m) => ErrModel::FailedMount(m@),
        }
    }
}

/// The single-line diagnostic text of an error model.
pub open spec fn message_of(e: ErrModel) -> Seq<char> {
    match e {
        ErrModel::NoOption(k) => "unrecognized option: "@ + k,
        ErrModel::InvalidOptions(m) => "invalid options: "@ + m,
        ErrModel::NotFound => "volume not found"@,
        ErrModel::FailedIO(m) => "io error: "@ + m,
        ErrModel::FailedMount(m) => "failed to mount: "@ + m,
    }
}

impl VolumeError {
    /// The single-line diagnostic string sent back in the protocol's
    /// failure envelope.
    pub fn message(&self) -> (r: String)
        ensures
            r@ == message_of(self@),
    {
        match self {
            VolumeError::NoOption(k) => {
                let mut m = String::from_str("unrecognized option: ");
                m.append(k.as_str());
                m
            },
            VolumeError::InvalidOptions(t) => {
                let mut m = String::from_str("invalid options: ");
                m.append(t.as_str());
                m
            },
            VolumeError::NotFound => String::from_str("volume not found"),
            VolumeError::FailedIO(t) => {
                let mut m = String::from_str("io error: ");
                m.append(t.as_str());
                m
            },
            VolumeError::FailedMount(t) => {
                let mut m = String::from_str("failed to mount: ");
                m.append(t.as_str());
                m
            },
        }
    }
}

} // verus!
