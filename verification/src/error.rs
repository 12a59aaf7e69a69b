//! What can go wrong, and the coarse class each failure falls under.

use crate::text::{decimal, decimal_digits, signed_decimal, signed_decimal_digits};
use vstd::prelude::*;
use vstd::string::*;

verus! {

/// The coarse classes of failure that callers tell apart.
#[derive(Clone, Copy, Debug, PartialEq, Eq, Structural)]
pub enum ErrorKind {
    /// A source file or a service is missing.
    NotFound,
    /// A document or a binary table fails structural validation.
    MalformedInput,
    /// The request asks for what policy forbids.
    PolicyViolation,
    /// A device or a set of partitions is not in the state the operation needs.
    ResourceStateError,
    /// An offset or a count does not fit its type.
    ArithmeticOverflow,
    /// Reading, writing or seeking failed.
    IoFailure,
}

/// A failure while the payload of a virtual machine is resolved and laid out.
#[derive(Clone, Debug, PartialEq, Eq)]
pub enum PayloadError {
    /// The modification time of the staged image at this path cannot be read.
    FilesystemError(String),
    /// The module of this name is preinstalled outside the trusted partitions.
    UntrustedModule(String),
    /// Staged modules were asked for while the host is in early boot.
    StagedNotAllowed,
    /// The number of extra packages differs from the number of extra
    /// signatures.
    ManifestMismatch { apks: usize, idsigs: usize },
    /// More extra packages than the metadata record can count.
    CountOverflow,
    /// In early boot the preinstalled image at this path is not a plain
    /// `.apex` file.
    CompressedApex(String),
    /// The debug level with this number is neither "none" nor "full".
    UnsupportedDebugLevel(i32),
}

/// What a [`PayloadError`] holds, as plain values.
pub enum PayloadErrorView {
    FilesystemError(Seq<char>),
    UntrustedModule(Seq<char>),
    StagedNotAllowed,
    ManifestMismatch { apks: usize, idsigs: usize },
    CountOverflow,
    CompressedApex(Seq<char>),
    UnsupportedDebugLevel(i32),
}

impl View for PayloadError {
    type V = PayloadErrorView;

    open spec fn view(&self) -> PayloadErrorView {
        match self {
            PayloadError::FilesystemError(path) => PayloadErrorView::FilesystemError(path@),
            PayloadError::UntrustedModule(name) => PayloadErrorView::UntrustedModule(name@),
            PayloadError::StagedNotAllowed => PayloadErrorView::StagedNotAllowed,
            PayloadError::ManifestMismatch { apks, idsigs } => PayloadErrorView::ManifestMismatch {
                apks: *apks,
                idsigs: *idsigs,
            },
            PayloadError::CountOverflow => PayloadErrorView::CountOverflow,
            PayloadError::CompressedApex(path) => PayloadErrorView::CompressedApex(path@),
            PayloadError::UnsupportedDebugLevel(level) => PayloadErrorView::UnsupportedDebugLevel(
                *level,
            ),
        }
    }
}

impl PayloadError {
    pub open spec fn spec_kind(&self) -> ErrorKind {
        match self {
            PayloadError::FilesystemError(_) => ErrorKind::IoFailure,
            PayloadError::UntrustedModule(_) => ErrorKind::PolicyViolation,
            PayloadError::StagedNotAllowed => ErrorKind::PolicyViolation,
            PayloadError::ManifestMismatch { .. } => ErrorKind::ResourceStateError,
            PayloadError::CountOverflow => ErrorKind::ArithmeticOverflow,
            PayloadError::CompressedApex(_) => ErrorKind::MalformedInput,
            PayloadError::UnsupportedDebugLevel(_) => ErrorKind::PolicyViolation,
        }
    }

    /// The class this failure falls under.
    #[verifier::when_used_as_spec(spec_kind)]
    pub fn kind(&self) -> (k: ErrorKind)
        ensures
            k == self.spec_kind(),
    {
        match self {
            PayloadError::FilesystemError(_) => ErrorKind::IoFailure,
            PayloadError::UntrustedModule(_) => ErrorKind::PolicyViolation,
            PayloadError::StagedNotAllowed => ErrorKind::PolicyViolation,
            PayloadError::ManifestMismatch { .. } => ErrorKind::ResourceStateError,
            PayloadError::CountOverflow => ErrorKind::ArithmeticOverflow,
            PayloadError::CompressedApex(_) => ErrorKind::MalformedInput,
            PayloadError::UnsupportedDebugLevel(_) => ErrorKind::PolicyViolation,
        }
    }
}

/// What a failure says of itself.
pub open spec fn message_text(e: PayloadErrorView) -> Seq<char> {
    match e {
        PayloadErrorView::FilesystemError(path) => "Failed to read the modification time of "@
            + path,
        PayloadErrorView::UntrustedModule(name) => "Non-system APEX "@ + name
            + " is not supported in Microdroid"@,
        PayloadErrorView::StagedNotAllowed => "Can't turn on prefer_staged on early boot VMs"@,
        PayloadErrorView::ManifestMismatch { apks, idsigs } => "payload config has "@
            + decimal_digits(apks as nat) + " apks, but app config has "@ + decimal_digits(
            idsigs as nat,
        ) + " idsigs"@,
        PayloadErrorView::CountOverflow => "out of range integral type conversion attempted"@,
        PayloadErrorView::CompressedApex(path) => "compressed APEX "@ + path + " not supported"@,
        PayloadErrorView::UnsupportedDebugLevel(level) => "unsupported debug level: "@
            + signed_decimal_digits(level as int),
    }
}

impl PayloadError {
    /// What the failure says of itself.
    pub fn message(&self) -> (text: String)
        ensures
            text@ == message_text(self@),
    {
        match self {
            PayloadError::FilesystemError(path) => String::from_str(
                "Failed to read the modification time of ",
            ).concat(path.as_str()),
            PayloadError::UntrustedModule(name) => String::from_str("Non-system APEX ").concat(
                name.as_str(),
            ).concat(" is not supported in Microdroid"),
            PayloadError::StagedNotAllowed => String::from_str(
                "Can't turn on prefer_staged on early boot VMs",
            ),
            PayloadError::ManifestMismatch { apks, idsigs } => String::from_str(
                "payload config has ",
            ).concat(decimal(*apks as u64).as_str()).concat(" apks, but app config has ").concat(
                decimal(*idsigs as u64).as_str(),
            ).concat(" idsigs"),
            PayloadError::CountOverflow => String::from_str(
                "out of range integral type conversion attempted",
            ),
            PayloadError::CompressedApex(path) => String::from_str("compressed APEX ").concat(
                path.as_str(),
            ).concat(" not supported"),
            PayloadError::UnsupportedDebugLevel(level) => String::from_str(
                "unsupported debug level: ",
            ).concat(signed_decimal(*level).as_str()),
        }
    }
}

} // verus!
