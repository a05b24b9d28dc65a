//! The kernel's error taxonomy: one kind per failing initialization step,
//! each carrying a human-readable message. During boot every such error is
//! fatal — the shell turns it into a panic.

use vstd::prelude::*;

verus! {

/// Which initialization step failed.
#[derive(Debug)]
pub enum SalmiakErrorKind {
    InitCPUError(String),
    InitGPUError(String),
    InitSerialError(String),
}

/// An error of the kernel core, wrapping its kind.
#[derive(Debug)]
pub struct SalmiakError {
    kind: SalmiakErrorKind,
}

/// The message carried by an error kind.
pub open spec fn spec_error_message(k: SalmiakErrorKind) -> Seq<char> {
    match k {
        SalmiakErrorKind::InitCPUError(m) => m@,
        SalmiakErrorKind::InitGPUError(m) => m@,
        SalmiakErrorKind::InitSerialError(m) => m@,
    }
}

impl SalmiakError {
    /// The wrapped kind, as a spec-level value.
    pub closed spec fn spec_kind(&self) -> SalmiakErrorKind {
        self.kind
    }

    pub fn kind(&self) -> (k: &SalmiakErrorKind)
        ensures
            *k == self.spec_kind(),
    {
        &self.kind
    }

    /// The human-readable message, for the shell's panic path to print.
    pub fn message(&self) -> (m: &String)
        ensures
            m@ == spec_error_message(self.spec_kind()),
    {
        match &self.kind {
            SalmiakErrorKind::InitCPUError(m) => m,
            SalmiakErrorKind::InitGPUError(m) => m,
            SalmiakErrorKind::InitSerialError(m) => m,
        }
    }
}

impl From<SalmiakErrorKind> for SalmiakError {
    fn from(kind: SalmiakErrorKind) -> (e: SalmiakError)
        ensures
            e.spec_kind() == kind,
    {
        SalmiakError { kind }
    }
}

impl vstd::std_specs::convert::FromSpecImpl<SalmiakErrorKind> for SalmiakError {
    open spec fn obeys_from_spec() -> bool {
        true
    }

    closed spec fn from_spec(kind: SalmiakErrorKind) -> SalmiakError {
        SalmiakError { kind }
    }
}

} // verus!
