//! The discriminated outcome of one materialization attempt, and the
//! diagnostic text each failure carries.

use vstd::prelude::*;
use vstd::string::*;
use crate::decimal::{append_decimal, spec_decimal};

verus! {

/// Diagnostic payload of an I/O failure: the operation that failed, the name
/// of the underlying error kind, and the operating-system error code when one
/// is known.
pub struct IoDetail {
    pub operation: String,
    pub kind_name: String,
    pub os_code: Option<i32>,
}

/// Mathematical image of an [`IoDetail`].
pub struct IoDetailView {
    pub operation: Seq<char>,
    pub kind_name: Seq<char>,
    pub os_code: Option<int>,
}

impl View for IoDetail {
    type V = IoDetailView;

    open spec fn view(&self) -> IoDetailView {
        IoDetailView {
            operation: self.operation@,
            kind_name: self.kind_name@,
            os_code: match self.os_code {
                Option::Some(c) => Option::Some(c as int),
                Option::None => Option::None,
            },
        }
    }
}

/// What a single materialization attempt produced.  Exactly one outcome per
/// attempt; never partially successful.  `SymlinkIsAmbiguous` is the one
/// recoverable class: everything else is terminal for the attempt.
pub enum MaterializationOutcome {
    Success,
    TargetMissing,
    SymlinkIsDirectory,
    SymlinkIsAmbiguous,
    IOFailure(IoDetail),
}

/// Mathematical image of a [`MaterializationOutcome`].
pub enum OutcomeView {
    Success,
    TargetMissing,
    SymlinkIsDirectory,
    SymlinkIsAmbiguous,
    IOFailure(IoDetailView),
}

impl View for MaterializationOutcome {
    type V = OutcomeView;

    open spec fn view(&self) -> OutcomeView {
        match self {
            MaterializationOutcome::Success => OutcomeView::Success,
            MaterializationOutcome::TargetMissing => OutcomeView::TargetMissing,
            MaterializationOutcome::SymlinkIsDirectory => OutcomeView::SymlinkIsDirectory,
            MaterializationOutcome::SymlinkIsAmbiguous => OutcomeView::SymlinkIsAmbiguous,
            MaterializationOutcome::IOFailure(d) => OutcomeView::IOFailure(d@),
        }
    }
}

/// The diagnostic line for an I/O failure: the failed operation, the error
/// kind, and the OS error code when one is attached.
pub open spec fn spec_io_message(d: IoDetailView) -> Seq<char> {
    let base = "IO error: "@ + d.operation + ": "@ + d.kind_name;
    match d.os_code {
        Option::Some(c) => base + " (OS error: "@ + spec_decimal(c) + ")"@,
        Option::None => base,
    }
}

/// The diagnostic line for each failing outcome; `Success` carries none.
pub open spec fn spec_error_message(o: OutcomeView) -> Option<Seq<char>> {
    match o {
        OutcomeView::Success => Option::None,
        OutcomeView::TargetMissing => Option::Some("Target file not exists"@),
        OutcomeView::SymlinkIsDirectory => Option::Some("Symlink path is a directory"@),
        OutcomeView::SymlinkIsAmbiguous => Option::Some(
            "Symlink path is not either directory or symbolic link"@,
        ),
        OutcomeView::IOFailure(d) => Option::Some(spec_io_message(d)),
    }
}

/// Renders the diagnostic line of an I/O failure.
pub fn io_message(d: &IoDetail) -> (s: String)
    ensures
        s@ == spec_io_message(d@),
{
    let mut s = String::from_str("IO error: ");
    s.append(d.operation.as_str());
    s.append(": ");
    s.append(d.kind_name.as_str());
    match d.os_code {
        Option::Some(c) => {
            s.append(" (OS error: ");
            append_decimal(&mut s, c);
            s.append(")");
        },
        Option::None => {},
    }
    s
}

impl MaterializationOutcome {
    /// The error notice for this outcome, or `None` when the attempt
    /// succeeded and there is nothing to report.
    pub fn error_message(&self) -> (r: Option<String>)
        ensures
            match r {
                Option::None => spec_error_message(self@) is None,
                Option::Some(s) => spec_error_message(self@) == Option::Some(s@),
            },
    {
        match self {
            MaterializationOutcome::Success => Option::None,
            MaterializationOutcome::TargetMissing => Option::Some(
                String::from_str("Target file not exists"),
            ),
            MaterializationOutcome::SymlinkIsDirectory => Option::Some(
                String::from_str("Symlink path is a directory"),
            ),
            MaterializationOutcome::SymlinkIsAmbiguous => Option::Some(
                String::from_str("Symlink path is not either directory or symbolic link"),
            ),
            MaterializationOutcome::IOFailure(d) => Option::Some(io_message(d)),
        }
    }
}

} // verus!
