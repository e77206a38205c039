use vstd::prelude::*;

verus! {

/// The class of a per-file failure, as reported to the caller.
#[derive(Clone, Copy, PartialEq, Eq, Structural, Debug)]
pub enum ErrorKind {
    /// The path does not carry a `.jpg`/`.jpeg` extension.
    UnsupportedFormat,
    /// The codec could not decode or encode the image.
    CodecError,
    /// Reading the source or writing the output failed.
    IoError,
}

/// What one discovered path came to: exactly one of these is produced per
/// job, and a failure never touches any other job.
#[derive(Clone, PartialEq, Debug)]
pub enum JobOutcome {
    /// The file was re-encoded; `ratio_percent` is the output size as a
    /// percentage of the original size, rounded to the nearest percent.
    Compressed { file_name: String, ratio_percent: u64 },
    /// The file was discovered but could not be processed.
    Failed { file_name: String, error_kind: ErrorKind, message: String },
}

/// The mathematical value of a job outcome.
pub enum SpecOutcome {
    Compressed { file_name: Seq<char>, ratio_percent: int },
    Failed { file_name: Seq<char>, error_kind: ErrorKind, message: Seq<char> },
}

impl View for JobOutcome {
    type V = SpecOutcome;

    open spec fn view(&self) -> SpecOutcome {
        match self {
            JobOutcome::Compressed { file_name, ratio_percent } => SpecOutcome::Compressed {
                file_name: file_name@,
                ratio_percent: *ratio_percent as int,
            },
            JobOutcome::Failed { file_name, error_kind, message } => SpecOutcome::Failed {
                file_name: file_name@,
                error_kind: *error_kind,
                message: message@,
            },
        }
    }
}

} // verus!
