//! Model of the RAW decoder resource: the fixed init → open → unpack →
//! process sequence, with a distinguishable error for each step, and the
//! export of the processed image. The unverified shell owns the foreign
//! decoder handle; it reports each step's outcome to this model, which
//! decides how the decode proceeds and which error is raised.

use vstd::prelude::*;
use vstd::string::*;

verus! {

/// Decoder-related errors, one per fallible step of the decode lifecycle.
pub enum Error {
    InitNullPointer,
    FailedToOpen(String),
    FailedToUnpack(String),
    FailedToProcess(String),
    FailedToSaveTiff(String),
}

impl Error {
    /// The human-readable description of the error, naming the failing
    /// step and the file concerned.
    pub fn message(&self) -> (r: String)
        ensures
            r@ == match self {
                Error::InitNullPointer => "libraw_init returned a null pointer"@,
                Error::FailedToOpen(p) => "libraw failed to open file "@ + p@,
                Error::FailedToUnpack(p) => "libraw failed to unpack file "@ + p@,
                Error::FailedToProcess(p) => "libraw failed to process file "@ + p@,
                Error::FailedToSaveTiff(p) => "libraw failed to save TIFF to "@ + p@,
            },
    {
        match self {
            Error::InitNullPointer => {
                let r = String::from_str("libraw_init returned a null pointer");
                r
            },
            Error::FailedToOpen(p) => {
                let mut r = String::from_str("libraw failed to open file ");
                r.append(p.as_str());
                r
            },
            Error::FailedToUnpack(p) => {
                let mut r = String::from_str("libraw failed to unpack file ");
                r.append(p.as_str());
                r
            },
            Error::FailedToProcess(p) => {
                let mut r = String::from_str("libraw failed to process file ");
                r.append(p.as_str());
                r
            },
            Error::FailedToSaveTiff(p) => {
                let mut r = String::from_str("libraw failed to save TIFF to ");
                r.append(p.as_str());
                r
            },
        }
    }
}

/// The step the decoder performs next; `Ready` means the image is fully
/// developed and can be exported.
#[derive(PartialEq, Eq, Structural, Clone, Copy, Debug)]
pub enum DecodeStep {
    Init,
    Open,
    Unpack,
    Process,
    Ready,
}

/// The step after `step` in the fixed decode order.
pub open spec fn next_step(step: DecodeStep) -> DecodeStep {
    match step {
        DecodeStep::Init => DecodeStep::Open,
        DecodeStep::Open => DecodeStep::Unpack,
        DecodeStep::Unpack => DecodeStep::Process,
        DecodeStep::Process => DecodeStep::Ready,
        DecodeStep::Ready => DecodeStep::Ready,
    }
}

/// Whether `e` is the error that a failure of `step` on `filename` raises.
pub open spec fn is_step_error(e: Error, step: DecodeStep, filename: Seq<char>) -> bool {
    match step {
        DecodeStep::Init => e is InitNullPointer,
        DecodeStep::Open => e matches Error::FailedToOpen(p) && p@ == filename,
        DecodeStep::Unpack => e matches Error::FailedToUnpack(p) && p@ == filename,
        DecodeStep::Process => e matches Error::FailedToProcess(p) && p@ == filename,
        DecodeStep::Ready => false,
    }
}

/// An image being decoded from a RAW file: the file it came from and how
/// far the decode has progressed.
pub struct RawImage {
    pub filename: String,
    pub step: DecodeStep,
}

impl RawImage {
    /// Begin decoding the named file; no step has run yet.
    pub fn new(filename: &str) -> (r: RawImage)
        ensures
            r.filename@ == filename@,
            r.step == DecodeStep::Init,
    {
        RawImage { filename: filename.to_owned(), step: DecodeStep::Init }
    }

    /// The step the decoder performs next.
    pub fn step(&self) -> (r: DecodeStep)
        ensures
            r == self.step,
    {
        self.step
    }

    /// Record the outcome of the current step. On success the decode
    /// advances to the next step of the fixed order; on failure it stays
    /// where it is and raises the error belonging to that step.
    pub fn advance(&mut self, succeeded: bool) -> (r: Result<(), Error>)
        requires
            old(self).step != DecodeStep::Ready,
        ensures
            final(self).filename@ == old(self).filename@,
            succeeded ==> r is Ok && final(self).step == next_step(old(self).step),
            !succeeded ==> final(self).step == old(self).step && (r matches Err(e)
                && is_step_error(e, old(self).step, old(self).filename@)),
    {
        if !succeeded {
            let e = match self.step {
                DecodeStep::Init => Error::InitNullPointer,
                DecodeStep::Open => Error::FailedToOpen(self.filename.clone()),
                DecodeStep::Unpack => Error::FailedToUnpack(self.filename.clone()),
                DecodeStep::Process => Error::FailedToProcess(self.filename.clone()),
                DecodeStep::Ready => Error::InitNullPointer,
            };
            return Err(e);
        }
        let next = match self.step {
            DecodeStep::Init => DecodeStep::Open,
            DecodeStep::Open => DecodeStep::Unpack,
            DecodeStep::Unpack => DecodeStep::Process,
            DecodeStep::Process => DecodeStep::Ready,
            DecodeStep::Ready => DecodeStep::Ready,
        };
        self.step = next;
        Ok(())
    }

    /// Whether the image is fully developed and ready for export.
    pub fn ready(&self) -> (r: bool)
        ensures
            r == (self.step == DecodeStep::Ready),
    {
        matches!(self.step, DecodeStep::Ready)
    }

    /// Record the outcome of exporting the developed image to `filename`.
    /// Export is only meaningful once the decode is complete.
    pub fn save_tiff(&self, filename: &str, succeeded: bool) -> (r: Result<(), Error>)
        requires
            self.step == DecodeStep::Ready,
        ensures
            succeeded ==> r is Ok,
            !succeeded ==> (r matches Err(e) && e matches Error::FailedToSaveTiff(p)
                && p@ == filename@),
    {
        if succeeded {
            Ok(())
        } else {
            Err(Error::FailedToSaveTiff(filename.to_owned()))
        }
    }
}

} // verus!
