//! The configuration of one conversion and the closed set of failure
//! kinds that a conversion can end in.

use crate::geometry::SymbolRatio;
use vstd::prelude::*;

verus! {

/// The ways a conversion can fail; every failure is terminal for the
/// invocation, and each kind names exactly one fallible step.
#[derive(Clone, Copy, Debug, PartialEq, Eq, Structural)]
pub enum ProgramError {
    /// The local input file could not be opened.
    InvalidInputPath,
    /// The local input file's bytes are no recognized image.
    FailedToDecodeInput,
    /// The output file could not be written.
    FailedToWriteToOutput,
    /// The input URL could not be fetched.
    FailedToDownload,
    /// The fetched response declares an unrecognized image type, or its
    /// bytes could not be decoded.
    DownloadInvalid,
}

/// The immutable configuration of one conversion: where the image comes
/// from, where the text goes (standard output where absent), the desired
/// grid width in cells (the source's own pixel width where absent), the
/// symbol aspect ratio, and the charset ordered darkest to brightest.
#[derive(Debug)]
pub struct ProgramParameters {
    pub input_path: String,
    pub output_path: Option<String>,
    pub output_width: Option<u32>,
    pub symbol_aspect_ratio: SymbolRatio,
    pub charset: String,
}

impl ProgramParameters {
    /// Usable parameters: a positive ratio denominator and a non-empty
    /// charset.
    pub open spec fn wf(self) -> bool {
        self.symbol_aspect_ratio.wf() && self.charset@.len() >= 1
    }
}

} // verus!
