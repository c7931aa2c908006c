use vstd::prelude::*;

verus! {

/// Why a discovery or encoding run stopped.
#[derive(Debug)]
pub enum VolumeError {
    /// The file system or an output stream failed (scan, open, write, flush).
    Io { msg: String },
    /// A candidate file could not be decoded as an image.
    Decode { path: String, msg: String },
    /// Two slices of the same stack differ in width or height.
    DimensionMismatch {
        expected_x: u32,
        expected_y: u32,
        path: String,
        found_x: u32,
        found_y: u32,
    },
    /// A dimension or count does not fit its on-disk numeric field.
    Config { msg: String },
}

impl VolumeError {
    /// A short tag for the error kind, for callers that render messages.
    pub fn kind(&self) -> (r: &'static str)
        ensures
            (self is Io ==> r@ == "i/o"@),
            (self is Decode ==> r@ == "decode"@),
            (self is DimensionMismatch ==> r@ == "dimension mismatch"@),
            (self is Config ==> r@ == "config"@),
    {
        match self {
            VolumeError::Io { .. } => "i/o",
            VolumeError::Decode { .. } => "decode",
            VolumeError::DimensionMismatch { .. } => "dimension mismatch",
            VolumeError::Config { .. } => "config",
        }
    }
}

} // verus!
