use vstd::prelude::*;

verus! {

/// The failures that building or decoding a ZIP record can report.
#[derive(Debug, Clone, Copy, PartialEq, Eq, Structural)]
pub enum SquashZipError {
    /// A compression method field held a code that no known method uses.
    UnknownCompressionMethod(u16),
    /// A file name whose UTF-8 encoding (of the given byte length) does not fit
    /// the 16-bit file name length field.
    FileNameTooLong(usize),
}

} // verus!
