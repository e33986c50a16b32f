//! Compression methods and their 16-bit wire codes.
use vstd::prelude::*;

use crate::error::SquashZipError;

verus! {

/// A compression method for entry data, as defined in section 4.4.5 of the ZIP
/// file specification.
#[derive(Debug, Clone, Copy, PartialEq, Eq, Structural)]
#[non_exhaustive]
pub enum CompressionMethod {
    Store,
    Deflate,
}

/// The compression method field value that stands for `method`.
pub open spec fn wire_code(method: CompressionMethod) -> u16 {
    match method {
        CompressionMethod::Store => 0,
        CompressionMethod::Deflate => 8,
    }
}

/// The compression method that the field value `field` stands for, or the
/// error that names an unknown code.
pub open spec fn decode_wire_code(field: u16) -> Result<CompressionMethod, SquashZipError> {
    if field == 0 {
        Ok(CompressionMethod::Store)
    } else if field == 8 {
        Ok(CompressionMethod::Deflate)
    } else {
        Err(SquashZipError::UnknownCompressionMethod(field))
    }
}

impl CompressionMethod {
    /// Gets the compression method field value that represents this method.
    pub fn to_compression_method_field(self) -> (r: u16)
        ensures
            r == wire_code(self),
    {
        match self {
            CompressionMethod::Store => 0,
            CompressionMethod::Deflate => 8,
        }
    }

    /// Gets the compression method that the compression method field value
    /// `field` represents. Codes of no known method are an error.
    pub fn from_compression_method_field(field: u16) -> (r: Result<
        CompressionMethod,
        SquashZipError,
    >)
        ensures
            r == decode_wire_code(field),
    {
        match field {
            0 => Ok(CompressionMethod::Store),
            8 => Ok(CompressionMethod::Deflate),
            _ => Err(SquashZipError::UnknownCompressionMethod(field)),
        }
    }
}

/// Decoding the wire code of a method gives that method back.
pub proof fn lemma_wire_code_round_trip(method: CompressionMethod)
    ensures
        decode_wire_code(wire_code(method)) == Ok::<CompressionMethod, SquashZipError>(method),
{
}

/// Every code other than those of `Store` and `Deflate` fails to decode, with
/// an error that carries the code.
pub proof fn lemma_unknown_wire_code_rejected(field: u16)
    requires
        field != 0,
        field != 8,
    ensures
        decode_wire_code(field) == Err::<CompressionMethod, SquashZipError>(
            SquashZipError::UnknownCompressionMethod(field),
        ),
        forall|m: CompressionMethod| wire_code(m) != field,
{
}

} // verus!
