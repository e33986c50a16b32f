//! What the records derive from an entry's file name.
use vstd::prelude::*;
use vstd::string::StringSliceAdditionalSpecFns;

verus! {

/// Whether some byte of `bytes` lies outside ASCII, that is, is 128 or more.
pub open spec fn has_non_ascii_byte(bytes: Seq<u8>) -> bool {
    exists|i: int| 0 <= i < bytes.len() && #[trigger] bytes[i] >= 128
}

/// The language encoding flag (EFS), bit 11 of the general purpose bit flag.
pub const LANGUAGE_ENCODING_FLAG: u16 = 0x0800;

/// The general purpose bit flag of a record for a file name with UTF-8 bytes
/// `bytes`: bit 11 marks a UTF-8 name, and is only set when the name is not
/// plain ASCII, which keeps ASCII names readable by old tools.
pub open spec fn general_purpose_flag(bytes: Seq<u8>) -> u16 {
    if has_non_ascii_byte(bytes) {
        LANGUAGE_ENCODING_FLAG
    } else {
        0
    }
}

/// Computes the general purpose bit flag of a record for `file_name`.
pub fn get_general_purpose_bit_flag(file_name: &str) -> (r: u16)
    ensures
        r == general_purpose_flag(file_name.spec_bytes()),
{
    let bytes = file_name.as_bytes();
    let mut i: usize = 0;
    while i < bytes.len()
        invariant
            i <= bytes@.len(),
            bytes@ == file_name.spec_bytes(),
            forall|k: int| 0 <= k < i ==> #[trigger] bytes@[k] < 128,
        decreases bytes@.len() - i,
    {
        if bytes[i] >= 128 {
            assert(has_non_ascii_byte(bytes@) && bytes@[i as int] >= 128);
            return LANGUAGE_ENCODING_FLAG;
        }
        i = i + 1;
    }
    0
}

/// Bit 11 of the general purpose bit flag is set exactly when the name holds a
/// byte of 128 or more, and no other bit is ever set.
pub proof fn lemma_general_purpose_flag_bits(bytes: Seq<u8>)
    ensures
        (general_purpose_flag(bytes) & 0x0800 != 0) <==> has_non_ascii_byte(bytes),
        general_purpose_flag(bytes) & !0x0800u16 == 0,
{
    assert((0x0800u16 & 0x0800u16) != 0 && (0x0800u16 & !0x0800u16) == 0) by (bit_vector);
    assert((0u16 & 0x0800u16) == 0 && (0u16 & !0x0800u16) == 0) by (bit_vector);
}

} // verus!
