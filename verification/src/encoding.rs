//! A UTF-8 validity check over byte slices, verified against vstd's model
//! of UTF-8.  The bridge uses it to decide between the native version text
//! and the substitute text.

use vstd::prelude::*;
use vstd::utf8::{
    codepoint_width_2, codepoint_width_3, codepoint_width_4, length_of_first_scalar,
    partial_valid_partial_invalid_utf8, partial_valid_utf8, partial_valid_utf8_extend,
    valid_first_scalar, valid_utf8,
};

verus! {

/// A scalar encoding that begins at `i` is malformed, so the whole sequence
/// is not valid UTF-8, however well-formed the bytes before `i` are.
proof fn lemma_invalid_at(bytes: Seq<u8>, i: int)
    requires
        0 <= i < bytes.len(),
        valid_utf8(bytes.subrange(0, i)),
        !valid_first_scalar(bytes.subrange(i, bytes.len() as int)),
    ensures
        !valid_utf8(bytes),
{
    let suffix = bytes.subrange(i, bytes.len() as int);
    assert(suffix.len() > 0);
    assert(!valid_utf8(suffix));
    partial_valid_partial_invalid_utf8(bytes, i);
}

/// Decides whether `bytes` is a well-formed UTF-8 encoding: every scalar
/// encoding in it has a leading byte with the right number of well-formed
/// continuation bytes, is not overlong, and does not encode a surrogate.
pub fn is_valid_utf8(bytes: &[u8]) -> (ok: bool)
    ensures
        ok == valid_utf8(bytes@),
{
    let n: usize = bytes.len();
    let mut i: usize = 0;
    while i < n
        invariant
            i <= n,
            n == bytes@.len(),
            partial_valid_utf8(bytes@, i as int),
        decreases n - i,
    {
        let ghost suffix = bytes@.subrange(i as int, n as int);
        proof {
            assert(suffix.len() == n - i);
        }
        let rem: usize = n - i;
        let b0: u8 = bytes[i];
        proof {
            assert(suffix[0] == b0);
        }
        if b0 < 0x80 {
            // One-byte scalar: the byte is the codepoint.
            proof {
                assert(valid_first_scalar(suffix));
                assert(length_of_first_scalar(suffix) == 1);
                partial_valid_utf8_extend(bytes@, i as int);
            }
            i = i + 1;
        } else if 0xc0 <= b0 && b0 <= 0xdf {
            if rem < 2 {
                proof {
                    lemma_invalid_at(bytes@, i as int);
                }
                return false;
            }
            let b1: u8 = bytes[i + 1];
            proof {
                assert(suffix[1] == b1);
            }
            if !(0x80 <= b1 && b1 <= 0xbf) {
                proof {
                    lemma_invalid_at(bytes@, i as int);
                }
                return false;
            }
            let cp: u32 = (((b0 & 0x1f) as u32) << 6) | ((b1 & 0x3f) as u32);
            proof {
                assert(cp == codepoint_width_2(b0, b1));
                assert(cp <= 0x7ff) by (bit_vector)
                    requires
                        cp == (((b0 & 0x1f) as u32) << 6) | ((b1 & 0x3f) as u32),
                ;
            }
            if cp < 0x80 {
                // Overlong two-byte encoding of a one-byte codepoint.
                proof {
                    lemma_invalid_at(bytes@, i as int);
                }
                return false;
            }
            proof {
                assert(valid_first_scalar(suffix));
                assert(length_of_first_scalar(suffix) == 2);
                partial_valid_utf8_extend(bytes@, i as int);
            }
            i = i + 2;
        } else if 0xe0 <= b0 && b0 <= 0xef {
            if rem < 3 {
                proof {
                    lemma_invalid_at(bytes@, i as int);
                }
                return false;
            }
            let b1: u8 = bytes[i + 1];
            let b2: u8 = bytes[i + 2];
            proof {
                assert(suffix[1] == b1);
                assert(suffix[2] == b2);
            }
            if !(0x80 <= b1 && b1 <= 0xbf) || !(0x80 <= b2 && b2 <= 0xbf) {
                proof {
                    lemma_invalid_at(bytes@, i as int);
                }
                return false;
            }
            let cp: u32 = (((b0 & 0x0f) as u32) << 12) | (((b1 & 0x3f) as u32) << 6) | ((b2
                & 0x3f) as u32);
            proof {
                assert(cp == codepoint_width_3(b0, b1, b2));
            }
            if cp < 0x800 || (0xd800 <= cp && cp <= 0xdfff) {
                // Overlong three-byte encoding, or a surrogate codepoint.
                proof {
                    lemma_invalid_at(bytes@, i as int);
                }
                return false;
            }
            proof {
                assert(valid_first_scalar(suffix));
                assert(length_of_first_scalar(suffix) == 3);
                partial_valid_utf8_extend(bytes@, i as int);
            }
            i = i + 3;
        } else if 0xf0 <= b0 && b0 <= 0xf7 {
            if rem < 4 {
                proof {
                    lemma_invalid_at(bytes@, i as int);
                }
                return false;
            }
            let b1: u8 = bytes[i + 1];
            let b2: u8 = bytes[i + 2];
            let b3: u8 = bytes[i + 3];
            proof {
                assert(suffix[1] == b1);
                assert(suffix[2] == b2);
                assert(suffix[3] == b3);
            }
            if !(0x80 <= b1 && b1 <= 0xbf) || !(0x80 <= b2 && b2 <= 0xbf) || !(0x80 <= b3 && b3
                <= 0xbf) {
                proof {
                    lemma_invalid_at(bytes@, i as int);
                }
                return false;
            }
            let cp: u32 = (((b0 & 0x07) as u32) << 18) | (((b1 & 0x3f) as u32) << 12) | (((b2
                & 0x3f) as u32) << 6) | ((b3 & 0x3f) as u32);
            proof {
                assert(cp == codepoint_width_4(b0, b1, b2, b3));
            }
            if cp < 0x10000 || cp > 0x10ffff {
                // Overlong four-byte encoding, or a codepoint past the
                // Unicode range.
                proof {
                    lemma_invalid_at(bytes@, i as int);
                }
                return false;
            }
            proof {
                assert(valid_first_scalar(suffix));
                assert(length_of_first_scalar(suffix) == 4);
                partial_valid_utf8_extend(bytes@, i as int);
            }
            i = i + 4;
        } else {
            // A stray continuation byte, or a byte no UTF-8 encoding uses.
            proof {
                lemma_invalid_at(bytes@, i as int);
            }
            return false;
        }
    }
    proof {
        assert(bytes@.subrange(0, n as int) =~= bytes@);
    }
    true
}

} // verus!
