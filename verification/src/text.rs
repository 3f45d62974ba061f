//! UTF-8 validation for the decode step of the boundary.
//!
//! Text crossing the boundary arrives as raw bytes; a bind or a
//! configuration field is rejected with a decode error before anything
//! is stored if the bytes are not valid UTF-8.  The checker below is
//! proved equivalent to the mathematical definition of a valid UTF-8
//! encoding, `vstd::utf8::valid_utf8`: leading and continuation byte
//! patterns, no overlong encodings, and no surrogate codepoints.

use vstd::prelude::*;
use vstd::utf8::*;

verus! {

/// Reports whether `bytes` is a valid UTF-8 encoding.
pub fn validate_utf8(bytes: &Vec<u8>) -> (r: bool)
    ensures
        r == valid_utf8(bytes@),
{
    let n = bytes.len();
    let mut i: usize = 0;
    proof {
        assert(bytes@.skip(0) =~= bytes@);
    }
    while i < n
        invariant
            i <= n,
            n == bytes@.len(),
            valid_utf8(bytes@) == valid_utf8(bytes@.skip(i as int)),
        decreases n - i,
    {
        let ghost s = bytes@.skip(i as int);
        proof {
            assert(s[0] == bytes@[i as int]);
        }
        let b0 = bytes[i];
        if b0 < 0x80 {
            // one byte: never overlong, never a surrogate
            proof {
                assert(valid_first_scalar(s));
                assert(length_of_first_scalar(s) == 1);
                assert(pop_first_scalar(s) =~= bytes@.skip(i as int + 1));
            }
            i = i + 1;
        } else if 0xc0 <= b0 && b0 <= 0xdf {
            if n - i < 2 {
                proof {
                    assert(!valid_first_scalar(s));
                }
                return false;
            }
            let b1 = bytes[i + 1];
            proof {
                assert(s[1] == bytes@[i as int + 1]);
            }
            if !(0x80 <= b1 && b1 <= 0xbf) {
                proof {
                    assert(!valid_first_scalar(s));
                }
                return false;
            }
            let cp: u32 = (((b0 & 0x1f) as u32) << 6) | ((b1 & 0x3f) as u32);
            proof {
                assert(cp == decode_first_codepoint(s));
            }
            if cp < 0x80 {
                // overlong two-byte encoding
                proof {
                    assert(!valid_first_scalar(s));
                }
                return false;
            }
            proof {
                assert(cp <= 0x7ff) by (bit_vector)
                    requires
                        cp == (((b0 & 0x1f) as u32) << 6) | ((b1 & 0x3f) as u32),
                ;
                assert(valid_first_scalar(s));
                assert(length_of_first_scalar(s) == 2);
                assert(pop_first_scalar(s) =~= bytes@.skip(i as int + 2));
            }
            i = i + 2;
        } else if 0xe0 <= b0 && b0 <= 0xef {
            if n - i < 3 {
                proof {
                    assert(!valid_first_scalar(s));
                }
                return false;
            }
            let b1 = bytes[i + 1];
            let b2 = bytes[i + 2];
            proof {
                assert(s[1] == bytes@[i as int + 1]);
                assert(s[2] == bytes@[i as int + 2]);
            }
            if !(0x80 <= b1 && b1 <= 0xbf) || !(0x80 <= b2 && b2 <= 0xbf) {
                proof {
                    assert(!valid_first_scalar(s));
                }
                return false;
            }
            let cp: u32 = (((b0 & 0x0f) as u32) << 12) | (((b1 & 0x3f) as u32) << 6) | ((b2
                & 0x3f) as u32);
            proof {
                assert(cp == decode_first_codepoint(s));
            }
            if cp < 0x800 {
                // overlong three-byte encoding
                proof {
                    assert(!valid_first_scalar(s));
                }
                return false;
            }
            if 0xd800 <= cp && cp <= 0xdfff {
                // surrogate codepoint
                proof {
                    assert(!valid_first_scalar(s));
                }
                return false;
            }
            proof {
                assert(valid_first_scalar(s));
                assert(length_of_first_scalar(s) == 3);
                assert(pop_first_scalar(s) =~= bytes@.skip(i as int + 3));
            }
            i = i + 3;
        } else if 0xf0 <= b0 && b0 <= 0xf7 {
            if n - i < 4 {
                proof {
                    assert(!valid_first_scalar(s));
                }
                return false;
            }
            let b1 = bytes[i + 1];
            let b2 = bytes[i + 2];
            let b3 = bytes[i + 3];
            proof {
                assert(s[1] == bytes@[i as int + 1]);
                assert(s[2] == bytes@[i as int + 2]);
                assert(s[3] == bytes@[i as int + 3]);
            }
            if !(0x80 <= b1 && b1 <= 0xbf) || !(0x80 <= b2 && b2 <= 0xbf) || !(0x80 <= b3 && b3
                <= 0xbf) {
                proof {
                    assert(!valid_first_scalar(s));
                }
                return false;
            }
            let cp: u32 = (((b0 & 0x07) as u32) << 18) | (((b1 & 0x3f) as u32) << 12) | (((b2
                & 0x3f) as u32) << 6) | ((b3 & 0x3f) as u32);
            proof {
                assert(cp == decode_first_codepoint(s));
            }
            if cp < 0x10000 || cp > 0x10ffff {
                // overlong four-byte encoding, or beyond the last scalar
                proof {
                    assert(!valid_first_scalar(s));
                }
                return false;
            }
            proof {
                assert(valid_first_scalar(s));
                assert(length_of_first_scalar(s) == 4);
                assert(pop_first_scalar(s) =~= bytes@.skip(i as int + 4));
            }
            i = i + 4;
        } else {
            // a stray continuation byte, or a byte no encoding uses
            proof {
                assert(!valid_first_scalar(s));
            }
            return false;
        }
    }
    proof {
        assert(bytes@.skip(n as int) =~= Seq::<u8>::empty());
    }
    true
}

} // verus!
