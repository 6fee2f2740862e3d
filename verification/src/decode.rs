//! Body decoding: a verified UTF-8 validator and the conversion of an
//! accepted body into the text handed to the engine.
//!
//! Validity and the decoded character sequence are stated against vstd's
//! UTF-8 model (`vstd::utf8`); only the materialization of the `String`
//! itself is delegated to the standard library.

use vstd::prelude::*;
use vstd::utf8::{
    decode_utf8, encode_utf8, encode_utf8_decode_utf8, pop_first_scalar, valid_first_scalar,
    valid_utf8,
};

verus! {

/// Decides UTF-8 validity of a byte sequence, proved equivalent to the
/// mathematical definition `vstd::utf8::valid_utf8`. Walks the bytes one
/// encoded scalar at a time: a leading byte fixes the width, the
/// continuation bytes are checked for shape, and the decoded codepoint is
/// checked against the overlong and surrogate exclusions.
pub fn is_utf8(v: &Vec<u8>) -> (b: bool)
    ensures
        b == valid_utf8(v@),
{
    let n = v.len();
    let mut i: usize = 0;
    proof {
        assert(v@.skip(0) =~= v@);
    }
    while i < n
        invariant
            i <= n,
            n == v@.len(),
            valid_utf8(v@) == valid_utf8(v@.skip(i as int)),
        decreases n - i,
    {
        let ghost tail = v@.skip(i as int);
        proof {
            assert(tail.len() == n - i);
            assert(tail[0] == v@[i as int]);
        }
        let b0 = v[i];
        if b0 <= 0x7f {
            proof {
                assert((b0 & 0x7f) == b0 && b0 < 0xd800) by (bit_vector)
                    requires
                        b0 <= 0x7f,
                ;
                assert(valid_first_scalar(tail));
                assert(pop_first_scalar(tail) =~= v@.skip(i + 1 as int));
            }
            i = i + 1;
        } else if 0xc0 <= b0 && b0 <= 0xdf {
            if !(n - i >= 2 && 0x80 <= v[i + 1] && v[i + 1] <= 0xbf) {
                proof {
                    assert(!valid_first_scalar(tail));
                }
                return false;
            }
            let b1 = v[i + 1];
            proof {
                assert(tail[1] == v@[i + 1 as int]);
            }
            let cp: u32 = (((b0 & 0x1f) as u32) << 6u32) | ((b1 & 0x3f) as u32);
            if cp < 0x80 {
                proof {
                    assert(!valid_first_scalar(tail));
                }
                return false;
            }
            proof {
                assert((((b0 & 0x1f) as u32) << 6u32) | ((b1 & 0x3f) as u32) <= 0x7ff)
                    by (bit_vector);
                assert(valid_first_scalar(tail));
                assert(pop_first_scalar(tail) =~= v@.skip(i + 2 as int));
            }
            i = i + 2;
        } else if 0xe0 <= b0 && b0 <= 0xef {
            if !(n - i >= 3 && 0x80 <= v[i + 1] && v[i + 1] <= 0xbf && 0x80 <= v[i + 2] && v[i + 2]
                <= 0xbf) {
                proof {
                    assert(!valid_first_scalar(tail));
                }
                return false;
            }
            let b1 = v[i + 1];
            let b2 = v[i + 2];
            proof {
                assert(tail[1] == v@[i + 1 as int]);
                assert(tail[2] == v@[i + 2 as int]);
            }
            let cp: u32 = (((b0 & 0x0f) as u32) << 12u32) | (((b1 & 0x3f) as u32) << 6u32) | ((b2
                & 0x3f) as u32);
            if cp < 0x800 || (0xd800 <= cp && cp <= 0xdfff) {
                proof {
                    assert(!valid_first_scalar(tail));
                }
                return false;
            }
            proof {
                assert(valid_first_scalar(tail));
                assert(pop_first_scalar(tail) =~= v@.skip(i + 3 as int));
            }
            i = i + 3;
        } else if 0xf0 <= b0 && b0 <= 0xf7 {
            if !(n - i >= 4 && 0x80 <= v[i + 1] && v[i + 1] <= 0xbf && 0x80 <= v[i + 2] && v[i + 2]
                <= 0xbf && 0x80 <= v[i + 3] && v[i + 3] <= 0xbf) {
                proof {
                    assert(!valid_first_scalar(tail));
                }
                return false;
            }
            let b1 = v[i + 1];
            let b2 = v[i + 2];
            let b3 = v[i + 3];
            proof {
                assert(tail[1] == v@[i + 1 as int]);
                assert(tail[2] == v@[i + 2 as int]);
                assert(tail[3] == v@[i + 3 as int]);
            }
            let cp: u32 = (((b0 & 0x07) as u32) << 18u32) | (((b1 & 0x3f) as u32) << 12u32) | (((b2
                & 0x3f) as u32) << 6u32) | ((b3 & 0x3f) as u32);
            if cp < 0x10000 || cp > 0x10ffff {
                proof {
                    assert(!valid_first_scalar(tail));
                }
                return false;
            }
            proof {
                assert(valid_first_scalar(tail));
                assert(pop_first_scalar(tail) =~= v@.skip(i + 4 as int));
            }
            i = i + 4;
        } else {
            // A continuation byte (0x80..=0xbf) or a byte above 0xf7 can
            // lead no encoded scalar.
            proof {
                assert(!valid_first_scalar(tail));
            }
            return false;
        }
    }
    proof {
        assert(v@.skip(n as int) =~= Seq::<u8>::empty());
    }
    true
}

/// Relies on `String::from_utf8`: on bytes that are valid UTF-8 it returns
/// `Ok`, and the returned string is backed by exactly those bytes, so its
/// characters encode back to the input.
#[verifier::external_body]
fn utf8_into_string(bytes: Vec<u8>) -> (r: String)
    requires
        valid_utf8(bytes@),
    ensures
        encode_utf8(r@) == bytes@,
{
    String::from_utf8(bytes).unwrap()
}

/// Converts a request body into the text handed to the engine. Succeeds on
/// exactly the bodies that are valid UTF-8, with the decoded characters of
/// the body; fails with `DecodeError` on every other body, so that no
/// invalid body ever reaches the engine. Pure validation: no side effects.
pub fn decode_body(body: Vec<u8>) -> (r: Result<String, crate::ImportError>)
    ensures
        r is Ok <==> valid_utf8(body@),
        r matches Ok(text) ==> text@ == decode_utf8(body@),
        r is Err ==> r == Err::<String, crate::ImportError>(crate::ImportError::DecodeError),
{
    if is_utf8(&body) {
        let text = utf8_into_string(body);
        proof {
            encode_utf8_decode_utf8(text@);
        }
        Ok(text)
    } else {
        Err(crate::ImportError::DecodeError)
    }
}

} // verus!
