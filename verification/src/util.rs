//! Byte-level primitives shared by all decoders: little-endian integer reads,
//! NUL-terminator scanning, UTF-8 decoding of name fields, and hexadecimal
//! rendering of numeric codes.

use vstd::prelude::*;
use vstd::string::StringSliceAdditionalSpecFns;
use vstd::string::StringExecFns;
use vstd::utf8::{valid_utf8, decode_utf8, encode_utf8};

verus! {

/// Value of the two bytes at `i` read as a little-endian 16-bit integer.
pub open spec fn le16_at(b: Seq<u8>, i: int) -> u16
    recommends
        0 <= i,
        i + 2 <= b.len(),
{
    (b[i] + 256 * b[i + 1]) as u16
}

/// Value of the four bytes at `i` read as a little-endian 32-bit integer.
pub open spec fn le32_at(b: Seq<u8>, i: int) -> u32
    recommends
        0 <= i,
        i + 4 <= b.len(),
{
    (b[i] + 256 * (b[i + 1] + 256 * (b[i + 2] + 256 * b[i + 3]))) as u32
}

/// Reads a little-endian 16-bit integer at offset `i`.
pub fn read_le_u16(data: &[u8], i: usize) -> (r: u16)
    requires
        i + 2 <= data@.len(),
    ensures
        r == le16_at(data@, i as int),
{
    let n: usize = data.len();
    assert(i + 2 <= n);
    let lo = *vstd::slice::slice_index_get(data, i);
    let hi = *vstd::slice::slice_index_get(data, i + 1);
    (lo as u16) + 256 * (hi as u16)
}

/// Reads a little-endian 32-bit integer at offset `i`.
pub fn read_le_u32(data: &[u8], i: usize) -> (r: u32)
    requires
        i + 4 <= data@.len(),
    ensures
        r == le32_at(data@, i as int),
{
    let n: usize = data.len();
    assert(i + 4 <= n);
    let b0 = *vstd::slice::slice_index_get(data, i);
    let b1 = *vstd::slice::slice_index_get(data, i + 1);
    let b2 = *vstd::slice::slice_index_get(data, i + 2);
    let b3 = *vstd::slice::slice_index_get(data, i + 3);
    (b0 as u32) + 256 * ((b1 as u32) + 256 * ((b2 as u32) + 256 * (b3 as u32)))
}

/// Copies the bytes `data[i..j]` into an owned vector.
pub fn sub_vec(data: &[u8], i: usize, j: usize) -> (r: Vec<u8>)
    requires
        i <= j <= data@.len(),
    ensures
        r@ == data@.subrange(i as int, j as int),
{
    vstd::slice::slice_to_vec(vstd::slice::slice_subrange(data, i, j))
}

/// `i` is the position of the first NUL byte in `b`.
pub open spec fn is_first_nul(b: Seq<u8>, i: int) -> bool {
    &&& 0 <= i < b.len()
    &&& b[i] == 0
    &&& forall|j: int| 0 <= j < i ==> b[j] != 0
}

/// `b` contains a NUL byte.
pub open spec fn has_nul(b: Seq<u8>) -> bool {
    exists|i: int| is_first_nul(b, i)
}

/// Position of the first NUL byte in `b`.
pub open spec fn nul_pos(b: Seq<u8>) -> int
    recommends
        has_nul(b),
{
    choose|i: int| is_first_nul(b, i)
}

/// The first NUL position is unique, so `nul_pos` is it.
pub proof fn lemma_first_nul_unique(b: Seq<u8>, i: int)
    requires
        is_first_nul(b, i),
    ensures
        has_nul(b),
        nul_pos(b) == i,
{
    assert(has_nul(b));
    let k = nul_pos(b);
    if k < i {
        assert(b[k] != 0);
    }
    if i < k {
        assert(b[i] != 0);
    }
}

/// Scans for the first NUL byte.
pub fn find_nul(data: &[u8]) -> (r: Option<usize>)
    ensures
        match r {
            Some(i) => has_nul(data@) && nul_pos(data@) == i as int,
            None => !has_nul(data@),
        },
{
    let n: usize = data.len();
    let mut k: usize = 0;
    while k < n
        invariant
            k <= n == data@.len(),
            forall|j: int| 0 <= j < k ==> data@[j] != 0,
        decreases n - k,
    {
        if *vstd::slice::slice_index_get(data, k) == 0 {
            proof {
                lemma_first_nul_unique(data@, k as int);
            }
            return Some(k);
        }
        k += 1;
    }
    proof {
        if has_nul(data@) {
            let i = choose|i: int| is_first_nul(data@, i);
            assert(data@[i] != 0);
        }
    }
    None
}

/// Relies on core::str::from_utf8: it returns Ok exactly when the byte slice
/// is valid UTF-8 (vstd's model of UTF-8 validity), and the returned string
/// slice is those same bytes, i.e. it re-encodes to them.
#[verifier::external_body]
fn utf8_from_bytes(bytes: &[u8]) -> (r: Option<&str>)
    ensures
        r is Some <==> valid_utf8(bytes@),
        r matches Some(s) ==> s.spec_bytes() == bytes@,
{
    core::str::from_utf8(bytes).ok()
}

/// Decodes a byte slice as UTF-8 into an owned string; `None` exactly when the
/// bytes are not valid UTF-8.
pub fn utf8_string(bytes: &[u8]) -> (r: Option<String>)
    ensures
        r is Some <==> valid_utf8(bytes@),
        r matches Some(s) ==> encode_utf8(s@) == bytes@ && s@ == decode_utf8(bytes@),
{
    match utf8_from_bytes(bytes) {
        Some(s) => {
            let owned = s.to_owned();
            proof {
                vstd::utf8::encode_utf8_decode_utf8(owned@);
            }
            Some(owned)
        },
        None => None,
    }
}

/// The lower-case hexadecimal digit for `n`.
pub open spec fn hex_digit(n: int) -> char
    recommends
        0 <= n < 16,
{
    if n == 0 {
        '0'
    } else if n == 1 {
        '1'
    } else if n == 2 {
        '2'
    } else if n == 3 {
        '3'
    } else if n == 4 {
        '4'
    } else if n == 5 {
        '5'
    } else if n == 6 {
        '6'
    } else if n == 7 {
        '7'
    } else if n == 8 {
        '8'
    } else if n == 9 {
        '9'
    } else if n == 10 {
        'a'
    } else if n == 11 {
        'b'
    } else if n == 12 {
        'c'
    } else if n == 13 {
        'd'
    } else if n == 14 {
        'e'
    } else {
        'f'
    }
}

/// Two lower-case hexadecimal digits for a byte value.
pub open spec fn hex2(v: int) -> Seq<char>
    recommends
        0 <= v < 256,
{
    seq![hex_digit(v / 16), hex_digit(v % 16)]
}

/// Four lower-case hexadecimal digits for a 16-bit value.
pub open spec fn hex4(v: int) -> Seq<char>
    recommends
        0 <= v < 0x10000,
{
    hex2(v / 256) + hex2(v % 256)
}

/// One-character string for the hexadecimal digit `n`.
pub fn hex_digit_str(n: u8) -> (r: &'static str)
    requires
        n < 16,
    ensures
        r@ == seq![hex_digit(n as int)],
{
    match n {
        0 => {
            proof {
                reveal_strlit("0");
            }
            let r = "0";
            assert(r@ =~= seq![hex_digit(0)]);
            r
        },
        1 => {
            proof {
                reveal_strlit("1");
            }
            let r = "1";
            assert(r@ =~= seq![hex_digit(1)]);
            r
        },
        2 => {
            proof {
                reveal_strlit("2");
            }
            let r = "2";
            assert(r@ =~= seq![hex_digit(2)]);
            r
        },
        3 => {
            proof {
                reveal_strlit("3");
            }
            let r = "3";
            assert(r@ =~= seq![hex_digit(3)]);
            r
        },
        4 => {
            proof {
                reveal_strlit("4");
            }
            let r = "4";
            assert(r@ =~= seq![hex_digit(4)]);
            r
        },
        5 => {
            proof {
                reveal_strlit("5");
            }
            let r = "5";
            assert(r@ =~= seq![hex_digit(5)]);
            r
        },
        6 => {
            proof {
                reveal_strlit("6");
            }
            let r = "6";
            assert(r@ =~= seq![hex_digit(6)]);
            r
        },
        7 => {
            proof {
                reveal_strlit("7");
            }
            let r = "7";
            assert(r@ =~= seq![hex_digit(7)]);
            r
        },
        8 => {
            proof {
                reveal_strlit("8");
            }
            let r = "8";
            assert(r@ =~= seq![hex_digit(8)]);
            r
        },
        9 => {
            proof {
                reveal_strlit("9");
            }
            let r = "9";
            assert(r@ =~= seq![hex_digit(9)]);
            r
        },
        10 => {
            proof {
                reveal_strlit("a");
            }
            let r = "a";
            assert(r@ =~= seq![hex_digit(10)]);
            r
        },
        11 => {
            proof {
                reveal_strlit("b");
            }
            let r = "b";
            assert(r@ =~= seq![hex_digit(11)]);
            r
        },
        12 => {
            proof {
                reveal_strlit("c");
            }
            let r = "c";
            assert(r@ =~= seq![hex_digit(12)]);
            r
        },
        13 => {
            proof {
                reveal_strlit("d");
            }
            let r = "d";
            assert(r@ =~= seq![hex_digit(13)]);
            r
        },
        14 => {
            proof {
                reveal_strlit("e");
            }
            let r = "e";
            assert(r@ =~= seq![hex_digit(14)]);
            r
        },
        _ => {
            proof {
                reveal_strlit("f");
            }
            let r = "f";
            assert(r@ =~= seq![hex_digit(15)]);
            r
        },
    }
}

/// Appends the two hexadecimal digits of a byte value to `s`.
pub fn push_hex2(s: &mut String, v: u8)
    ensures
        final(s)@ == old(s)@ + hex2(v as int),
{
    let hi = hex_digit_str(v / 16);
    let lo = hex_digit_str(v % 16);
    s.append(hi);
    s.append(lo);
    assert(s@ =~= old(s)@ + hex2(v as int));
}

/// Appends the four hexadecimal digits of a 16-bit value to `s`.
pub fn push_hex4(s: &mut String, v: u16)
    ensures
        final(s)@ == old(s)@ + hex4(v as int),
{
    push_hex2(s, (v / 256) as u8);
    push_hex2(s, (v % 256) as u8);
    assert(s@ =~= old(s)@ + hex4(v as int));
}

} // verus!
