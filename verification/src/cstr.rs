//! Strings as the host's C interface takes them: the UTF-8 bytes of the
//! text followed by one NUL byte.

use vstd::prelude::*;
use vstd::utf8::*;
use vstd::string::*;

verus! {

/// The bytes of the C string for `s`: its UTF-8 encoding and a closing NUL.
pub open spec fn c_bytes(s: Seq<char>) -> Seq<u8> {
    encode_utf8(s).push(0u8)
}

/// The UTF-8 encoding of a single character holds a zero byte exactly when
/// the character is NUL.
proof fn lemma_encode_scalar_zero(c: char)
    ensures
        encode_scalar(c as u32).contains(0u8) <==> c == '\0',
{
    let v = c as u32;
    char_is_scalar(c);
    let e = encode_scalar(v);
    if has_width_1_encoding(v) {
        assert(leading_byte_width_1(v) == 0 <==> v == 0) by (bit_vector)
            requires
                v <= 0x7F,
        ;
        assert(e[0] == leading_byte_width_1(v));
        if e.contains(0u8) {
            let i = choose|i: int| 0 <= i < e.len() && e[i] == 0u8;
            assert(i == 0);
        }
    } else {
        assert(leading_byte_width_2(v) != 0) by (bit_vector);
        assert(leading_byte_width_3(v) != 0) by (bit_vector);
        assert(leading_byte_width_4(v) != 0) by (bit_vector);
        assert(last_continuation_byte(v) != 0) by (bit_vector);
        assert(second_last_continuation_byte(v) != 0) by (bit_vector);
        assert(third_last_continuation_byte(v) != 0) by (bit_vector);
        assert(!e.contains(0u8));
        assert(c != '\0');
    }
}

/// The UTF-8 encoding of a text holds a zero byte exactly when the text holds
/// the NUL character.
pub proof fn lemma_encode_utf8_zero(s: Seq<char>)
    ensures
        encode_utf8(s).contains(0u8) <==> s.contains('\0'),
    decreases s.len(),
{
    if s.len() == 0 {
        assert(encode_utf8(s) =~= Seq::<u8>::empty());
    } else {
        let head = encode_scalar(s[0] as u32);
        let tail = encode_utf8(s.drop_first());
        lemma_encode_utf8_zero(s.drop_first());
        lemma_encode_scalar_zero(s[0]);
        let e = encode_utf8(s);
        assert(e =~= head + tail);
        if e.contains(0u8) {
            let i = choose|i: int| 0 <= i < e.len() && e[i] == 0u8;
            if i < head.len() {
                assert(head[i] == 0u8);
                assert(s[0] == '\0');
            } else {
                assert(tail[i - head.len()] == 0u8);
                let j = choose|j: int| 0 <= j < s.drop_first().len() && s.drop_first()[j] == '\0';
                assert(s[j + 1] == '\0');
            }
        }
        if s.contains('\0') {
            let j = choose|j: int| 0 <= j < s.len() && s[j] == '\0';
            if j == 0 {
                let i = choose|i: int| 0 <= i < head.len() && head[i] == 0u8;
                assert(e[i] == 0u8);
            } else {
                assert(s.drop_first()[j - 1] == '\0');
                let i = choose|i: int| 0 <= i < tail.len() && tail[i] == 0u8;
                assert(e[head.len() + i] == 0u8);
            }
        }
    }
}

/// The C string for `s`, as `CString::new` makes it: `None` when `s` holds a
/// NUL character, which a C string cannot carry; otherwise the UTF-8 bytes of
/// `s` and a closing NUL.
pub fn to_c_string(s: &str) -> (r: Option<Vec<u8>>)
    ensures
        r is Some <==> !s@.contains('\0'),
        r matches Some(b) ==> b@ == c_bytes(s@),
{
    let bytes = s.as_bytes();
    let n = bytes.len();
    let mut out: Vec<u8> = Vec::new();
    let mut i: usize = 0;
    while i < n
        invariant
            n == bytes@.len(),
            bytes@ == encode_utf8(s@),
            i <= n,
            out@ == bytes@.subrange(0, i as int),
            forall|k: int| 0 <= k < i ==> bytes@[k] != 0u8,
        decreases n - i,
    {
        if bytes[i] == 0u8 {
            proof {
                lemma_encode_utf8_zero(s@);
                assert(encode_utf8(s@)[i as int] == 0u8);
            }
            return None;
        }
        out.push(bytes[i]);
        i = i + 1;
        assert(out@ =~= bytes@.subrange(0, i as int));
    }
    proof {
        lemma_encode_utf8_zero(s@);
        assert(bytes@.subrange(0, n as int) =~= bytes@);
        assert(!encode_utf8(s@).contains(0u8)) by {
            if encode_utf8(s@).contains(0u8) {
                let k = choose|k: int| 0 <= k < n && bytes@[k] == 0u8;
            }
        }
    }
    out.push(0u8);
    Some(out)
}

/// A C string made by `to_c_string` ends in its only NUL byte, and the bytes
/// before it decode as UTF-8 to the original text.
pub proof fn lemma_c_bytes_round_trip(s: Seq<char>)
    requires
        !s.contains('\0'),
    ensures
        c_bytes(s).last() == 0u8,
        forall|i: int| 0 <= i < c_bytes(s).len() - 1 ==> #[trigger] c_bytes(s)[i] != 0u8,
        decode_utf8(c_bytes(s).drop_last()) == s,
{
    lemma_encode_utf8_zero(s);
    encode_utf8_decode_utf8(s);
    assert(c_bytes(s).drop_last() =~= encode_utf8(s));
    assert forall|i: int| 0 <= i < c_bytes(s).len() - 1 implies #[trigger] c_bytes(s)[i] != 0u8 by {
        assert(c_bytes(s)[i] == encode_utf8(s)[i]);
    }
}

} // verus!
