//! Text as the toolkit and the error messages need it: integers in decimal,
//! and strings in the null-terminated form that C expects.

use crate::error::{ErrorModel, MlxError};
use vstd::prelude::*;
use vstd::string::*;
use vstd::utf8::*;

verus! {

/// The character for one decimal digit.
pub open spec fn digit_char(d: int) -> char
    recommends
        0 <= d < 10,
{
    if d == 0 {
        '0'
    } else if d == 1 {
        '1'
    } else if d == 2 {
        '2'
    } else if d == 3 {
        '3'
    } else if d == 4 {
        '4'
    } else if d == 5 {
        '5'
    } else if d == 6 {
        '6'
    } else if d == 7 {
        '7'
    } else if d == 8 {
        '8'
    } else {
        '9'
    }
}

/// The decimal digits of a natural number, most significant first, without
/// leading zeros.
pub open spec fn decimal_digits(n: nat) -> Seq<char>
    decreases n,
{
    if n < 10 {
        seq![digit_char(n as int)]
    } else {
        decimal_digits(n / 10).push(digit_char((n % 10) as int))
    }
}

/// An integer in decimal, with a minus sign in front of a negative one.
pub open spec fn decimal(n: int) -> Seq<char> {
    if n < 0 {
        seq!['-'] + decimal_digits((-n) as nat)
    } else {
        decimal_digits(n as nat)
    }
}

fn digit_str(d: u32) -> (s: &'static str)
    requires
        d < 10,
    ensures
        s@ == seq![digit_char(d as int)],
{
    proof {
        reveal_strlit("0");
        reveal_strlit("1");
        reveal_strlit("2");
        reveal_strlit("3");
        reveal_strlit("4");
        reveal_strlit("5");
        reveal_strlit("6");
        reveal_strlit("7");
        reveal_strlit("8");
        reveal_strlit("9");
    }
    let s = if d == 0 {
        "0"
    } else if d == 1 {
        "1"
    } else if d == 2 {
        "2"
    } else if d == 3 {
        "3"
    } else if d == 4 {
        "4"
    } else if d == 5 {
        "5"
    } else if d == 6 {
        "6"
    } else if d == 7 {
        "7"
    } else if d == 8 {
        "8"
    } else {
        "9"
    };
    assert(s@ =~= seq![digit_char(d as int)]);
    s
}

fn digits_to_string(n: u32) -> (s: String)
    ensures
        s@ == decimal_digits(n as nat),
    decreases n,
{
    if n < 10 {
        digit_str(n).to_owned()
    } else {
        let head = digits_to_string(n / 10);
        let s = head.concat(digit_str(n % 10));
        assert(s@ =~= decimal_digits(n as nat));
        s
    }
}

/// Writes a 32-bit integer in decimal.
pub fn i32_to_string(n: i32) -> (s: String)
    ensures
        s@ == decimal(n as int),
{
    if n < 0 {
        let wide: i64 = n as i64;
        let magnitude: u32 = (-wide) as u32;
        proof {
            reveal_strlit("-");
        }
        let s = "-".to_owned().concat(digits_to_string(magnitude).as_str());
        assert(s@ =~= decimal(n as int));
        s
    } else {
        digits_to_string(n as u32)
    }
}

/// Whether the encoding of `text` holds a zero byte, which no C string can.
pub open spec fn has_nul(text: Seq<char>) -> bool {
    encode_utf8(text).contains(0u8)
}

/// The bytes of the C string for `text`: its encoding, then the terminating
/// zero.
pub open spec fn c_string(text: Seq<char>) -> Seq<u8> {
    encode_utf8(text).push(0u8)
}

/// The error for a text that cannot become a C string.
pub open spec fn c_string_failure(text: Seq<char>) -> ErrorModel {
    ErrorModel::Any("Error creating string "@ + text)
}

/// Marshals a string for the toolkit. A string with a zero byte inside is
/// refused, every other one comes back encoded and terminated.
pub fn create_c_str(s: &str) -> (r: Result<Vec<u8>, MlxError>)
    ensures
        has_nul(s@) ==> r is Err && r->Err_0@ == c_string_failure(s@),
        !has_nul(s@) ==> r is Ok && r->Ok_0@ == c_string(s@),
{
    let bytes = s.as_bytes();
    let mut out: Vec<u8> = Vec::new();
    let mut i: usize = 0;
    while i < bytes.len()
        invariant
            bytes@ == encode_utf8(s@),
            i <= bytes@.len(),
            out@ == bytes@.subrange(0, i as int),
            !out@.contains(0u8),
        decreases bytes@.len() - i,
    {
        let b: u8 = bytes[i];
        if b == 0 {
            assert(bytes@[i as int] == 0u8);
            return Err(MlxError::Any("Error creating string ".to_owned().concat(s)));
        }
        let ghost before = out@;
        out.push(b);
        i += 1;
        assert(out@ =~= bytes@.subrange(0, i as int));
        assert(!out@.contains(0u8)) by {
            if out@.contains(0u8) {
                let k = choose|k: int| 0 <= k < out@.len() && out@[k] == 0u8;
                if k < before.len() {
                    assert(before[k] == 0u8);
                    assert(before.contains(0u8));
                }
            }
        }
    }
    assert(out@ =~= bytes@);
    out.push(0);
    Ok(out)
}

/// A zero byte occurs in the encoding of a text exactly where the text holds
/// the character of code zero: no other character has a zero byte in its
/// encoding.
pub proof fn lemma_nul_byte_iff_nul_char(text: Seq<char>)
    ensures
        has_nul(text) <==> text.contains('\0'),
    decreases text.len(),
{
    if text.len() == 0 {
        assert(encode_utf8(text) =~= Seq::<u8>::empty());
    } else {
        let c = text[0] as u32;
        let head = encode_scalar(c);
        let rest = text.drop_first();
        lemma_nul_byte_iff_nul_char(rest);
        char_is_scalar(text[0]);
        lemma_scalar_nul(c);
        char_u32_cast(text[0], c);
        char_u32_cast('\0', 0u32);
        let whole = encode_utf8(text);
        assert(whole == head + encode_utf8(rest));
        if whole.contains(0u8) {
            let k = choose|k: int| 0 <= k < whole.len() && whole[k] == 0u8;
            if k < head.len() {
                assert(head[k] == 0u8);
                assert(head.contains(0u8));
                assert(text[0] == '\0');
            } else {
                assert(encode_utf8(rest)[k - head.len()] == 0u8);
                assert(encode_utf8(rest).contains(0u8));
                let j = choose|j: int| 0 <= j < rest.len() && rest[j] == '\0';
                assert(text[j + 1] == '\0');
            }
        }
        if text.contains('\0') {
            let j = choose|j: int| 0 <= j < text.len() && text[j] == '\0';
            if j == 0 {
                assert(head.contains(0u8));
                let k = choose|k: int| 0 <= k < head.len() && head[k] == 0u8;
                assert(whole[k] == 0u8);
            } else {
                assert(rest[j - 1] == '\0');
                assert(rest.contains('\0'));
                let k = choose|k: int|
                    0 <= k < encode_utf8(rest).len() && encode_utf8(rest)[k] == 0u8;
                assert(whole[head.len() + k] == 0u8);
            }
        }
    }
}

proof fn lemma_scalar_nul(c: u32)
    requires
        is_scalar(c),
    ensures
        encode_scalar(c).contains(0u8) <==> c == 0,
{
    let e = encode_scalar(c);
    assert(c == 0 ==> leading_byte_width_1(c) == 0u8) by (bit_vector);
    assert(has_width_1_encoding(c) && c != 0 ==> leading_byte_width_1(c) != 0u8) by (bit_vector);
    assert(leading_byte_width_2(c) != 0u8) by (bit_vector);
    assert(leading_byte_width_3(c) != 0u8) by (bit_vector);
    assert(leading_byte_width_4(c) != 0u8) by (bit_vector);
    assert(last_continuation_byte(c) != 0u8) by (bit_vector);
    assert(second_last_continuation_byte(c) != 0u8) by (bit_vector);
    assert(third_last_continuation_byte(c) != 0u8) by (bit_vector);
    if c == 0 {
        assert(e[0] == 0u8);
    }
    if e.contains(0u8) {
        let k = choose|k: int| 0 <= k < e.len() && e[k] == 0u8;
        assert(e[k] == 0u8);
    }
}

} // verus!
