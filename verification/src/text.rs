//! Small text utilities: string equality, the cursor codec, and rebuilding
//! a `String` from UTF-8 bytes.
//!
//! Cursors are opaque decimal strings at the API boundary; numerically they
//! are unsigned 64-bit byte offsets into a session's append stream.

use vstd::prelude::*;

use crate::errors::{ApiError, ApiResult, ErrorCode};
use vstd::string::StringSliceAdditionalSpecFns;

verus! {

/// String equality over the character sequences.
pub fn str_eq(a: &str, b: &str) -> (r: bool)
    ensures
        r == (a@ == b@),
{
    let owned_a: String = a.to_owned();
    let owned_b: String = b.to_owned();
    owned_a == owned_b
}

/// Relies on String::from_utf8: it accepts exactly the valid UTF-8 byte
/// sequences and decodes them; the resulting string re-encodes to the
/// input bytes.
#[verifier::external_body]
fn string_from_utf8(v: Vec<u8>) -> (r: Option<String>)
    ensures
        r is Some <==> vstd::utf8::valid_utf8(v@),
        r is Some ==> r.unwrap()@ == vstd::utf8::decode_utf8(v@),
{
    String::from_utf8(v).ok()
}

/// Whether every byte is an ASCII decimal digit.
pub open spec fn all_digits(s: Seq<u8>) -> bool {
    forall|i: int| 0 <= i < s.len() ==> 48 <= #[trigger] s[i] <= 57
}

/// The number the digit bytes spell in base 10.
pub open spec fn digits_value(s: Seq<u8>) -> int
    decreases s.len(),
{
    if s.len() == 0 {
        0
    } else {
        digits_value(s.drop_last()) * 10 + (s.last() - 48)
    }
}

/// The canonical decimal digits of `n`, most significant first.
pub open spec fn dec_bytes_spec(n: u64) -> Seq<u8>
    decreases n,
{
    if n < 10 {
        seq![(48 + n) as u8]
    } else {
        dec_bytes_spec(n / 10).push((48 + n % 10) as u8)
    }
}

proof fn lemma_digits_value_prefix(s: Seq<u8>, i: int)
    requires
        all_digits(s),
        0 <= i <= s.len(),
    ensures
        digits_value(s.take(i)) <= digits_value(s),
    decreases s.len() - i,
{
    if i < s.len() {
        lemma_digits_value_prefix(s, i + 1);
        assert(s.take(i + 1).drop_last() =~= s.take(i));
        assert(s.take(i + 1).last() == s[i]);
        assert(all_digits(s.take(i))) by {
            assert(forall|j: int| 0 <= j < i ==> s.take(i)[j] == s[j]);
        }
        lemma_digits_value_nonneg(s.take(i));
        assert(digits_value(s.take(i + 1)) >= digits_value(s.take(i)));
    } else {
        assert(s.take(i) =~= s);
    }
}

proof fn lemma_digits_value_nonneg(s: Seq<u8>)
    requires
        all_digits(s),
    ensures
        digits_value(s) >= 0,
    decreases s.len(),
{
    if s.len() > 0 {
        assert(all_digits(s.drop_last())) by {
            assert(forall|i: int| 0 <= i < s.len() - 1 ==> s.drop_last()[i] == s[i]);
        }
        lemma_digits_value_nonneg(s.drop_last());
    }
}

/// Parse a cursor: a non-empty string of decimal digits whose value fits in
/// 64 bits.  Anything else is refused with `invalid_argument`.
pub fn parse_cursor(cursor: &str) -> (r: ApiResult<u64>)
    ensures
        r is Ok <==> (cursor.spec_bytes().len() > 0 && all_digits(cursor.spec_bytes())
            && digits_value(cursor.spec_bytes()) <= u64::MAX),
        r is Ok ==> r.unwrap() == digits_value(cursor.spec_bytes()),
        r is Err ==> r.unwrap_err().error_code == ErrorCode::InvalidArgument
            && r.unwrap_err().message@ == "Invalid cursor value"@,
    {
    let bytes = cursor.as_bytes();
    let ghost s = cursor.spec_bytes();
    if bytes.len() == 0 {
        return Err(ApiError::new(ErrorCode::InvalidArgument, "Invalid cursor value".to_owned()));
    }
    let mut value: u64 = 0;
    let mut i: usize = 0;
    proof {
        assert(s.take(0) =~= Seq::<u8>::empty());
    }
    while i < bytes.len()
        invariant
            i <= s.len(),
            s == cursor.spec_bytes(),
            bytes@ == s,
            all_digits(s.take(i as int)),
            value == digits_value(s.take(i as int)),
        decreases s.len() - i,
    {
        let b = bytes[i];
        if b < 48 || b > 57 {
            proof {
                assert(!all_digits(s)) by {
                    assert(s[i as int] == b);
                }
            }
            return Err(
                ApiError::new(ErrorCode::InvalidArgument, "Invalid cursor value".to_owned()),
            );
        }
        let d = (b - 48) as u64;
        if value > (u64::MAX - d) / 10 {
            proof {
                assert(s.take(i + 1).drop_last() =~= s.take(i as int));
                assert(s.take(i + 1).last() == s[i as int]);
                assert(digits_value(s.take(i + 1)) > u64::MAX);
                if all_digits(s) {
                    lemma_digits_value_prefix(s, i + 1);
                }
            }
            return Err(
                ApiError::new(ErrorCode::InvalidArgument, "Invalid cursor value".to_owned()),
            );
        }
        value = value * 10 + d;
        i = i + 1;
        proof {
            assert(s.take(i as int).drop_last() =~= s.take(i - 1));
            assert(s.take(i as int).last() == s[i - 1]);
            assert(forall|j: int|
                0 <= j < i ==> 48 <= #[trigger] s.take(i as int)[j] <= 57);
        }
    }
    proof {
        assert(s.take(s.len() as int) =~= s);
    }
    Ok(value)
}

/// Format a cursor as its canonical decimal digits.
pub fn format_cursor(cursor: u64) -> (r: String)
    ensures
        vstd::utf8::encode_utf8(r@) == dec_bytes_spec(cursor),
        r@ == dec_chars_spec(cursor),
{
    let mut digits_rev: Vec<u8> = Vec::new();
    let mut x = cursor;
    proof {
        assert(Seq::<u8>::empty().reverse() =~= Seq::<u8>::empty());
        assert(dec_bytes_spec(cursor) =~= dec_bytes_spec(cursor) + Seq::<u8>::empty());
    }
    loop
        invariant_except_break
            dec_bytes_spec(cursor) == dec_bytes_spec(x) + digits_rev@.reverse(),
            all_digits(digits_rev@),
        ensures
            dec_bytes_spec(cursor) == digits_rev@.reverse(),
            all_digits(digits_rev@),
        decreases x,
    {
        let d = ((x % 10) as u8) + 48;
        let ghost pre = digits_rev@;
        digits_rev.push(d);
        proof {
            if x < 10 {
                assert(dec_bytes_spec(x) =~= seq![d]);
                assert(digits_rev@.reverse() =~= seq![d] + pre.reverse());
            } else {
                assert(dec_bytes_spec(x) =~= dec_bytes_spec(x / 10).push(d));
                assert(digits_rev@.reverse() =~= seq![d] + pre.reverse());
                assert(dec_bytes_spec(x / 10) + digits_rev@.reverse() =~= dec_bytes_spec(x)
                    + pre.reverse());
            }
            assert(all_digits(digits_rev@)) by {
                assert(forall|j: int|
                    0 <= j < pre.len() ==> digits_rev@[j] == pre[j]);
            }
        }
        x = x / 10;
        if x == 0 {
            break ;
        }
    }
    let mut out: Vec<u8> = Vec::new();
    let n = digits_rev.len();
    let mut i: usize = 0;
    proof {
        assert(digits_rev@.reverse().take(0) =~= Seq::<u8>::empty());
    }
    while i < n
        invariant
            i <= n,
            n == digits_rev@.len(),
            out@ == digits_rev@.reverse().take(i as int),
            all_digits(digits_rev@),
        decreases n - i,
    {
        let value = digits_rev[n - 1 - i];
        out.push(value);
        i = i + 1;
        proof {
            assert(digits_rev@.reverse().take(i as int) =~= digits_rev@.reverse().take(i - 1).push(
                digits_rev@[n - 1 - (i - 1)],
            ));
        }
    }
    let ghost out_view = out@;
    proof {
        assert(out_view =~= digits_rev@.reverse());
        assert(all_digits(out_view)) by {
            assert(forall|j: int|
                0 <= j < out_view.len() ==> out_view[j] == digits_rev@[out_view.len() - 1 - j]);
        }
        lemma_ascii_valid_utf8(out_view);
    }
    let converted = string_from_utf8(out);
    match converted {
        Some(text) => {
            proof {
                vstd::utf8::decode_utf8_encode_utf8(out_view);
            }
            text
        },
        None => String::new(),
    }
}

/// The decimal digits of `n` as characters.
pub open spec fn dec_chars_spec(n: u64) -> Seq<char> {
    vstd::utf8::decode_utf8(dec_bytes_spec(n))
}

/// Every all-ASCII byte sequence is valid UTF-8.
proof fn lemma_ascii_valid_utf8(s: Seq<u8>)
    requires
        forall|i: int| 0 <= i < s.len() ==> #[trigger] s[i] < 128,
    ensures
        vstd::utf8::valid_utf8(s),
{
    assert(vstd::utf8::partial_valid_utf8(s, 0)) by {
        assert(s.subrange(0, 0) =~= Seq::<u8>::empty());
    }
    assert(forall|i: int|
        0 <= i < s.len() ==> vstd::utf8::is_leading_byte_width_1(#[trigger] s[i]));
    vstd::utf8::partial_valid_utf8_extend_ascii_block(s, 0, s.len() as int);
    assert(s.subrange(0, s.len() as int) =~= s);
}

} // verus!
