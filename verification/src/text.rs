//! Byte- and character-level helpers shared by the request rules: decimal
//! parsing and printing, prefix tests and joining.

use vstd::prelude::*;
use vstd::string::StringSliceAdditionalSpecFns;
use vstd::utf8::{encode_utf8, is_ascii_chars, is_ascii_chars_encode_utf8};

verus! {

/// An ASCII decimal digit, `'0'..='9'`.
pub open spec fn is_digit(b: u8) -> bool {
    48 <= b && b <= 57
}

/// The value of a string of ASCII decimal digits, most significant first.
pub open spec fn digits_value(ds: Seq<u8>) -> nat
    decreases ds.len(),
{
    if ds.len() == 0 {
        0
    } else {
        digits_value(ds.drop_last()) * 10 + (ds.last() - 48) as nat
    }
}

/// The digits of an unsigned decimal literal: one leading `+` is dropped.
pub open spec fn unsigned_digits(bytes: Seq<u8>) -> Seq<u8> {
    if bytes.len() > 0 && bytes[0] == 43 {
        bytes.drop_first()
    } else {
        bytes
    }
}

/// Every byte of `ds` is a decimal digit.
pub open spec fn all_digits(ds: Seq<u8>) -> bool {
    forall|i: int| 0 <= i < ds.len() ==> is_digit(#[trigger] ds[i])
}

/// What `usize::from_str` gives for a UTF-8 text: an optional `+`, then at
/// least one decimal digit, with a value that fits in a `usize`.
pub open spec fn spec_parse_usize(bytes: Seq<u8>) -> Option<usize> {
    let ds = unsigned_digits(bytes);
    if ds.len() > 0 && all_digits(ds) && digits_value(ds) <= usize::MAX {
        Some(digits_value(ds) as usize)
    } else {
        None
    }
}

/// The ASCII bytes of the decimal form of a number, without leading zeros.
pub open spec fn decimal_bytes(n: nat) -> Seq<u8>
    decreases n,
{
    if n < 10 {
        seq![(48 + n) as u8]
    } else {
        decimal_bytes(n / 10).push((48 + n % 10) as u8)
    }
}

/// The decimal form of a number is a non-empty string of digits whose value
/// is the number.
pub proof fn lemma_decimal_bytes(n: nat)
    ensures
        decimal_bytes(n).len() > 0,
        all_digits(decimal_bytes(n)),
        digits_value(decimal_bytes(n)) == n,
    decreases n,
{
    if n < 10 {
        let one = seq![(48 + n) as u8];
        assert(one.drop_last() =~= Seq::<u8>::empty());
        assert(digits_value(Seq::<u8>::empty()) == 0);
        assert(digits_value(one) == digits_value(one.drop_last()) * 10 + (one.last() - 48) as nat);
    } else {
        lemma_decimal_bytes(n / 10);
        let front = decimal_bytes(n / 10);
        let d = (48 + n % 10) as u8;
        assert(front.push(d).drop_last() =~= front);
        assert(all_digits(front.push(d))) by {
            assert forall|i: int| 0 <= i < front.push(d).len() implies is_digit(
                #[trigger] front.push(d)[i],
            ) by {
                if i < front.len() {
                    assert(front.push(d)[i] == front[i]);
                }
            }
        }
        assert(front.push(d).last() == d);
        assert(digits_value(front.push(d)) == digits_value(front) * 10 + (d - 48) as nat);
        assert((d - 48) as nat == n % 10);
        assert((n / 10) * 10 + n % 10 == n);
    }
}

/// Parsing gives back every number from its decimal form: any `usize`
/// written in decimal parses as itself.
pub proof fn lemma_parse_decimal(n: nat)
    requires
        n <= usize::MAX,
    ensures
        spec_parse_usize(decimal_bytes(n)) == Some(n as usize),
{
    lemma_decimal_bytes(n);
    let ds = decimal_bytes(n);
    assert(is_digit(ds[0]));
    assert(unsigned_digits(ds) == ds);
}

/// A text is parsed as a number exactly when it is an optional `+` and then
/// digits whose value fits, and the number is that value; a text starting
/// with anything but a digit or `+` never parses.
pub proof fn lemma_parse_usize_meaning(bytes: Seq<u8>)
    ensures
        spec_parse_usize(bytes) matches Some(n) ==> {
            let ds = if bytes.len() > 0 && bytes[0] == 43 {
                bytes.drop_first()
            } else {
                bytes
            };
            &&& ds.len() > 0
            &&& forall|i: int| 0 <= i < ds.len() ==> 48 <= #[trigger] ds[i] <= 57
            &&& digits_value(ds) == n
        },
        bytes.len() == 0 ==> spec_parse_usize(bytes) is None,
        bytes.len() > 0 && bytes[0] != 43 && !(48 <= bytes[0] <= 57) ==> spec_parse_usize(bytes) is None,
{
    if bytes.len() > 0 && bytes[0] != 43 && !(48 <= bytes[0] <= 57) {
        assert(!is_digit(unsigned_digits(bytes)[0]));
    }
}

/// A prefix of a digit string never has a larger value than the whole.
proof fn lemma_digits_value_prefix(ds: Seq<u8>, k: int)
    requires
        all_digits(ds),
        0 <= k <= ds.len(),
    ensures
        digits_value(ds.take(k)) <= digits_value(ds),
    decreases ds.len(),
{
    if k < ds.len() {
        let front = ds.drop_last();
        assert(front.take(k) =~= ds.take(k));
        assert(all_digits(front)) by {
            assert forall|i: int| 0 <= i < front.len() implies is_digit(#[trigger] front[i]) by {
                assert(front[i] == ds[i]);
            }
        }
        lemma_digits_value_prefix(front, k);
    } else {
        assert(ds.take(k) =~= ds);
    }
}

/// Parses a decimal `usize` the way `str::parse::<usize>` does.
pub fn parse_usize(s: &str) -> (r: Option<usize>)
    ensures
        r == spec_parse_usize(s.spec_bytes()),
{
    let bytes = s.as_bytes();
    let n = bytes.len();
    let start: usize = if n > 0 && bytes[0] == 43 { 1 } else { 0 };
    let ghost ds = unsigned_digits(bytes@);
    assert(ds =~= bytes@.subrange(start as int, n as int));
    if start == n {
        return None;
    }
    let mut value: usize = 0;
    let mut i = start;
    assert(bytes@.subrange(start as int, start as int) =~= Seq::<u8>::empty());
    while i < n
        invariant
            start <= i <= n,
            n == bytes@.len(),
            bytes@ == s.spec_bytes(),
            ds == unsigned_digits(bytes@),
            ds == bytes@.subrange(start as int, n as int),
            forall|j: int| start <= j < i ==> is_digit(#[trigger] bytes@[j]),
            value == digits_value(bytes@.subrange(start as int, i as int)),
        decreases n - i,
    {
        let b = bytes[i];
        if b < 48 || b > 57 {
            assert(!all_digits(ds)) by {
                assert(ds[i - start] == b);
            }
            return None;
        }
        let d = (b - 48) as usize;
        let ghost next = bytes@.subrange(start as int, i + 1);
        assert(next.drop_last() =~= bytes@.subrange(start as int, i as int));
        match value.checked_mul(10) {
            Some(tens) => {
                match tens.checked_add(d) {
                    Some(v) => {
                        value = v;
                    },
                    None => {
                        proof {
                            if all_digits(ds) {
                                assert(ds.take(i + 1 - start) =~= next);
                                lemma_digits_value_prefix(ds, i + 1 - start);
                            }
                        }
                        return None;
                    },
                }
            },
            None => {
                proof {
                    if all_digits(ds) {
                        assert(ds.take(i + 1 - start) =~= next);
                        lemma_digits_value_prefix(ds, i + 1 - start);
                    }
                }
                return None;
            },
        }
        i = i + 1;
    }
    assert(all_digits(ds)) by {
        assert forall|j: int| 0 <= j < ds.len() implies is_digit(#[trigger] ds[j]) by {
            assert(ds[j] == bytes@[j + start]);
        }
    }
    Some(value)
}

/// Whether two texts are the same.
pub fn str_eq(a: &str, b: &str) -> (r: bool)
    ensures
        r == (a@ == b@),
{
    a.to_owned() == b.to_owned()
}

/// The lowercase form of a text, as Unicode defines it.
pub uninterp spec fn lowercase(s: Seq<char>) -> Seq<char>;

/// The lowercase form of `s`.
///
/// Trusted: `str::to_lowercase`. The contract names the result and claims
/// nothing more; how Unicode maps each character is left unsaid.
#[verifier::external_body]
pub(crate) fn to_lowercase(s: &str) -> (r: String)
    ensures
        r@ == lowercase(s@),
{
    s.to_lowercase()
}

/// The character of a decimal digit.
pub open spec fn digit_char(d: nat) -> char {
    if d == 0 {
        '0'
    } else if d == 1 {
        '1'
    } else if d == 2 {
        '2'
    } else if d == 3 {
        '3'
    } else if d == 4 {
        '4'
    } else if d == 5 {
        '5'
    } else if d == 6 {
        '6'
    } else if d == 7 {
        '7'
    } else if d == 8 {
        '8'
    } else {
        '9'
    }
}

/// The decimal form of a number, without leading zeros.
pub open spec fn decimal_text(n: nat) -> Seq<char>
    decreases n,
{
    if n < 10 {
        seq![digit_char(n)]
    } else {
        decimal_text(n / 10) + seq![digit_char(n % 10)]
    }
}

fn digit_str(d: usize) -> (s: &'static str)
    requires
        d < 10,
    ensures
        s@ == seq![digit_char(d as nat)],
{
    if d == 0 {
        proof { reveal_strlit("0"); }
        "0"
    } else if d == 1 {
        proof { reveal_strlit("1"); }
        "1"
    } else if d == 2 {
        proof { reveal_strlit("2"); }
        "2"
    } else if d == 3 {
        proof { reveal_strlit("3"); }
        "3"
    } else if d == 4 {
        proof { reveal_strlit("4"); }
        "4"
    } else if d == 5 {
        proof { reveal_strlit("5"); }
        "5"
    } else if d == 6 {
        proof { reveal_strlit("6"); }
        "6"
    } else if d == 7 {
        proof { reveal_strlit("7"); }
        "7"
    } else if d == 8 {
        proof { reveal_strlit("8"); }
        "8"
    } else {
        proof { reveal_strlit("9"); }
        "9"
    }
}

/// Appends the decimal form of `n` to `out`.
pub fn push_decimal(out: &mut String, n: usize)
    ensures
        final(out)@ == old(out)@ + decimal_text(n as nat),
    decreases n,
{
    if n >= 10 {
        push_decimal(out, n / 10);
    }
    out.append(digit_str(n % 10));
    assert(decimal_text(n as nat) == (if n < 10 {
        seq![digit_char(n as nat)]
    } else {
        decimal_text((n / 10) as nat) + seq![digit_char((n % 10) as nat)]
    }));
}

/// What `push_decimal` writes is the number's decimal form: its UTF-8 bytes
/// are the digits that parse back as the number.
pub proof fn lemma_decimal_text_bytes(n: nat)
    ensures
        encode_utf8(decimal_text(n)) == decimal_bytes(n),
        n <= usize::MAX ==> spec_parse_usize(encode_utf8(decimal_text(n))) == Some(n as usize),
{
    lemma_decimal_text_ascii(n);
    is_ascii_chars_encode_utf8(decimal_text(n));
    assert(encode_utf8(decimal_text(n)) =~= decimal_bytes(n));
    if n <= usize::MAX {
        lemma_parse_decimal(n);
    }
}

proof fn lemma_digit_char_byte(d: nat)
    requires
        d < 10,
    ensures
        digit_char(d) as u8 == (48 + d) as u8,
        '\0' <= digit_char(d) <= '\u{7f}',
{
}

proof fn lemma_decimal_text_ascii(n: nat)
    ensures
        is_ascii_chars(decimal_text(n)),
        decimal_text(n).len() == decimal_bytes(n).len(),
        forall|i: int| 0 <= i < decimal_text(n).len() ==> (#[trigger] decimal_text(n)[i]) as u8 == decimal_bytes(n)[i],
    decreases n,
{
    if n < 10 {
        lemma_digit_char_byte(n);
    } else {
        lemma_decimal_text_ascii(n / 10);
        lemma_digit_char_byte(n % 10);
        let front = decimal_text(n / 10);
        let t = front + seq![digit_char(n % 10)];
        assert(decimal_text(n) == t);
        assert forall|i: int| 0 <= i < t.len() implies '\0' <= #[trigger] t[i] <= '\u{7f}' by {
            if i < front.len() {
                assert(t[i] == front[i]);
            }
        }
        assert forall|i: int| 0 <= i < t.len() implies (#[trigger] t[i]) as u8 == decimal_bytes(n)[i] by {
            if i < front.len() {
                assert(t[i] == front[i]);
            }
        }
    }
}

/// The parts written one after the other with `sep` between each two.
pub open spec fn join(parts: Seq<Seq<char>>, sep: Seq<char>) -> Seq<char>
    decreases parts.len(),
{
    if parts.len() == 0 {
        Seq::empty()
    } else if parts.len() == 1 {
        parts[0]
    } else {
        join(parts.drop_last(), sep) + sep + parts.last()
    }
}

/// Joining one more part adds the separator only after a first part.
pub proof fn lemma_join_push(parts: Seq<Seq<char>>, sep: Seq<char>, part: Seq<char>)
    ensures
        join(parts.push(part), sep) == if parts.len() == 0 {
            part
        } else {
            join(parts, sep) + sep + part
        },
{
    assert(parts.push(part).drop_last() =~= parts);
}

} // verus!
