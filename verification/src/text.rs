//! Verified text utilities: decimal rendering of integers, decimal parsing of
//! signed 64-bit values, joining of channel names, and small trusted shims
//! over `str` operations that vstd does not specify.

use vstd::prelude::*;
use vstd::string::*;

verus! {

/// Relies on `str`'s `PartialEq`: two string slices are equal exactly when
/// their character sequences are equal.
#[verifier::external_body]
pub(crate) fn str_eq(a: &str, b: &str) -> (r: bool)
    ensures
        r == (a@ == b@),
{
    a == b
}

/// The lowercase form that `str::to_lowercase` produces, as a function of the
/// characters alone.
pub uninterp spec fn lower_of(s: Seq<char>) -> Seq<char>;

/// Relies on `str::to_lowercase`: the result depends on the characters alone.
#[verifier::external_body]
pub(crate) fn to_lowercase(s: &str) -> (r: String)
    ensures
        r@ == lower_of(s@),
{
    s.to_lowercase()
}

/// The decimal digit character for `d`.
pub open spec fn spec_digit_char(d: int) -> char {
    if d == 0 {
        '0'
    } else if d == 1 {
        '1'
    } else if d == 2 {
        '2'
    } else if d == 3 {
        '3'
    } else if d == 4 {
        '4'
    } else if d == 5 {
        '5'
    } else if d == 6 {
        '6'
    } else if d == 7 {
        '7'
    } else if d == 8 {
        '8'
    } else {
        '9'
    }
}

/// The decimal rendering of a nonnegative integer, most significant digit
/// first, with no leading zeros (a single `'0'` for zero).
pub open spec fn spec_u64_dec(n: nat) -> Seq<char>
    decreases n,
{
    if n < 10 {
        seq![spec_digit_char(n as int)]
    } else {
        spec_u64_dec(n / 10).push(spec_digit_char((n % 10) as int))
    }
}

/// The decimal rendering of a signed integer: a minus sign for negative
/// values, then the digits of the magnitude.
pub open spec fn spec_i64_dec(v: int) -> Seq<char> {
    if v < 0 {
        seq!['-'] + spec_u64_dec((-v) as nat)
    } else {
        spec_u64_dec(v as nat)
    }
}

fn digit_str(d: u64) -> (r: &'static str)
    requires
        d < 10,
    ensures
        r@ =~= seq![spec_digit_char(d as int)],
{
    proof {
        reveal_strlit("0");
        reveal_strlit("1");
        reveal_strlit("2");
        reveal_strlit("3");
        reveal_strlit("4");
        reveal_strlit("5");
        reveal_strlit("6");
        reveal_strlit("7");
        reveal_strlit("8");
        reveal_strlit("9");
    }
    match d {
        0 => "0",
        1 => "1",
        2 => "2",
        3 => "3",
        4 => "4",
        5 => "5",
        6 => "6",
        7 => "7",
        8 => "8",
        _ => "9",
    }
}

/// Renders `n` in decimal.
pub fn u64_to_dec(n: u64) -> (r: String)
    ensures
        r@ == spec_u64_dec(n as nat),
    decreases n,
{
    if n < 10 {
        let r = digit_str(n).to_owned();
        proof {
            assert(r@ =~= spec_u64_dec(n as nat));
        }
        r
    } else {
        let mut s = u64_to_dec(n / 10);
        s.append(digit_str(n % 10));
        proof {
            assert(s@ =~= spec_u64_dec(n as nat));
        }
        s
    }
}

/// Renders `v` in decimal, with a leading minus sign when negative.
pub fn i64_to_dec(v: i64) -> (r: String)
    ensures
        r@ == spec_i64_dec(v as int),
{
    if v >= 0 {
        u64_to_dec(v as u64)
    } else {
        let magnitude: u64 = (-(v as i128)) as u64;
        assert(magnitude == -(v as int));
        let mut s = "-".to_owned();
        let digits = u64_to_dec(magnitude);
        s.append(digits.as_str());
        proof {
            reveal_strlit("-");
            assert(s@ =~= spec_i64_dec(v as int));
        }
        s
    }
}

/// True for the ten decimal digit characters.
pub open spec fn spec_is_digit(c: char) -> bool {
    '0' <= c && c <= '9'
}

/// The numeric value of a digit character.
pub open spec fn spec_digit_val(c: char) -> int {
    c as int - 48
}

/// True when `s` is one or more decimal digits and nothing else.
pub open spec fn spec_all_digits(s: Seq<char>) -> bool {
    s.len() > 0 && forall|i: int| 0 <= i < s.len() ==> spec_is_digit(#[trigger] s[i])
}

/// The value of a digit string, most significant digit first.
pub open spec fn spec_digits_val(s: Seq<char>) -> int
    decreases s.len(),
{
    if s.len() == 0 {
        0
    } else {
        spec_digits_val(s.drop_last()) * 10 + spec_digit_val(s.last())
    }
}

/// The signed 64-bit value a string denotes in decimal, if any: an optional
/// minus sign followed by digits, with the value in range for `i64`.
pub open spec fn spec_parse_i64(s: Seq<char>) -> Option<int> {
    if s.len() > 0 && s[0] == '-' {
        if spec_all_digits(s.skip(1)) && -spec_digits_val(s.skip(1)) >= i64::MIN {
            Some(-spec_digits_val(s.skip(1)))
        } else {
            None
        }
    } else {
        if spec_all_digits(s) && spec_digits_val(s) <= i64::MAX {
            Some(spec_digits_val(s))
        } else {
            None
        }
    }
}

proof fn lemma_digits_val_nonneg(s: Seq<char>)
    requires
        forall|i: int| 0 <= i < s.len() ==> spec_is_digit(#[trigger] s[i]),
    ensures
        spec_digits_val(s) >= 0,
    decreases s.len(),
{
    if s.len() > 0 {
        lemma_digits_val_nonneg(s.drop_last());
    }
}

proof fn lemma_digits_val_extend(p: Seq<char>, s: Seq<char>)
    requires
        p.len() <= s.len(),
        s.subrange(0, p.len() as int) == p,
        forall|i: int| 0 <= i < s.len() ==> spec_is_digit(#[trigger] s[i]),
    ensures
        spec_digits_val(s) >= spec_digits_val(p),
    decreases s.len() - p.len(),
{
    if p.len() == s.len() {
        assert(s =~= p);
    } else {
        let shorter = s.drop_last();
        assert(shorter.subrange(0, p.len() as int) =~= s.subrange(0, p.len() as int));
        lemma_digits_val_extend(p, shorter);
        lemma_digits_val_nonneg(shorter);
    }
}

/// Parses a decimal `i64`, accepting exactly the strings that denote a value
/// in range: an optional minus sign followed by one or more digits.
pub fn parse_dec_i64(s: &str) -> (r: Option<i64>)
    ensures
        match r {
            Some(v) => spec_parse_i64(s@) == Some(v as int),
            None => spec_parse_i64(s@) is None,
        },
{
    let n = s.unicode_len();
    let negative = n > 0 && s.get_char(0) == '-';
    let start: usize = if negative {
        1
    } else {
        0
    };
    let ghost digits: Seq<char> = if negative {
        s@.skip(1)
    } else {
        s@
    };
    let limit: u64 = if negative {
        9223372036854775808
    } else {
        9223372036854775807
    };
    if n == start {
        // No digits at all.
        assert(!spec_all_digits(digits));
        return None;
    }
    let mut acc: u64 = 0;
    let mut i: usize = start;
    while i < n
        invariant
            start <= i <= n,
            n == s@.len(),
            start == if negative {
                1int
            } else {
                0int
            },
            negative ==> s@[0] == '-',
            !negative ==> (s@.len() == 0 || s@[0] != '-'),
            digits == if negative {
                s@.skip(1)
            } else {
                s@
            },
            n > start,
            limit == if negative {
                9223372036854775808u64
            } else {
                9223372036854775807u64
            },
            forall|k: int| start <= k < i ==> spec_is_digit(#[trigger] s@[k]),
            acc <= limit,
            acc == spec_digits_val(s@.subrange(start as int, i as int)),
        decreases n - i,
    {
        let c = s.get_char(i);
        if c < '0' || c > '9' {
            assert(!spec_is_digit(digits[i - start]));
            return None;
        }
        let d: u64 = (c as u32 as u64) - 48;
        assert(d <= 9 && d == spec_digit_val(c)) by {
            assert('0' <= c <= '9');
        };
        let next: u128 = (acc as u128) * 10 + (d as u128);
        proof {
            let prefix = s@.subrange(start as int, i as int);
            let extended = s@.subrange(start as int, i + 1 as int);
            assert(extended.drop_last() =~= prefix);
            assert(extended.last() == c);
            assert(next == spec_digits_val(extended));
        }
        if next > limit as u128 {
            proof {
                let extended = s@.subrange(start as int, i + 1 as int);
                if spec_all_digits(digits) {
                    assert(digits.subrange(0, extended.len() as int) =~= extended);
                    lemma_digits_val_extend(extended, digits);
                }
            }
            return None;
        }
        acc = next as u64;
        i = i + 1;
    }
    proof {
        assert(s@.subrange(start as int, n as int) =~= digits);
        assert(spec_all_digits(digits));
    }
    if negative {
        if acc == 9223372036854775808 {
            return Some(i64::MIN);
        }
        let v: i64 = -(acc as i64);
        return Some(v);
    }
    Some(acc as i64)
}

/// The `application/x-www-form-urlencoded` rendering of key/value pairs, as
/// `serde_urlencoded` produces it, percent-escaping included.
pub uninterp spec fn urlencoded_of(pairs: Seq<(Seq<char>, Seq<char>)>) -> Seq<char>;

/// The views of a list of string pairs.
pub open spec fn spec_pair_views(pairs: Seq<(String, String)>) -> Seq<(Seq<char>, Seq<char>)> {
    pairs.map_values(|p: (String, String)| (p.0@, p.1@))
}

/// Relies on `serde_urlencoded::to_string`: renders the pairs in order as a
/// form-encoded string, percent-escaping keys and values; on a sequence of
/// string pairs its serializer cannot fail.
#[verifier::external_body]
pub(crate) fn urlencode_pairs(pairs: &Vec<(String, String)>) -> (r: String)
    ensures
        r@ == urlencoded_of(spec_pair_views(pairs@)),
{
    serde_urlencoded::to_string(pairs).unwrap()
}

/// The items joined with `sep` between consecutive items.
pub open spec fn spec_join(items: Seq<Seq<char>>, sep: Seq<char>) -> Seq<char>
    decreases items.len(),
{
    if items.len() == 0 {
        Seq::empty()
    } else if items.len() == 1 {
        items[0]
    } else {
        items[0] + sep + spec_join(items.drop_first(), sep)
    }
}

proof fn lemma_join_push(items: Seq<Seq<char>>, x: Seq<char>, sep: Seq<char>)
    ensures
        items.len() == 0 ==> spec_join(items.push(x), sep) == x,
        items.len() > 0 ==> spec_join(items.push(x), sep) =~= spec_join(items, sep) + sep + x,
    decreases items.len(),
{
    if items.len() == 0 {
        assert(items.push(x)[0] == x);
    } else {
        assert(items.push(x).drop_first() =~= items.drop_first().push(x));
        lemma_join_push(items.drop_first(), x, sep);
        if items.len() == 1 {
            assert(spec_join(items.push(x), sep) == items[0] + sep + spec_join(
                items.drop_first().push(x),
                sep,
            ));
        }
    }
}

/// Joins the items with `sep` between consecutive items.
pub fn join(items: &Vec<String>, sep: &str) -> (r: String)
    ensures
        r@ == spec_join(items.deep_view(), sep@),
{
    let mut out = String::new();
    let n = items.len();
    proof {
        assert(items.deep_view().take(0) =~= Seq::<Seq<char>>::empty());
    }
    for i in 0..n
        invariant
            n == items.len(),
            items.deep_view().len() == n,
            forall|k: int|
                0 <= k < n ==> items.deep_view()[k] == #[trigger] items@[k]@,
            out@ == spec_join(items.deep_view().take(i as int), sep@),
        decreases n - i,
    {
        if i > 0 {
            out.append(sep);
        }
        out.append(items[i].as_str());
        proof {
            let prefix = items.deep_view().take(i as int);
            assert(items.deep_view().take(i + 1) =~= prefix.push(items@[i as int]@));
            lemma_join_push(prefix, items@[i as int]@, sep@);
        }
    }
    proof {
        assert(items.deep_view().take(n as int) =~= items.deep_view());
    }
    out
}

} // verus!
