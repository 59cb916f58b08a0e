//! Text helpers: case folding and substring replacement through the standard
//! library, and verified character-level slicing and decimal rendering.

use vstd::prelude::*;
use vstd::string::StrSliceExecFns;
use vstd::string::StringExecFns;

verus! {

/// The lowercase image of a character sequence, as `str::to_lowercase`
/// computes it. The result depends on the characters alone.
pub uninterp spec fn lower_of(s: Seq<char>) -> Seq<char>;

/// The uppercase image of a character sequence, as `str::to_uppercase`
/// computes it. The result depends on the characters alone.
pub uninterp spec fn upper_of(s: Seq<char>) -> Seq<char>;

/// The image of a character sequence with every occurrence of `from`
/// replaced by `to`, as `str::replace` computes it.
pub uninterp spec fn replace_of(s: Seq<char>, from: Seq<char>, to: Seq<char>) -> Seq<char>;

/// Relies on str::to_lowercase: the result is a function of the characters
/// alone, and an empty string stays empty.
#[verifier::external_body]
pub fn lowercase(s: &str) -> (r: String)
    ensures
        r@ == lower_of(s@),
        s@.len() == 0 ==> r@.len() == 0,
{
    s.to_lowercase()
}

/// Relies on str::to_uppercase: the result is a function of the characters
/// alone, and an empty string stays empty.
#[verifier::external_body]
pub fn uppercase(s: &str) -> (r: String)
    ensures
        r@ == upper_of(s@),
        s@.len() == 0 ==> r@.len() == 0,
{
    s.to_uppercase()
}

/// Relies on str::replace: the result is a function of the three arguments
/// alone.
#[verifier::external_body]
pub fn replace_text(s: &str, from: &str, to: &str) -> (r: String)
    ensures
        r@ == replace_of(s@, from@, to@),
{
    s.replace(from, to)
}

/// The first `n` characters of `s`, or all of `s` when it is shorter.
pub fn left_chars(s: &String, n: usize) -> (r: String)
    ensures
        r@ == s@.take(if n <= s@.len() {
            n as int
        } else {
            s@.len() as int
        }),
{
    let len = s.as_str().unicode_len();
    let k = if n <= len {
        n
    } else {
        len
    };
    let part = s.as_str().substring_char(0, k);
    let r = part.to_owned();
    proof {
        assert(r@ =~= s@.take(k as int));
    }
    r
}

/// The last `n` characters of `s`, or all of `s` when it is shorter.
pub fn right_chars(s: &String, n: usize) -> (r: String)
    ensures
        r@ == s@.skip(if n <= s@.len() {
            s@.len() - n as int
        } else {
            0
        }),
{
    let len = s.as_str().unicode_len();
    let start = if n <= len {
        len - n
    } else {
        0
    };
    let part = s.as_str().substring_char(start, len);
    let r = part.to_owned();
    proof {
        assert(r@ =~= s@.skip(start as int));
    }
    r
}

/// The number of characters in `s`.
pub fn char_len(s: &String) -> (r: usize)
    ensures
        r == s@.len(),
{
    s.as_str().unicode_len()
}

/// Appends `tail` to `out`.
pub fn push_str(out: &mut String, tail: &str)
    ensures
        final(out)@ == old(out)@ + tail@,
{
    out.append(tail);
}

/// The decimal digit character for `d`.
pub open spec fn digit_char(d: int) -> char {
    if d == 0 {
        '0'
    } else if d == 1 {
        '1'
    } else if d == 2 {
        '2'
    } else if d == 3 {
        '3'
    } else if d == 4 {
        '4'
    } else if d == 5 {
        '5'
    } else if d == 6 {
        '6'
    } else if d == 7 {
        '7'
    } else if d == 8 {
        '8'
    } else {
        '9'
    }
}

/// The decimal digits of a non-negative number, most significant first.
pub open spec fn dec_digits(n: int) -> Seq<char>
    decreases n,
{
    if n < 10 {
        seq![digit_char(n)]
    } else {
        dec_digits(n / 10).push(digit_char(n % 10))
    }
}

/// The decimal rendering of an integer, with a leading minus sign when it is
/// negative.
pub open spec fn dec_int(v: int) -> Seq<char> {
    if v < 0 {
        seq!['-'] + dec_digits(-v)
    } else {
        dec_digits(v)
    }
}

/// Appends the decimal digits of `n` to `out`.
#[verifier::loop_isolation(false)]
pub fn push_dec_u64(out: &mut String, n: u64)
    ensures
        final(out)@ == old(out)@ + dec_digits(n as int),
    decreases n,
{
    let digits: &str = "0123456789";
    proof {
        reveal_strlit("0123456789");
    }
    if n >= 10 {
        push_dec_u64(out, n / 10);
    }
    let d = (n % 10) as usize;
    let c = digits.substring_char(d, d + 1);
    proof {
        assert(digits@[0] == '0' && digits@[1] == '1' && digits@[2] == '2' && digits@[3] == '3'
            && digits@[4] == '4' && digits@[5] == '5' && digits@[6] == '6' && digits@[7] == '7'
            && digits@[8] == '8' && digits@[9] == '9');
        assert(c@ =~= seq![digit_char(d as int)]);
        if n < 10 {
            assert(dec_digits(n as int) == seq![digit_char(n as int)]);
        } else {
            assert(dec_digits(n as int) == dec_digits(n as int / 10).push(
                digit_char(n as int % 10),
            ));
            assert(dec_digits(n as int / 10).push(digit_char(n as int % 10)) =~= dec_digits(
                n as int / 10,
            ) + seq![digit_char(n as int % 10)]);
        }
    }
    out.append(c);
}

/// The decimal rendering of `v`.
pub fn i64_to_string(v: i64) -> (r: String)
    ensures
        r@ == dec_int(v as int),
{
    let mut out = String::new();
    if v < 0 {
        out.append("-");
        proof {
            reveal_strlit("-");
            assert(out@ =~= seq!['-']);
        }
        let m: u64 = if v == i64::MIN {
            9223372036854775808u64
        } else {
            (-v) as u64
        };
        push_dec_u64(&mut out, m);
        proof {
            assert(out@ =~= seq!['-'] + dec_digits(-(v as int)));
        }
    } else {
        push_dec_u64(&mut out, v as u64);
        proof {
            assert(out@ =~= dec_digits(v as int));
        }
    }
    out
}

/// Whether two string slices hold the same characters.
#[verifier::loop_isolation(false)]
pub fn str_content_eq(a: &str, b: &str) -> (r: bool)
    ensures
        r == (a@ == b@),
{
    let n = a.unicode_len();
    if n != b.unicode_len() {
        return false;
    }
    let mut i: usize = 0;
    while i < n
        invariant
            i <= n,
            forall|j: int| 0 <= j < i ==> a@[j] == b@[j],
        decreases n - i,
    {
        if a.get_char(i) != b.get_char(i) {
            return false;
        }
        i = i + 1;
    }
    proof {
        assert(a@ =~= b@);
    }
    true
}

} // verus!
