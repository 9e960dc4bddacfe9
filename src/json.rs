//! The JSON text of the token's header and claims.

use vstd::prelude::*;

verus! {

/// Lower-case hexadecimal digits; the first ten are the decimal digits.
pub open spec fn digit_table() -> Seq<char> {
    "0123456789abcdef"@
}

/// The JSON escape of one character: quote and backslash get a backslash,
/// control characters become `\u00XX`, everything else stands as it is.
pub open spec fn escape_char(c: char) -> Seq<char> {
    if c == '"' {
        "\\\""@
    } else if c == '\\' {
        "\\\\"@
    } else if (c as u32) < 32 {
        "\\u00"@ + seq![digit_table()[((c as u32) / 16) as int], digit_table()[((c as u32) % 16) as int]]
    } else {
        seq![c]
    }
}

pub open spec fn escape(s: Seq<char>) -> Seq<char>
    decreases s.len(),
{
    if s.len() == 0 {
        Seq::empty()
    } else {
        escape(s.drop_last()) + escape_char(s.last())
    }
}

/// `s` as a JSON string literal.
pub open spec fn quoted(s: Seq<char>) -> Seq<char> {
    "\""@ + escape(s) + "\""@
}

/// The decimal digits of `n`, without leading zeros.
pub open spec fn digits(n: nat) -> Seq<char>
    decreases n,
{
    if n < 10 {
        seq![digit_table()[n as int]]
    } else {
        digits(n / 10) + seq![digit_table()[(n % 10) as int]]
    }
}

/// `n` as a JSON number.
pub open spec fn decimal(n: int) -> Seq<char> {
    if n < 0 {
        "-"@ + digits((-n) as nat)
    } else {
        digits(n as nat)
    }
}

/// Appends `s` as a JSON string literal.
pub fn append_quoted(out: &mut String, s: &str)
    ensures
        final(out)@ == old(out)@ + quoted(s@),
{
    let table = "0123456789abcdef";
    proof {
        reveal_strlit("0123456789abcdef");
    }
    out.append("\"");
    let ghost start = out@;
    let n = s.unicode_len();
    let mut i: usize = 0;
    while i < n
        invariant
            n == s@.len(),
            i <= n,
            table@ == digit_table(),
            digit_table().len() == 16,
            out@ == start + escape(s@.subrange(0, i as int)),
        decreases n - i,
    {
        let c = s.get_char(i);
        let ghost before = out@;
        if c == '"' {
            out.append("\\\"");
        } else if c == '\\' {
            out.append("\\\\");
        } else if (c as u32) < 32 {
            let hi = ((c as u32) / 16) as usize;
            let lo = ((c as u32) % 16) as usize;
            out.append("\\u00");
            out.append(table.substring_char(hi, hi + 1));
            out.append(table.substring_char(lo, lo + 1));
            assert(table@.subrange(hi as int, hi + 1) =~= seq![digit_table()[hi as int]]);
            assert(table@.subrange(lo as int, lo + 1) =~= seq![digit_table()[lo as int]]);
        } else {
            out.append(s.substring_char(i, i + 1));
            assert(s@.subrange(i as int, i + 1) =~= seq![c]);
        }
        proof {
            let p = s@.subrange(0, i + 1);
            assert(p.drop_last() =~= s@.subrange(0, i as int));
            assert(p.last() == c);
            assert(out@ =~= before + escape_char(c));
            assert(out@ =~= start + escape(p));
        }
        i = i + 1;
    }
    assert(s@.subrange(0, n as int) =~= s@);
    out.append("\"");
    assert(out@ =~= old(out)@ + quoted(s@));
}

/// The decimal digits of `n`.
fn digits_of(n: u64) -> (r: String)
    ensures
        r@ == digits(n as nat),
{
    let table = "0123456789abcdef";
    proof {
        reveal_strlit("0123456789abcdef");
    }
    let mut m: u64 = n;
    let mut acc = String::new();
    while m >= 10
        invariant
            table@ == digit_table(),
            digit_table().len() == 16,
            digits(n as nat) == digits(m as nat) + acc@,
        decreases m,
    {
        let d = (m % 10) as usize;
        let mut t = String::from_str(table.substring_char(d, d + 1));
        assert(table@.subrange(d as int, d + 1) =~= seq![digit_table()[d as int]]);
        t.append(acc.as_str());
        proof {
            assert(digits(m as nat) == digits((m / 10) as nat) + seq![digit_table()[d as int]]);
            assert(digits(n as nat) =~= digits((m / 10) as nat) + t@);
        }
        acc = t;
        m = m / 10;
    }
    let d = m as usize;
    let mut r = String::from_str(table.substring_char(d, d + 1));
    assert(table@.subrange(d as int, d + 1) =~= seq![digit_table()[d as int]]);
    r.append(acc.as_str());
    assert(r@ =~= digits(n as nat));
    r
}

/// Appends `n` as a JSON number.
pub fn append_decimal(out: &mut String, n: i64)
    ensures
        final(out)@ == old(out)@ + decimal(n as int),
{
    if n < 0 {
        let m = (0i128 - n as i128) as u64;
        out.append("-");
        let d = digits_of(m);
        out.append(d.as_str());
        assert(out@ =~= old(out)@ + decimal(n as int));
    } else {
        let d = digits_of(n as u64);
        out.append(d.as_str());
    }
}

} // verus!
