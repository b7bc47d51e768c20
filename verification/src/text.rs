//! Character-sequence machinery shared by the wire protocol and the merge
//! list: decimal rendering and parsing of counters, splitting on a delimiter
//! character, and locating the merge-list field separator.

use vstd::prelude::*;
use vstd::string::StrSliceExecFns;
use vstd::string::StringExecFns;

verus! {

/// The character standing for one decimal digit value.
pub open spec fn digit_char(d: nat) -> char {
    if d == 0 {
        '0'
    } else if d == 1 {
        '1'
    } else if d == 2 {
        '2'
    } else if d == 3 {
        '3'
    } else if d == 4 {
        '4'
    } else if d == 5 {
        '5'
    } else if d == 6 {
        '6'
    } else if d == 7 {
        '7'
    } else if d == 8 {
        '8'
    } else {
        '9'
    }
}

pub open spec fn is_digit(c: char) -> bool {
    48 <= c as u32 <= 57
}

pub open spec fn digit_val(c: char) -> nat {
    (c as u32 - 48) as nat
}

/// Decimal rendering of a number, most significant digit first, no sign and
/// no leading zeros (a lone `'0'` for zero).
pub open spec fn dec_digits(n: nat) -> Seq<char>
    decreases n,
{
    if n < 10 {
        seq![digit_char(n)]
    } else {
        dec_digits(n / 10).push(digit_char(n % 10))
    }
}

/// A non-empty run of decimal digit characters.
pub open spec fn is_dec_seq(s: Seq<char>) -> bool {
    s.len() >= 1 && forall|i: int| 0 <= i < s.len() ==> is_digit(#[trigger] s[i])
}

/// The number a run of digit characters denotes.
pub open spec fn dec_value(s: Seq<char>) -> nat
    decreases s.len(),
{
    if s.len() == 0 {
        0
    } else {
        dec_value(s.drop_last()) * 10 + digit_val(s.last())
    }
}

pub proof fn lemma_digit_char_val(d: nat)
    requires
        d < 10,
    ensures
        is_digit(digit_char(d)),
        digit_val(digit_char(d)) == d,
{
}

pub proof fn lemma_dec_digits_are_digits(n: nat)
    ensures
        is_dec_seq(dec_digits(n)),
    decreases n,
{
    if n < 10 {
        lemma_digit_char_val(n);
    } else {
        lemma_dec_digits_are_digits(n / 10);
        lemma_digit_char_val(n % 10);
    }
}

pub proof fn lemma_dec_value_of_digits(n: nat)
    ensures
        dec_value(dec_digits(n)) == n,
    decreases n,
{
    if n < 10 {
        lemma_digit_char_val(n);
        assert(dec_digits(n) =~= seq![digit_char(n)]);
        assert(dec_digits(n).drop_last() =~= Seq::<char>::empty());
        assert(dec_value(dec_digits(n).drop_last()) == 0);
        assert(dec_digits(n).last() == digit_char(n));
        assert(dec_value(dec_digits(n)) == n);
    } else {
        lemma_dec_value_of_digits(n / 10);
        lemma_digit_char_val(n % 10);
        assert(dec_digits(n).drop_last() =~= dec_digits(n / 10));
        assert(dec_digits(n).last() == digit_char(n % 10));
        assert(dec_value(dec_digits(n)) == (n / 10) * 10 + (n % 10));
        vstd::arithmetic::div_mod::lemma_fundamental_div_mod(n as int, 10);
    }
}

pub proof fn lemma_dec_value_extend(s: Seq<char>, i: int)
    requires
        0 <= i < s.len(),
    ensures
        dec_value(s.take(i + 1)) == dec_value(s.take(i)) * 10 + digit_val(s[i]),
{
    assert(s.take(i + 1).drop_last() =~= s.take(i));
    assert(s.take(i + 1).last() == s[i]);
}

pub proof fn lemma_dec_value_prefix_le(s: Seq<char>, i: int)
    requires
        0 <= i <= s.len(),
    ensures
        dec_value(s.take(i)) <= dec_value(s),
    decreases s.len() - i,
{
    if i == s.len() {
        assert(s.take(i) =~= s);
    } else {
        lemma_dec_value_extend(s, i);
        lemma_dec_value_prefix_le(s, i + 1);
    }
}

/// Parses a run of decimal digits as a number; `None` when the string is
/// empty, holds any non-digit character, or denotes a value above `u32::MAX`.
pub fn parse_u32(s: &str) -> (r: Option<u32>)
    ensures
        match r {
            Some(v) => is_dec_seq(s@) && dec_value(s@) <= u32::MAX && v == dec_value(s@),
            None => !(is_dec_seq(s@) && dec_value(s@) <= u32::MAX),
        },
{
    let n = s.unicode_len();
    if n == 0 {
        return None;
    }
    let mut acc: u32 = 0;
    let mut i: usize = 0;
    while i < n
        invariant
            n == s@.len(),
            0 < n,
            i <= n,
            forall|j: int| 0 <= j < i ==> is_digit(#[trigger] s@[j]),
            acc == dec_value(s@.take(i as int)),
        decreases n - i,
    {
        let c = s.get_char(i);
        let u = c as u32;
        if u < 48 || u > 57 {
            assert(!is_digit(s@[i as int]));
            return None;
        }
        let d = u - 48;
        proof {
            lemma_dec_value_extend(s@, i as int);
        }
        if acc > (u32::MAX - d) / 10 {
            proof {
                vstd::arithmetic::div_mod::lemma_fundamental_div_mod((u32::MAX - d) as int, 10);
                vstd::arithmetic::div_mod::lemma_mod_bound((u32::MAX - d) as int, 10);
                assert(dec_value(s@.take(i as int + 1)) > u32::MAX);
                lemma_dec_value_prefix_le(s@, i as int + 1);
            }
            return None;
        }
        proof {
            vstd::arithmetic::div_mod::lemma_fundamental_div_mod((u32::MAX - d) as int, 10);
            vstd::arithmetic::div_mod::lemma_mod_bound((u32::MAX - d) as int, 10);
        }
        acc = acc * 10 + d;
        i = i + 1;
    }
    assert(s@.take(n as int) =~= s@);
    Some(acc)
}

/// Appends the character for one decimal digit.
fn append_digit(out: &mut String, d: u64)
    requires
        d < 10,
    ensures
        final(out)@ == old(out)@ + seq![digit_char(d as nat)],
{
    proof {
        reveal_strlit("0");
        reveal_strlit("1");
        reveal_strlit("2");
        reveal_strlit("3");
        reveal_strlit("4");
        reveal_strlit("5");
        reveal_strlit("6");
        reveal_strlit("7");
        reveal_strlit("8");
        reveal_strlit("9");
    }
    if d == 0 {
        out.append("0");
    } else if d == 1 {
        out.append("1");
    } else if d == 2 {
        out.append("2");
    } else if d == 3 {
        out.append("3");
    } else if d == 4 {
        out.append("4");
    } else if d == 5 {
        out.append("5");
    } else if d == 6 {
        out.append("6");
    } else if d == 7 {
        out.append("7");
    } else if d == 8 {
        out.append("8");
    } else {
        out.append("9");
    }
    assert(final(out)@ =~= old(out)@ + seq![digit_char(d as nat)]);
}

/// Appends the decimal rendering of `n`.
pub fn push_decimal(out: &mut String, n: u64)
    ensures
        final(out)@ == old(out)@ + dec_digits(n as nat),
    decreases n,
{
    if n >= 10 {
        push_decimal(out, n / 10);
        append_digit(out, n % 10);
        assert(final(out)@ =~= old(out)@ + dec_digits(n as nat));
    } else {
        append_digit(out, n);
        assert(final(out)@ =~= old(out)@ + dec_digits(n as nat));
    }
}

/// The decimal rendering of `n` as a fresh string.
pub fn u64_to_string(n: u64) -> (r: String)
    ensures
        r@ == dec_digits(n as nat),
{
    let mut s = String::new();
    push_decimal(&mut s, n);
    assert(s@ =~= dec_digits(n as nat));
    s
}

/// The pieces of `s` between occurrences of the delimiter `d`, in order;
/// always at least one piece, and one more piece than there are delimiters.
pub open spec fn split_char(s: Seq<char>, d: char) -> Seq<Seq<char>>
    decreases s.len(),
{
    if s.len() == 0 {
        seq![Seq::<char>::empty()]
    } else if s[0] == d {
        seq![Seq::<char>::empty()] + split_char(s.drop_first(), d)
    } else {
        let rest = split_char(s.drop_first(), d);
        seq![seq![s[0]] + rest[0]] + rest.drop_first()
    }
}

pub proof fn lemma_split_len(s: Seq<char>, d: char)
    ensures
        split_char(s, d).len() >= 1,
    decreases s.len(),
{
    if s.len() > 0 {
        lemma_split_len(s.drop_first(), d);
    }
}

pub proof fn lemma_split_no_delim(s: Seq<char>, d: char)
    requires
        forall|i: int| 0 <= i < s.len() ==> s[i] != d,
    ensures
        split_char(s, d) == seq![s],
    decreases s.len(),
{
    if s.len() == 0 {
        assert(split_char(s, d) =~~= seq![s]);
    } else {
        lemma_split_no_delim(s.drop_first(), d);
        assert(seq![s[0]] + s.drop_first() =~= s);
        assert(split_char(s, d) =~~= seq![s]);
    }
}

pub proof fn lemma_split_concat(a: Seq<char>, rest: Seq<char>, d: char)
    requires
        forall|i: int| 0 <= i < a.len() ==> a[i] != d,
    ensures
        split_char(a + seq![d] + rest, d) == seq![a] + split_char(rest, d),
    decreases a.len(),
{
    let s = a + seq![d] + rest;
    if a.len() == 0 {
        assert(s[0] == d);
        assert(s.drop_first() =~= rest);
        assert(split_char(s, d) =~~= seq![a] + split_char(rest, d));
    } else {
        assert(s[0] == a[0]);
        assert(s.drop_first() =~= a.drop_first() + seq![d] + rest);
        lemma_split_concat(a.drop_first(), rest, d);
        lemma_split_len(rest, d);
        let rest2 = split_char(s.drop_first(), d);
        assert(rest2 == seq![a.drop_first()] + split_char(rest, d));
        assert(rest2[0] == a.drop_first());
        assert(seq![s[0]] + a.drop_first() =~= a);
        assert(rest2.drop_first() =~= split_char(rest, d));
        assert(split_char(s, d) =~~= seq![a] + split_char(rest, d));
    }
}

/// Splits `s` on every occurrence of the character `d`.
pub fn split_on(s: &str, d: char) -> (r: Vec<String>)
    ensures
        r.deep_view() == split_char(s@, d),
{
    let n = s.unicode_len();
    let mut r: Vec<String> = Vec::new();
    let mut start: usize = 0;
    let mut i: usize = 0;
    proof {
        assert(r.deep_view() =~~= Seq::<Seq<char>>::empty());
        assert(s@.skip(0) =~= s@);
        assert(split_char(s@, d) =~~= r.deep_view() + split_char(s@.skip(0), d));
    }
    while i < n
        invariant
            n == s@.len(),
            start <= i <= n,
            forall|j: int| start <= j < i ==> s@[j] != d,
            split_char(s@, d) == r.deep_view() + split_char(s@.skip(start as int), d),
        decreases n - i,
    {
        let c = s.get_char(i);
        if c == d {
            let ghost prev = r.deep_view();
            let piece = s.substring_char(start, i);
            r.push(String::from_str(piece));
            proof {
                let a = s@.subrange(start as int, i as int);
                lemma_split_concat(a, s@.skip(i as int + 1), d);
                assert(s@.skip(start as int) =~= a + seq![d] + s@.skip(i as int + 1));
                assert(r.deep_view() =~~= prev + seq![a]);
                assert(split_char(s@, d) =~~= r.deep_view() + split_char(
                    s@.skip(i as int + 1),
                    d,
                ));
            }
            start = i + 1;
        }
        i = i + 1;
    }
    let ghost prev = r.deep_view();
    let piece = s.substring_char(start, n);
    r.push(String::from_str(piece));
    proof {
        let a = s@.skip(start as int);
        lemma_split_no_delim(a, d);
        assert(s@.subrange(start as int, n as int) =~= a);
        assert(r.deep_view() =~~= prev + seq![a]);
        assert(r.deep_view() =~~= split_char(s@, d));
    }
    r
}

/// Character-by-character string comparison.
pub fn str_eq(a: &str, b: &str) -> (r: bool)
    ensures
        r == (a@ == b@),
{
    let na = a.unicode_len();
    let nb = b.unicode_len();
    if na != nb {
        return false;
    }
    let mut i: usize = 0;
    while i < na
        invariant
            na == a@.len(),
            na == b@.len(),
            i <= na,
            forall|j: int| 0 <= j < i ==> a@[j] == b@[j],
        decreases na - i,
    {
        if a.get_char(i) != b.get_char(i) {
            return false;
        }
        i = i + 1;
    }
    assert(a@ =~= b@);
    true
}

/// Index of the first occurrence of the merge-list field separator ` | `,
/// or `s.len()` when there is none.
pub open spec fn find_sep(s: Seq<char>) -> int
    decreases s.len(),
{
    if s.len() < 3 {
        s.len() as int
    } else if s[0] == ' ' && s[1] == '|' && s[2] == ' ' {
        0
    } else {
        1 + find_sep(s.drop_first())
    }
}

pub proof fn lemma_find_sep_range(s: Seq<char>)
    ensures
        0 <= find_sep(s) <= s.len(),
    decreases s.len(),
{
    if s.len() >= 3 && !(s[0] == ' ' && s[1] == '|' && s[2] == ' ') {
        lemma_find_sep_range(s.drop_first());
    }
}

/// Finds the first occurrence of the merge-list field separator.
pub fn find_entry_sep(s: &str) -> (r: usize)
    ensures
        r == find_sep(s@),
{
    let n = s.unicode_len();
    let mut i: usize = 0;
    assert(s@.skip(0) =~= s@);
    while n - i >= 3 && i < n
        invariant
            n == s@.len(),
            i <= n,
            find_sep(s@) == i + find_sep(s@.skip(i as int)),
        decreases n - i,
    {
        let c0 = s.get_char(i);
        let c1 = s.get_char(i + 1);
        let c2 = s.get_char(i + 2);
        if c0 == ' ' && c1 == '|' && c2 == ' ' {
            proof {
                let t = s@.skip(i as int);
                assert(t[0] == ' ' && t[1] == '|' && t[2] == ' ');
                assert(find_sep(t) == 0);
            }
            return i;
        }
        proof {
            let t = s@.skip(i as int);
            assert(t.drop_first() =~= s@.skip(i as int + 1));
            assert(find_sep(t) == 1 + find_sep(s@.skip(i as int + 1)));
        }
        i = i + 1;
    }
    proof {
        let t = s@.skip(i as int);
        assert(t.len() < 3);
        assert(find_sep(t) == t.len());
    }
    n
}

} // verus!
