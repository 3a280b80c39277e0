//! Text utilities shared by the generators: conversions between strings and
//! character vectors, decimal rendering of numbers, joining and replacing.
//!
//! Contracts speak of a string through its view, the sequence of its
//! characters.

use vstd::prelude::*;

verus! {

/// Appends one character to `s` (`String::push`).
#[verifier::external_body]
pub(crate) fn push_char(s: &mut String, c: char)
    ensures
        final(s)@ == old(s)@.push(c),
{
    s.push(c);
}

/// The characters of `s`, in order.
pub fn chars_of(s: &str) -> (v: Vec<char>)
    ensures
        v@ == s@,
{
    let mut v: Vec<char> = Vec::new();
    for c in it: s.chars()
        invariant
            it.seq() == s@,
            v@ == s@.take(it.index() as int),
    {
        v.push(c);
    }
    v
}

/// The string made of the characters `v[from..to]`.
pub fn string_of_range(v: &Vec<char>, from: usize, to: usize) -> (s: String)
    requires
        from <= to <= v@.len(),
    ensures
        s@ == v@.subrange(from as int, to as int),
{
    let mut s = String::new();
    let mut i: usize = from;
    while i < to
        invariant
            from <= i <= to <= v@.len(),
            s@ == v@.subrange(from as int, i as int),
        decreases to - i,
    {
        push_char(&mut s, v[i]);
        i += 1;
        assert(v@.subrange(from as int, i as int) == v@.subrange(from as int, i - 1).push(
            v@[i - 1],
        ));
    }
    s
}

/// The string made of the characters of `v`.
pub fn string_of(v: &Vec<char>) -> (s: String)
    ensures
        s@ == v@,
{
    let s = string_of_range(v, 0, v.len());
    assert(v@.subrange(0, v@.len() as int) == v@);
    s
}

/// Whether two strings hold the same characters.
pub fn str_eq(a: &str, b: &str) -> (r: bool)
    ensures
        r == (a@ == b@),
{
    let x = a.to_owned();
    let y = b.to_owned();
    x == y
}

/// The decimal digit for `d`.
pub open spec fn digit(d: nat) -> char {
    if d == 0 {
        '0'
    } else if d == 1 {
        '1'
    } else if d == 2 {
        '2'
    } else if d == 3 {
        '3'
    } else if d == 4 {
        '4'
    } else if d == 5 {
        '5'
    } else if d == 6 {
        '6'
    } else if d == 7 {
        '7'
    } else if d == 8 {
        '8'
    } else {
        '9'
    }
}

/// The decimal numeral of `n`, without sign or leading zeros.
pub open spec fn decimal(n: nat) -> Seq<char>
    decreases n,
{
    if n < 10 {
        seq![digit(n)]
    } else {
        decimal(n / 10).push(digit(n % 10))
    }
}

fn digit_char(d: u8) -> (c: char)
    requires
        d < 10,
    ensures
        c == digit(d as nat),
{
    if d == 0 {
        '0'
    } else if d == 1 {
        '1'
    } else if d == 2 {
        '2'
    } else if d == 3 {
        '3'
    } else if d == 4 {
        '4'
    } else if d == 5 {
        '5'
    } else if d == 6 {
        '6'
    } else if d == 7 {
        '7'
    } else if d == 8 {
        '8'
    } else {
        '9'
    }
}

/// Appends the decimal numeral of `n` to `out`.
pub fn push_decimal(out: &mut String, n: u128)
    ensures
        final(out)@ == old(out)@ + decimal(n as nat),
    decreases n,
{
    if n >= 10 {
        push_decimal(out, n / 10);
    }
    push_char(out, digit_char((n % 10) as u8));
}

/// The decimal numeral of `n`.
pub fn decimal_text(n: u128) -> (s: String)
    ensures
        s@ == decimal(n as nat),
{
    let mut s = String::new();
    push_decimal(&mut s, n);
    s
}

/// The digits after the decimal point of `f` thousandths, without trailing
/// zeros. Meant for `0 < f < 1000`.
pub open spec fn fraction_digits(f: nat) -> Seq<char> {
    if f % 100 == 0 {
        seq![digit(f / 100)]
    } else if f % 10 == 0 {
        seq![digit(f / 100), digit((f / 10) % 10)]
    } else {
        seq![digit(f / 100), digit((f / 10) % 10), digit(f % 10)]
    }
}

/// The shortest decimal numeral of `t / 1000`: the whole part, then, unless
/// the fraction is zero, a point and up to three digits.
pub open spec fn thousandths_decimal(t: nat) -> Seq<char> {
    if t % 1000 == 0 {
        decimal(t / 1000)
    } else {
        decimal(t / 1000).push('.') + fraction_digits(t % 1000)
    }
}

/// The decimal numeral of `t / 1000` that always shows a fraction: `2.0`
/// for 2000, `1.5` for 1500.
pub open spec fn thousandths_decimal_point(t: nat) -> Seq<char> {
    if t % 1000 == 0 {
        decimal(t / 1000).push('.').push('0')
    } else {
        thousandths_decimal(t)
    }
}

fn push_fraction_digits(out: &mut String, f: u64)
    requires
        0 < f < 1000,
    ensures
        final(out)@ == old(out)@ + fraction_digits(f as nat),
{
    push_char(out, digit_char((f / 100) as u8));
    if f % 100 != 0 {
        push_char(out, digit_char(((f / 10) % 10) as u8));
        if f % 10 != 0 {
            push_char(out, digit_char((f % 10) as u8));
        }
    }
    assert(final(out)@ =~= old(out)@ + fraction_digits(f as nat));
}

/// Appends the shortest decimal numeral of `t / 1000` to `out`.
pub fn push_thousandths(out: &mut String, t: u64)
    ensures
        final(out)@ == old(out)@ + thousandths_decimal(t as nat),
{
    push_decimal(out, (t / 1000) as u128);
    if t % 1000 != 0 {
        push_char(out, '.');
        push_fraction_digits(out, t % 1000);
    }
    assert(final(out)@ =~= old(out)@ + thousandths_decimal(t as nat));
}

/// The decimal numeral of `t / 1000` with a fraction always shown.
pub fn thousandths_point_text(t: u64) -> (s: String)
    ensures
        s@ == thousandths_decimal_point(t as nat),
{
    let mut s = String::new();
    if t % 1000 == 0 {
        push_decimal(&mut s, (t / 1000) as u128);
        push_char(&mut s, '.');
        push_char(&mut s, '0');
    } else {
        push_thousandths(&mut s, t);
    }
    assert(s@ =~= thousandths_decimal_point(t as nat));
    s
}

/// The text made of two pieces.
pub fn concat2(a: &str, b: &str) -> (r: String)
    ensures
        r@ == a@ + b@,
{
    let mut r = String::from_str(a);
    r.append(b);
    r
}

/// The text made of three pieces.
pub fn concat3(a: &str, b: &str, c: &str) -> (r: String)
    ensures
        r@ == a@ + b@ + c@,
{
    let mut r = String::from_str(a);
    r.append(b);
    r.append(c);
    r
}

/// The views of a sequence of strings.
pub open spec fn texts(v: Seq<String>) -> Seq<Seq<char>> {
    v.map_values(|s: String| s@)
}

/// `parts` laid end to end with `sep` between neighbours.
pub open spec fn joined(parts: Seq<Seq<char>>, sep: Seq<char>) -> Seq<char>
    decreases parts.len(),
{
    if parts.len() == 0 {
        Seq::empty()
    } else if parts.len() == 1 {
        parts[0]
    } else {
        joined(parts.drop_last(), sep) + sep + parts.last()
    }
}

/// Joins `parts` with `sep` between neighbours.
pub fn join(parts: &Vec<String>, sep: &str) -> (s: String)
    ensures
        s@ == joined(texts(parts@), sep@),
{
    let mut s = String::new();
    let mut i: usize = 0;
    while i < parts.len()
        invariant
            i <= parts@.len(),
            s@ == joined(texts(parts@).take(i as int), sep@),
        decreases parts@.len() - i,
    {
        if i > 0 {
            s.append(sep);
        }
        s.append(parts[i].as_str());
        proof {
            let all = texts(parts@);
            assert(all.take(i + 1).drop_last() == all.take(i as int));
            assert(all.take(i + 1).last() == parts@[i as int]@);
        }
        i += 1;
    }
    assert(texts(parts@).take(parts@.len() as int) == texts(parts@));
    s
}

/// `s` with every occurrence of the character `from` replaced by the text
/// `to`.
pub open spec fn replaced(s: Seq<char>, from: char, to: Seq<char>) -> Seq<char>
    decreases s.len(),
{
    if s.len() == 0 {
        Seq::empty()
    } else if s.last() == from {
        replaced(s.drop_last(), from, to) + to
    } else {
        replaced(s.drop_last(), from, to).push(s.last())
    }
}

/// Replaces every occurrence of the character `from` in `s` by `to`.
pub fn replace_char(s: &str, from: char, to: &str) -> (r: String)
    ensures
        r@ == replaced(s@, from, to@),
{
    let chars = chars_of(s);
    let mut r = String::new();
    let mut i: usize = 0;
    while i < chars.len()
        invariant
            i <= chars@.len(),
            chars@ == s@,
            r@ == replaced(s@.take(i as int), from, to@),
        decreases chars@.len() - i,
    {
        let c = chars[i];
        if c == from {
            r.append(to);
        } else {
            push_char(&mut r, c);
        }
        proof {
            assert(s@.take(i + 1).drop_last() == s@.take(i as int));
        }
        i += 1;
    }
    assert(s@.take(chars@.len() as int) == s@);
    r
}

} // verus!
