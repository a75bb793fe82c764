//! Text as sequences of characters: conversion between `String` and
//! `Vec<char>`, comparison, joining, line splitting and the decimal rendering
//! of numbers.
//!
//! Every function states its result over `Seq<char>`, the view of its
//! arguments.
use vstd::prelude::*;
use vstd::string::*;

verus! {

/// `std::string::String::push`: appends one character to the end of the
/// string. The contract states exactly that: the new contents are the old
/// ones followed by `ch`.
pub assume_specification[ String::push ](s: &mut String, ch: char)
    ensures
        final(s)@ == old(s)@.push(ch),
;

/// The views of the strings of `v`, in order.
pub open spec fn views(v: Seq<String>) -> Seq<Seq<char>> {
    Seq::new(v.len(), |i: int| v[i]@)
}

/// The views of the character vectors of `v`, in order.
pub open spec fn rows(v: Seq<Vec<char>>) -> Seq<Seq<char>> {
    Seq::new(v.len(), |i: int| v[i]@)
}

/// `parts` concatenated, with `sep` between each two neighbours.
pub open spec fn join_spec<T>(parts: Seq<Seq<T>>, sep: Seq<T>) -> Seq<T>
    decreases parts.len(),
{
    if parts.len() == 0 {
        Seq::empty()
    } else if parts.len() == 1 {
        parts[0]
    } else {
        join_spec(parts.drop_last(), sep) + sep + parts.last()
    }
}

/// Index of the first line feed of `s`, or `s.len()` where it has none.
pub open spec fn first_newline(s: Seq<char>) -> int
    decreases s.len(),
{
    if s.len() == 0 {
        0
    } else if s[0] == '\n' {
        0
    } else {
        1 + first_newline(s.drop_first())
    }
}

/// `line` without its last character where that is a carriage return.
pub open spec fn strip_cr(line: Seq<char>) -> Seq<char> {
    if line.len() > 0 && line.last() == '\r' {
        line.drop_last()
    } else {
        line
    }
}

/// The lines of `s`. A line ends at a line feed, or at a carriage return
/// directly followed by one; the ending is not part of the line. The end of
/// the text ends the last line, and a text that ends in a line ending has no
/// empty line after it.
pub open spec fn lines_spec(s: Seq<char>) -> Seq<Seq<char>>
    decreases s.len(),
{
    if s.len() == 0 {
        Seq::empty()
    } else {
        let i = first_newline(s);
        if 0 <= i < s.len() {
            seq![strip_cr(s.take(i))] + lines_spec(s.skip(i + 1))
        } else {
            seq![s]
        }
    }
}

/// The character of the decimal digit `d`.
pub open spec fn digit_char(d: nat) -> char {
    if d == 0 {
        '0'
    } else if d == 1 {
        '1'
    } else if d == 2 {
        '2'
    } else if d == 3 {
        '3'
    } else if d == 4 {
        '4'
    } else if d == 5 {
        '5'
    } else if d == 6 {
        '6'
    } else if d == 7 {
        '7'
    } else if d == 8 {
        '8'
    } else {
        '9'
    }
}

/// `n` in decimal, without leading zeros.
pub open spec fn decimal_spec(n: nat) -> Seq<char>
    decreases n,
{
    if n < 10 {
        seq![digit_char(n)]
    } else {
        decimal_spec(n / 10).push(digit_char(n % 10))
    }
}

/// Where no line feed stands before `n`, and `n` is the end of `s` or a line
/// feed, `n` is the first line feed of `s`.
pub proof fn lemma_first_newline(s: Seq<char>, n: int)
    requires
        0 <= n <= s.len(),
        forall|k: int| 0 <= k < n ==> s[k] != '\n',
        n == s.len() || s[n] == '\n',
    ensures
        first_newline(s) == n,
    decreases s.len(),
{
    if s.len() > 0 && n > 0 {
        let t = s.drop_first();
        assert forall|k: int| 0 <= k < n - 1 implies t[k] != '\n' by {
            assert(t[k] == s[k + 1]);
        }
        lemma_first_newline(t, n - 1);
    }
}

/// Joining one more part: the join so far, the separator unless it is the
/// first part, then the part.
pub proof fn lemma_join_push<T>(parts: Seq<Seq<T>>, sep: Seq<T>, part: Seq<T>)
    ensures
        join_spec(parts.push(part), sep) == if parts.len() == 0 {
            part
        } else {
            join_spec(parts, sep) + sep + part
        },
{
    let p = parts.push(part);
    assert(p.drop_last() =~= parts);
}

/// `a` followed by `b`.
pub fn concat2(a: &str, b: &str) -> (r: String)
    ensures
        r@ == a@ + b@,
{
    let mut r = String::from_str(a);
    r.append(b);
    r
}

/// `a`, `b` and `c`, one after the other.
pub fn concat3(a: &str, b: &str, c: &str) -> (r: String)
    ensures
        r@ == a@ + b@ + c@,
{
    let mut r = String::from_str(a);
    r.append(b);
    r.append(c);
    r
}

/// The characters of `s`.
pub fn to_chars(s: &str) -> (v: Vec<char>)
    ensures
        v@ == s@,
{
    let mut v: Vec<char> = Vec::new();
    for c in it: s.chars()
        invariant
            it.seq() == s@,
            v@ == s@.take(it.index() as int),
    {
        v.push(c);
    }
    v
}

/// The string made of the characters of `v`.
pub fn from_chars(v: &Vec<char>) -> (s: String)
    ensures
        s@ == v@,
{
    let mut s = String::new();
    let mut i: usize = 0;
    while i < v.len()
        invariant
            i <= v.len(),
            s@ == v@.take(i as int),
        decreases v.len() - i,
    {
        s.push(v[i]);
        i += 1;
    }
    s
}

/// Whether `a` and `b` hold the same characters.
pub fn chars_eq(a: &Vec<char>, b: &Vec<char>) -> (r: bool)
    ensures
        r == (a@ == b@),
{
    if a.len() != b.len() {
        return false;
    }
    let mut i: usize = 0;
    while i < a.len()
        invariant
            i <= a.len(),
            a.len() == b.len(),
            a@.take(i as int) == b@.take(i as int),
        decreases a.len() - i,
    {
        if a[i] != b[i] {
            return false;
        }
        i += 1;
    }
    assert(a@ == a@.take(a.len() as int));
    assert(b@ == b@.take(b.len() as int));
    true
}

/// Whether `a` and `b` are the same text.
pub fn str_eq(a: &str, b: &str) -> (r: bool)
    ensures
        r == (a@ == b@),
{
    let x = to_chars(a);
    let y = to_chars(b);
    chars_eq(&x, &y)
}

/// Whether `pat` stands in `s` at position `at`.
pub fn matches_at(s: &Vec<char>, at: usize, pat: &Vec<char>) -> (r: bool)
    requires
        at <= s.len(),
    ensures
        r == (at + pat.len() <= s.len() && s@.subrange(at as int, at + pat.len()) == pat@),
{
    if pat.len() > s.len() - at {
        return false;
    }
    let mut i: usize = 0;
    while i < pat.len()
        invariant
            i <= pat.len(),
            at + pat.len() <= s.len(),
            s@.subrange(at as int, at + i) == pat@.take(i as int),
        decreases pat.len() - i,
    {
        if s[at + i] != pat[i] {
            return false;
        }
        i += 1;
    }
    assert(pat@ == pat@.take(pat.len() as int));
    true
}

/// `parts` joined with `sep` between them.
pub fn join(parts: &Vec<String>, sep: &str) -> (r: String)
    ensures
        r@ == join_spec(views(parts@), sep@),
{
    let mut r = String::new();
    let mut i: usize = 0;
    while i < parts.len()
        invariant
            i <= parts.len(),
            r@ == join_spec(views(parts@).take(i as int), sep@),
        decreases parts.len() - i,
    {
        proof {
            let done = views(parts@).take(i as int);
            lemma_join_push(done, sep@, parts@[i as int]@);
            assert(views(parts@).take(i + 1) == done.push(parts@[i as int]@));
        }
        if i > 0 {
            r.append(sep);
        }
        r.append(parts[i].as_str());
        i += 1;
    }
    assert(views(parts@).take(parts.len() as int) == views(parts@));
    r
}

/// Each of `items` between `prefix` and `suffix`.
pub open spec fn wrap_each(items: Seq<Seq<char>>, prefix: Seq<char>, suffix: Seq<char>) -> Seq<
    Seq<char>,
> {
    Seq::new(items.len(), |i: int| prefix + items[i] + suffix)
}

/// Each of `items` between `prefix` and `suffix`, joined with `sep`.
pub fn join_wrapped(items: &Vec<String>, prefix: &str, suffix: &str, sep: &str) -> (r: String)
    ensures
        r@ == join_spec(wrap_each(views(items@), prefix@, suffix@), sep@),
{
    let ghost all = wrap_each(views(items@), prefix@, suffix@);
    let mut r = String::new();
    let mut i: usize = 0;
    while i < items.len()
        invariant
            i <= items.len(),
            all == wrap_each(views(items@), prefix@, suffix@),
            r@ == join_spec(all.take(i as int), sep@),
        decreases items.len() - i,
    {
        proof {
            let done = all.take(i as int);
            lemma_join_push(done, sep@, all[i as int]);
            assert(all.take(i + 1) == done.push(all[i as int]));
        }
        if i > 0 {
            r.append(sep);
        }
        let piece = concat3(prefix, items[i].as_str(), suffix);
        r.append(piece.as_str());
        i += 1;
    }
    assert(all.take(items.len() as int) == all);
    r
}

/// `rows` joined with `sep` between them.
pub fn join_rows(rows_in: &Vec<Vec<char>>, sep: &Vec<char>) -> (r: Vec<char>)
    ensures
        r@ == join_spec(rows(rows_in@), sep@),
{
    let ghost all = rows(rows_in@);
    let mut r: Vec<char> = Vec::new();
    let mut i: usize = 0;
    while i < rows_in.len()
        invariant
            i <= rows_in.len(),
            all == rows(rows_in@),
            r@ == join_spec(all.take(i as int), sep@),
        decreases rows_in.len() - i,
    {
        proof {
            let done = all.take(i as int);
            lemma_join_push(done, sep@, all[i as int]);
            assert(all.take(i + 1) == done.push(all[i as int]));
        }
        if i > 0 {
            push_all(&mut r, sep);
        }
        push_all(&mut r, &rows_in[i]);
        i += 1;
    }
    assert(all.take(rows_in.len() as int) == all);
    r
}

/// Appends the characters of `from` to `out`.
pub fn push_all(out: &mut Vec<char>, from: &Vec<char>)
    ensures
        final(out)@ == old(out)@ + from@,
{
    let mut i: usize = 0;
    while i < from.len()
        invariant
            i <= from.len(),
            out@ == old(out)@ + from@.take(i as int),
        decreases from.len() - i,
    {
        out.push(from[i]);
        i += 1;
    }
}

/// The lines of `text`, as `str::lines` of the standard library gives them.
pub fn split_lines(text: &Vec<char>) -> (lines: Vec<Vec<char>>)
    ensures
        rows(lines@) == lines_spec(text@),
{
    let mut lines: Vec<Vec<char>> = Vec::new();
    let mut start: usize = 0;
    let n = text.len();
    assert(text@.skip(0) =~= text@);
    while start < n
        invariant
            start <= n,
            n == text.len(),
            lines_spec(text@) == rows(lines@) + lines_spec(text@.skip(start as int)),
        decreases n - start,
    {
        let mut end: usize = start;
        while end < n && text[end] != '\n'
            invariant
                start <= end <= n,
                n == text.len(),
                forall|k: int| start <= k < end ==> text@[k] != '\n',
            decreases n - end,
        {
            end += 1;
        }
        let ghost rest = text@.skip(start as int);
        proof {
            assert forall|k: int| 0 <= k < end - start implies rest[k] != '\n' by {
                assert(rest[k] == text@[start + k]);
            }
            lemma_first_newline(rest, end - start);
        }
        let mut stop: usize = end;
        if end < n && end > start && text[end - 1] == '\r' {
            stop = end - 1;
        }
        let mut line: Vec<char> = Vec::new();
        let mut k: usize = start;
        while k < stop
            invariant
                start <= k <= stop <= n,
                n == text.len(),
                line@ == text@.subrange(start as int, k as int),
            decreases stop - k,
        {
            line.push(text[k]);
            k += 1;
        }
        let ghost before = rows(lines@);
        lines.push(line);
        proof {
            let piece = text@.subrange(start as int, stop as int);
            if end < n {
                assert(strip_cr(rest.take(end - start)) =~= piece);
                assert(rest.skip(end - start + 1) =~= text@.skip(end + 1));
            } else {
                assert(before + seq![rest] =~= before.push(piece) + lines_spec(
                    text@.skip(n as int),
                ));
            }
        }
        if end < n {
            start = end + 1;
        } else {
            start = n;
        }
    }
    lines
}

/// The character of the decimal digit `d`.
pub fn digit(d: u8) -> (c: char)
    requires
        d < 10,
    ensures
        c == digit_char(d as nat),
{
    if d == 0 {
        '0'
    } else if d == 1 {
        '1'
    } else if d == 2 {
        '2'
    } else if d == 3 {
        '3'
    } else if d == 4 {
        '4'
    } else if d == 5 {
        '5'
    } else if d == 6 {
        '6'
    } else if d == 7 {
        '7'
    } else if d == 8 {
        '8'
    } else {
        '9'
    }
}

/// Appends `n` in decimal to `out`.
pub fn push_decimal(out: &mut String, n: u128)
    ensures
        final(out)@ == old(out)@ + decimal_spec(n as nat),
    decreases n,
{
    if n >= 10 {
        push_decimal(out, n / 10);
    }
    let d: u8 = (n % 10) as u8;
    out.push(digit(d));
}

/// `n` in decimal.
pub fn decimal(n: u128) -> (s: String)
    ensures
        s@ == decimal_spec(n as nat),
{
    let mut s = String::new();
    push_decimal(&mut s, n);
    s
}

} // verus!
