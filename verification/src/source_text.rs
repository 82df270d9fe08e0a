//! Shader sources as they are read: line by line, with the markers that switch a line
//! or its end on for this compiler.
//!
//! A line is first trimmed.  If it then starts with the inject marker, what follows
//! the markers is the line.  Otherwise, if it holds the replace marker, what follows
//! its first occurrence is the line.  Otherwise the trimmed line stands.

use vstd::prelude::*;
use vstd::std_specs::iter::IteratorSpec;

verus! {

/// Appending one character to a string appends it to the characters that the string
/// holds, as `String::push` is documented to.
pub assume_specification[ String::push ](s: &mut String, c: char)
    ensures
        final(s)@ == old(s)@.push(c),
;

/// Whether `c` is white space: one of the characters that Unicode classes as
/// `White_Space`.
pub open spec fn is_whitespace(c: char) -> bool {
    let u = c as u32;
    ||| 0x09 <= u <= 0x0d
    ||| u == 0x20
    ||| u == 0x85
    ||| u == 0xa0
    ||| u == 0x1680
    ||| 0x2000 <= u <= 0x200a
    ||| u == 0x2028
    ||| u == 0x2029
    ||| u == 0x202f
    ||| u == 0x205f
    ||| u == 0x3000
}

/// Whether `c` is white space.
pub fn char_is_whitespace(c: char) -> (b: bool)
    ensures
        b == is_whitespace(c),
{
    let u: u32 = c as u32;
    (0x09 <= u && u <= 0x0d) || u == 0x20 || u == 0x85 || u == 0xa0 || u == 0x1680 || (0x2000 <= u
        && u <= 0x200a) || u == 0x2028 || u == 0x2029 || u == 0x202f || u == 0x205f || u == 0x3000
}

/// The marker before text that only this compiler is to see.
pub open spec fn inject_marker() -> Seq<char> {
    seq!['/', '/', 'I', 'N', 'J', 'E', 'C', 'T', '/', '/']
}

/// The marker before text that stands in for the start of its line.
pub open spec fn replace_marker() -> Seq<char> {
    seq!['/', '/', 'R', 'E', 'P', 'L', 'A', 'C', 'E', '/', '/']
}

/// The number of white space characters that `s` starts with.
pub open spec fn leading_whitespace(s: Seq<char>) -> nat
    decreases s.len(),
{
    if s.len() == 0 || !is_whitespace(s[0]) {
        0
    } else {
        1 + leading_whitespace(s.drop_first())
    }
}

/// The number of white space characters that `s` ends with.
pub open spec fn trailing_whitespace(s: Seq<char>) -> nat
    decreases s.len(),
{
    if s.len() == 0 || !is_whitespace(s.last()) {
        0
    } else {
        1 + trailing_whitespace(s.drop_last())
    }
}

/// `s` without the white space at its start.
pub open spec fn trimmed_start(s: Seq<char>) -> Seq<char> {
    s.subrange(leading_whitespace(s) as int, s.len() as int)
}

/// `s` without the white space at its start and at its end.
pub open spec fn trimmed(s: Seq<char>) -> Seq<char> {
    let t = trimmed_start(s);
    t.subrange(0, t.len() - trailing_whitespace(t))
}

/// `s` without the copies of `p` that it starts with, one after the other.
pub open spec fn strip_prefixes(s: Seq<char>, p: Seq<char>) -> Seq<char>
    decreases s.len(),
{
    if p.len() > 0 && p.is_prefix_of(s) {
        strip_prefixes(s.subrange(p.len() as int, s.len() as int), p)
    } else {
        s
    }
}

/// The place of the first occurrence of `p` in `s`, if there is one.
pub open spec fn find_first(s: Seq<char>, p: Seq<char>) -> Option<nat>
    decreases s.len(),
{
    if p.is_prefix_of(s) {
        Some(0)
    } else if s.len() == 0 {
        None
    } else {
        match find_first(s.drop_first(), p) {
            Some(k) => Some(k + 1),
            None => None,
        }
    }
}

/// What the compiler is given for the line `line`.
pub open spec fn transformed_line(line: Seq<char>) -> Seq<char> {
    let t = trimmed(line);
    let injected = strip_prefixes(t, inject_marker());
    if injected.len() < t.len() {
        injected
    } else {
        match find_first(t, replace_marker()) {
            Some(k) => t.subrange((k + replace_marker().len()) as int, t.len() as int),
            None => t,
        }
    }
}

/// The place of the first line feed in `s`, if there is one.
pub open spec fn first_line_feed(s: Seq<char>) -> Option<nat>
    decreases s.len(),
{
    if s.len() == 0 {
        None
    } else if s[0] == '\n' {
        Some(0)
    } else {
        match first_line_feed(s.drop_first()) {
            Some(k) => Some(k + 1),
            None => None,
        }
    }
}

/// What the compiler is given for the source `src`: each of its lines, transformed,
/// with a line feed between one and the next.
pub open spec fn transformed_source(src: Seq<char>) -> Seq<char>
    decreases src.len(),
{
    match first_line_feed(src) {
        Some(k) => if k < src.len() {
            transformed_line(src.subrange(0, k as int)) + seq!['\n'] + transformed_source(
                src.subrange((k + 1) as int, src.len() as int),
            )
        } else {
            transformed_line(src)
        },
        None => transformed_line(src),
    }
}

/// A sequence that starts with `n` white space characters and goes on, if at all, with
/// another character starts with exactly `n` of them.
proof fn lemma_leading(s: Seq<char>, n: nat)
    requires
        n <= s.len(),
        forall|i: int| 0 <= i < n ==> is_whitespace(#[trigger] s[i]),
        n == s.len() || !is_whitespace(s[n as int]),
    ensures
        leading_whitespace(s) == n,
    decreases n,
{
    if n > 0 {
        let rest = s.drop_first();
        assert forall|i: int| 0 <= i < n - 1 implies is_whitespace(#[trigger] rest[i]) by {
            assert(rest[i] == s[i + 1]);
        }
        lemma_leading(rest, (n - 1) as nat);
    }
}

/// A sequence that ends with `n` white space characters after, if anything, another
/// character ends with exactly `n` of them.
proof fn lemma_trailing(s: Seq<char>, n: nat)
    requires
        n <= s.len(),
        forall|i: int| s.len() - n <= i < s.len() ==> is_whitespace(#[trigger] s[i]),
        n == s.len() || !is_whitespace(s[s.len() - n - 1]),
    ensures
        trailing_whitespace(s) == n,
    decreases n,
{
    if n > 0 {
        let rest = s.drop_last();
        assert forall|i: int| rest.len() - (n - 1) <= i < rest.len() implies is_whitespace(
            #[trigger] rest[i],
        ) by {
            assert(rest[i] == s[i]);
        }
        lemma_trailing(rest, (n - 1) as nat);
    }
}

/// A sequence that does not hold `p` anywhere before `n`, and holds it at `n`, holds it
/// first at `n`.
proof fn lemma_find_at(s: Seq<char>, p: Seq<char>, n: nat)
    requires
        n <= s.len(),
        forall|i: int| 0 <= i < n ==> !p.is_prefix_of(#[trigger] s.subrange(i, s.len() as int)),
        p.is_prefix_of(s.subrange(n as int, s.len() as int)),
    ensures
        find_first(s, p) == Some(n),
    decreases n,
{
    assert(s.subrange(0, s.len() as int) =~= s);
    if n > 0 {
        let rest = s.drop_first();
        assert forall|i: int| 0 <= i < n - 1 implies !p.is_prefix_of(
            #[trigger] rest.subrange(i, rest.len() as int),
        ) by {
            assert(rest.subrange(i, rest.len() as int) =~= s.subrange(i + 1, s.len() as int));
        }
        assert(rest.subrange(n - 1, rest.len() as int) =~= s.subrange(n as int, s.len() as int));
        lemma_find_at(rest, p, (n - 1) as nat);
    }
}

/// A sequence that does not hold `p` anywhere does not hold it first anywhere.
proof fn lemma_find_nowhere(s: Seq<char>, p: Seq<char>)
    requires
        forall|i: int| 0 <= i <= s.len() ==> !p.is_prefix_of(#[trigger] s.subrange(i, s.len() as int)),
    ensures
        find_first(s, p) is None,
    decreases s.len(),
{
    assert(s.subrange(0, s.len() as int) =~= s);
    if s.len() > 0 {
        let rest = s.drop_first();
        assert forall|i: int| 0 <= i <= rest.len() implies !p.is_prefix_of(
            #[trigger] rest.subrange(i, rest.len() as int),
        ) by {
            assert(rest.subrange(i, rest.len() as int) =~= s.subrange(i + 1, s.len() as int));
        }
        lemma_find_nowhere(rest, p);
    }
}

/// A sequence with no line feed before `n` and one at `n` has its first line feed at `n`.
proof fn lemma_line_feed_at(s: Seq<char>, n: nat)
    requires
        n < s.len(),
        forall|i: int| 0 <= i < n ==> #[trigger] s[i] != '\n',
        s[n as int] == '\n',
    ensures
        first_line_feed(s) == Some(n),
    decreases n,
{
    if n > 0 {
        let rest = s.drop_first();
        assert forall|i: int| 0 <= i < n - 1 implies #[trigger] rest[i] != '\n' by {
            assert(rest[i] == s[i + 1]);
        }
        lemma_line_feed_at(rest, (n - 1) as nat);
    }
}

/// A sequence with no line feed has no first line feed.
proof fn lemma_line_feed_nowhere(s: Seq<char>)
    requires
        forall|i: int| 0 <= i < s.len() ==> #[trigger] s[i] != '\n',
    ensures
        first_line_feed(s) is None,
    decreases s.len(),
{
    if s.len() > 0 {
        let rest = s.drop_first();
        assert forall|i: int| 0 <= i < rest.len() implies #[trigger] rest[i] != '\n' by {
            assert(rest[i] == s[i + 1]);
        }
        lemma_line_feed_nowhere(rest);
    }
}

/// The characters of `s`, in order.
pub fn chars_of(s: &str) -> (v: Vec<char>)
    ensures
        v@ == s@,
{
    broadcast use vstd::string::group_string_axioms;

    let mut v: Vec<char> = Vec::new();
    let mut it = s.chars();
    loop
        invariant
            it.obeys_prophetic_iter_laws(),
            it.decrease() is Some,
            v@ + it.remaining() == s@,
        decreases it.decrease()->0,
    {
        match it.next() {
            Some(c) => {
                v.push(c);
                assert(v@ + it.remaining() =~= s@);
            },
            None => {
                assert(v@ =~= s@);
                return v;
            },
        }
    }
}

/// Whether the characters of `s` from `at` up to `to` start with `p`.
fn starts_with(s: &Vec<char>, at: usize, to: usize, p: &Vec<char>) -> (b: bool)
    requires
        at <= to <= s.len(),
    ensures
        b == p@.is_prefix_of(s@.subrange(at as int, to as int)),
{
    if p.len() > to - at {
        return false;
    }
    let ghost part = s@.subrange(at as int, to as int);
    let mut i: usize = 0;
    while i < p.len()
        invariant
            i <= p.len() <= to - at,
            at <= to <= s.len(),
            part == s@.subrange(at as int, to as int),
            forall|k: int| 0 <= k < i ==> p@[k] == part[k],
        decreases p.len() - i,
    {
        if p[i] != s[at + i] {
            assert(part[i as int] == s@[at + i]);
            assert(part.subrange(0, p@.len() as int)[i as int] == part[i as int]);
            return false;
        }
        assert(part[i as int] == s@[at + i]);
        i += 1;
    }
    assert(p@ =~= part.subrange(0, p@.len() as int));
    true
}

/// The bounds of what is left of the characters of `s` from `from` up to `to` when
/// the white space at both ends is taken away.
fn trim_range(s: &Vec<char>, from: usize, to: usize) -> (r: (usize, usize))
    requires
        from <= to <= s.len(),
    ensures
        from <= r.0 <= r.1 <= to,
        s@.subrange(r.0 as int, r.1 as int) == trimmed(s@.subrange(from as int, to as int)),
{
    let ghost part = s@.subrange(from as int, to as int);
    let mut a: usize = from;
    while a < to && char_is_whitespace(s[a])
        invariant
            from <= a <= to <= s.len(),
            part == s@.subrange(from as int, to as int),
            forall|i: int| 0 <= i < a - from ==> is_whitespace(#[trigger] part[i]),
        decreases to - a,
    {
        assert(part[a - from] == s@[a as int]);
        a += 1;
    }
    proof {
        if a < to {
            assert(part[a - from] == s@[a as int]);
        }
        lemma_leading(part, (a - from) as nat);
    }
    let ghost rest = trimmed_start(part);
    assert(rest =~= s@.subrange(a as int, to as int));
    let mut b: usize = to;
    while b > a && char_is_whitespace(s[b - 1])
        invariant
            a <= b <= to <= s.len(),
            rest == s@.subrange(a as int, to as int),
            forall|i: int| b - a <= i < to - a ==> is_whitespace(#[trigger] rest[i]),
        decreases b,
    {
        assert(rest[b - 1 - a] == s@[b - 1]);
        b -= 1;
    }
    proof {
        if b > a {
            assert(rest[b - 1 - a] == s@[b - 1]);
        }
        lemma_trailing(rest, (to - b) as nat);
        assert(rest.subrange(0, rest.len() - (to - b)) =~= s@.subrange(a as int, b as int));
    }
    (a, b)
}

/// The start of what is left of the characters of `s` from `from` up to `to` when the
/// copies of `p` at their start are taken away.
fn strip_range(s: &Vec<char>, from: usize, to: usize, p: &Vec<char>) -> (a: usize)
    requires
        from <= to <= s.len(),
    ensures
        from <= a <= to,
        s@.subrange(a as int, to as int) == strip_prefixes(
            s@.subrange(from as int, to as int),
            p@,
        ),
{
    if p.len() == 0 {
        return from;
    }
    let mut a: usize = from;
    while starts_with(s, a, to, p)
        invariant
            from <= a <= to <= s.len(),
            p.len() > 0,
            strip_prefixes(s@.subrange(a as int, to as int), p@) == strip_prefixes(
                s@.subrange(from as int, to as int),
                p@,
            ),
        decreases to - a,
    {
        let ghost part = s@.subrange(a as int, to as int);
        assert(part.subrange(p@.len() as int, part.len() as int) =~= s@.subrange(
            a + p@.len(),
            to as int,
        ));
        a += p.len();
    }
    a
}

/// The place in `s` of the first occurrence of `p` among the characters from `from` up
/// to `to`, if there is one.
fn find_range(s: &Vec<char>, from: usize, to: usize, p: &Vec<char>) -> (r: Option<usize>)
    requires
        from <= to <= s.len(),
    ensures
        match r {
            Some(at) => from <= at <= to && find_first(s@.subrange(from as int, to as int), p@)
                == Some((at - from) as nat),
            None => find_first(s@.subrange(from as int, to as int), p@) is None,
        },
{
    let ghost part = s@.subrange(from as int, to as int);
    let mut at: usize = from;
    loop
        invariant
            from <= at <= to <= s.len(),
            part == s@.subrange(from as int, to as int),
            forall|i: int| 0 <= i < at - from ==> !p@.is_prefix_of(#[trigger] part.subrange(i, part.len() as int)),
        decreases to - at,
    {
        assert(part.subrange(at - from, part.len() as int) =~= s@.subrange(at as int, to as int));
        if starts_with(s, at, to, p) {
            proof {
                lemma_find_at(part, p@, (at - from) as nat);
            }
            return Some(at);
        }
        if at == to {
            proof {
                lemma_find_nowhere(part, p@);
            }
            return None;
        }
        at += 1;
    }
}

/// The bounds in `s` of what the compiler is given for the line that the characters of
/// `s` from `from` up to `to` make.
fn transform_line_range(s: &Vec<char>, from: usize, to: usize, inject: &Vec<char>, replace: &Vec<char>) -> (r: (usize, usize))
    requires
        from <= to <= s.len(),
        inject@ == inject_marker(),
        replace@ == replace_marker(),
    ensures
        from <= r.0 <= r.1 <= to,
        s@.subrange(r.0 as int, r.1 as int) == transformed_line(
            s@.subrange(from as int, to as int),
        ),
{
    let (a, b) = trim_range(s, from, to);
    let injected = strip_range(s, a, b, inject);
    if injected > a {
        return (injected, b);
    }
    match find_range(s, a, b, replace) {
        Some(at) => {
            let ghost t = s@.subrange(a as int, b as int);
            proof {
                lemma_found_fits(t, replace@, (at - a) as nat);
                assert(t.subrange(at - a + replace@.len(), t.len() as int) =~= s@.subrange(
                    at + replace@.len(),
                    b as int,
                ));
            }
            (at + replace.len(), b)
        },
        None => (a, b),
    }
}

/// Where `p` occurs first at `k` in `s`, it ends within `s`.
proof fn lemma_found_fits(s: Seq<char>, p: Seq<char>, k: nat)
    requires
        find_first(s, p) == Some(k),
    ensures
        k + p.len() <= s.len(),
    decreases s.len(),
{
    if p.is_prefix_of(s) {
    } else if s.len() > 0 {
        lemma_found_fits(s.drop_first(), p, (k - 1) as nat);
    }
}

/// The characters of the inject marker.
fn inject_chars() -> (m: Vec<char>)
    ensures
        m@ == inject_marker(),
{
    let m: Vec<char> = vec!['/', '/', 'I', 'N', 'J', 'E', 'C', 'T', '/', '/'];
    assert(m@ =~= inject_marker());
    m
}

/// The characters of the replace marker.
fn replace_chars() -> (m: Vec<char>)
    ensures
        m@ == replace_marker(),
{
    let m: Vec<char> = vec!['/', '/', 'R', 'E', 'P', 'L', 'A', 'C', 'E', '/', '/'];
    assert(m@ =~= replace_marker());
    m
}

/// What the compiler is given for the line `line`.
pub fn transform_line(line: &str) -> (out: String)
    ensures
        out@ == transformed_line(line@),
{
    let chars = chars_of(line);
    let inject = inject_chars();
    let replace = replace_chars();
    assert(chars@.subrange(0, chars@.len() as int) =~= chars@);
    let (a, b) = transform_line_range(&chars, 0, chars.len(), &inject, &replace);
    let mut out = String::new();
    let mut i: usize = a;
    while i < b
        invariant
            a <= i <= b <= chars.len(),
            out@ == chars@.subrange(a as int, i as int),
        decreases b - i,
    {
        out.push(chars[i]);
        i += 1;
        assert(out@ =~= chars@.subrange(a as int, i as int));
    }
    out
}

/// What the compiler is given for the source `src`: each of its lines, transformed,
/// with a line feed between one and the next.
pub fn transform_source(src: &str) -> (out: String)
    ensures
        out@ == transformed_source(src@),
{
    let chars = chars_of(src);
    let inject = inject_chars();
    let replace = replace_chars();
    let mut out = String::new();
    let mut start: usize = 0;
    let mut i: usize = 0;
    assert(chars@.subrange(0, chars@.len() as int) =~= chars@);
    assert(out@ + transformed_source(chars@) =~= transformed_source(chars@));
    loop
        invariant
            start <= i <= chars.len(),
            chars@ == src@,
            inject@ == inject_marker(),
            replace@ == replace_marker(),
            forall|k: int| start <= k < i ==> #[trigger] chars@[k] != '\n',
            out@ + transformed_source(chars@.subrange(start as int, chars@.len() as int))
                == transformed_source(chars@),
        decreases chars.len() - i,
    {
        let ghost tail = chars@.subrange(start as int, chars@.len() as int);
        if i == chars.len() || chars[i] == '\n' {
            let (a, b) = transform_line_range(&chars, start, i, &inject, &replace);
            let ghost before = out@;
            let mut k: usize = a;
            while k < b
                invariant
                    a <= k <= b <= chars.len(),
                    out@ == before + chars@.subrange(a as int, k as int),
                decreases b - k,
            {
                out.push(chars[k]);
                k += 1;
                assert(out@ =~= before + chars@.subrange(a as int, k as int));
            }
            assert(tail.subrange(0, i - start) =~= chars@.subrange(start as int, i as int));
            if i == chars.len() {
                proof {
                    assert forall|k: int| 0 <= k < tail.len() implies #[trigger] tail[k] != '\n' by {
                        assert(tail[k] == chars@[start + k]);
                    }
                    lemma_line_feed_nowhere(tail);
                    assert(tail =~= chars@.subrange(start as int, i as int));
                    assert(transformed_source(tail) == transformed_line(tail));
                    assert(out@ == before + transformed_source(tail));
                }
                return out;
            }
            proof {
                assert forall|k: int| 0 <= k < i - start implies #[trigger] tail[k] != '\n' by {
                    assert(tail[k] == chars@[start + k]);
                }
                assert(tail[i - start] == '\n');
                lemma_line_feed_at(tail, (i - start) as nat);
                assert(tail.subrange(i - start + 1, tail.len() as int) =~= chars@.subrange(
                    i + 1,
                    chars@.len() as int,
                ));
            }
            out.push('\n');
            assert(out@ =~= before + chars@.subrange(a as int, b as int) + seq!['\n']);
            proof {
                let next = chars@.subrange(i + 1, chars@.len() as int);
                assert(transformed_source(tail) == transformed_line(tail.subrange(0, i - start))
                    + seq!['\n'] + transformed_source(next));
                assert(out@ + transformed_source(next) =~= before + transformed_source(tail));
            }
            i += 1;
            start = i;
        } else {
            i += 1;
        }
    }
}

} // verus!
