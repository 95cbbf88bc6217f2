use vstd::prelude::*;
use crate::text::chars_of;

verus! {

/// An ASCII letter or digit.
pub open spec fn alnum(c: char) -> bool {
    ('a' <= c && c <= 'z') || ('A' <= c && c <= 'Z') || ('0' <= c && c <= '9')
}

/// An ASCII letter, digit or hyphen.
pub open spec fn alnum_or_hyphen(c: char) -> bool {
    alnum(c) || c == '-'
}

/// An ASCII decimal digit.
pub open spec fn decimal_digit(c: char) -> bool {
    '0' <= c && c <= '9'
}

/// Where the dot-separated segment that ends at position `i` of `s` begins:
/// just after the last dot before `i`, or at 0 when there is none.
pub open spec fn seg_start(s: Seq<char>, i: int) -> int
    decreases i,
{
    if i <= 0 {
        0
    } else if s[i - 1] == '.' {
        i
    } else {
        seg_start(s, i - 1)
    }
}

/// The dot-free segment of `s` that ends at position `i`.
pub open spec fn segment_before(s: Seq<char>, i: int) -> Seq<char> {
    s.subrange(seg_start(s, i), i)
}

/// A label that precedes a dot in a domain name: 1 to 63 letters, digits or
/// hyphens, beginning and ending with a letter or digit.
pub open spec fn label_ok(l: Seq<char>) -> bool {
    &&& 1 <= l.len() <= 63
    &&& alnum(l[0])
    &&& alnum(l[l.len() - 1])
    &&& forall|j: int| 0 <= j < l.len() ==> alnum_or_hyphen(#[trigger] l[j])
}

/// The last label of a domain name: at least two letters, digits or hyphens.
pub open spec fn top_label_ok(l: Seq<char>) -> bool {
    &&& l.len() >= 2
    &&& forall|j: int| 0 <= j < l.len() ==> alnum_or_hyphen(#[trigger] l[j])
}

/// Domain-name syntax: one or more labels, each followed by a dot, then a
/// top-level label.
pub open spec fn domain_ok(s: Seq<char>) -> bool {
    &&& seg_start(s, s.len() as int) > 0
    &&& forall|i: int|
        0 <= i < s.len() && s[i] == '.' ==> #[trigger] label_ok(segment_before(s, i))
    &&& top_label_ok(segment_before(s, s.len() as int))
}

/// The value of a string of decimal digits.
pub open spec fn decimal_value(t: Seq<char>) -> nat
    decreases t.len(),
{
    if t.len() == 0 {
        0
    } else {
        decimal_value(t.drop_last()) * 10 + ((t.last() as u32) - ('0' as u32)) as nat
    }
}

/// How many dots `s` holds.
pub open spec fn dot_count(s: Seq<char>) -> nat
    decreases s.len(),
{
    if s.len() == 0 {
        0
    } else {
        dot_count(s.drop_last()) + if s.last() == '.' { 1nat } else { 0nat }
    }
}

/// One part of a dotted-quad address: one to three decimal digits, with no
/// leading zero, whose value is at most 255.
pub open spec fn octet_ok(t: Seq<char>) -> bool {
    &&& 1 <= t.len() <= 3
    &&& (t.len() > 1 ==> t[0] != '0')
    &&& forall|j: int| 0 <= j < t.len() ==> decimal_digit(#[trigger] t[j])
    &&& decimal_value(t) <= 255
}

/// IPv4 dotted-quad syntax: four octets separated by three dots.
pub open spec fn ipv4_ok(s: Seq<char>) -> bool {
    &&& dot_count(s) == 3
    &&& forall|i: int|
        0 <= i < s.len() && s[i] == '.' ==> #[trigger] octet_ok(segment_before(s, i))
    &&& octet_ok(segment_before(s, s.len() as int))
}

fn all_alnum_or_hyphen(cs: &Vec<char>, from: usize, to: usize) -> (r: bool)
    requires
        from <= to <= cs@.len(),
    ensures
        r == forall|j: int| from <= j < to ==> alnum_or_hyphen(#[trigger] cs@[j]),
{
    let mut k: usize = from;
    while k < to
        invariant
            from <= k <= to <= cs@.len(),
            forall|j: int| from <= j < k ==> alnum_or_hyphen(#[trigger] cs@[j]),
        decreases to - k,
    {
        let c = cs[k];
        if !(('a' <= c && c <= 'z') || ('A' <= c && c <= 'Z') || ('0' <= c && c <= '9')
            || c == '-') {
            return false;
        }
        k = k + 1;
    }
    true
}

fn is_alnum(c: char) -> (r: bool)
    ensures
        r == alnum(c),
{
    ('a' <= c && c <= 'z') || ('A' <= c && c <= 'Z') || ('0' <= c && c <= '9')
}

fn label_at(cs: &Vec<char>, from: usize, to: usize) -> (r: bool)
    requires
        from <= to <= cs@.len(),
    ensures
        r == label_ok(cs@.subrange(from as int, to as int)),
{
    let ghost l = cs@.subrange(from as int, to as int);
    if to - from < 1 || to - from > 63 {
        return false;
    }
    if !is_alnum(cs[from]) || !is_alnum(cs[to - 1]) {
        return false;
    }
    let r = all_alnum_or_hyphen(cs, from, to);
    assert(r == forall|j: int| 0 <= j < l.len() ==> alnum_or_hyphen(#[trigger] l[j])) by {
        if r {
            assert forall|j: int| 0 <= j < l.len() implies alnum_or_hyphen(#[trigger] l[j]) by {
                assert(l[j] == cs@[from + j]);
            }
        } else {
            let j = choose|j: int| from <= j < to && !alnum_or_hyphen(#[trigger] cs@[j]);
            assert(l[j - from] == cs@[j]);
        }
    }
    r
}

fn top_label_at(cs: &Vec<char>, from: usize, to: usize) -> (r: bool)
    requires
        from <= to <= cs@.len(),
    ensures
        r == top_label_ok(cs@.subrange(from as int, to as int)),
{
    let ghost l = cs@.subrange(from as int, to as int);
    if to - from < 2 {
        return false;
    }
    let r = all_alnum_or_hyphen(cs, from, to);
    assert(r == forall|j: int| 0 <= j < l.len() ==> alnum_or_hyphen(#[trigger] l[j])) by {
        if r {
            assert forall|j: int| 0 <= j < l.len() implies alnum_or_hyphen(#[trigger] l[j]) by {
                assert(l[j] == cs@[from + j]);
            }
        } else {
            let j = choose|j: int| from <= j < to && !alnum_or_hyphen(#[trigger] cs@[j]);
            assert(l[j - from] == cs@[j]);
        }
    }
    r
}

/// Whether `s` is a syntactically valid domain name.
pub fn is_domain(s: &str) -> (r: bool)
    ensures
        r == domain_ok(s@),
{
    let cs = chars_of(s);
    let n = cs.len();
    let mut start: usize = 0;
    let mut i: usize = 0;
    while i < n
        invariant
            cs@ == s@,
            n == cs@.len(),
            i <= n,
            start <= i,
            start as int == seg_start(s@, i as int),
            forall|k: int|
                0 <= k < i && s@[k] == '.' ==> #[trigger] label_ok(segment_before(s@, k)),
        decreases n - i,
    {
        if cs[i] == '.' {
            if !label_at(&cs, start, i) {
                assert(!label_ok(segment_before(s@, i as int)));
                return false;
            }
            start = i + 1;
        }
        i = i + 1;
    }
    start > 0 && top_label_at(&cs, start, n)
}

fn octet_at(cs: &Vec<char>, from: usize, to: usize) -> (r: bool)
    requires
        from <= to <= cs@.len(),
    ensures
        r == octet_ok(cs@.subrange(from as int, to as int)),
{
    let ghost t = cs@.subrange(from as int, to as int);
    if to - from < 1 || to - from > 3 {
        return false;
    }
    if to - from > 1 && cs[from] == '0' {
        return false;
    }
    let mut value: u32 = 0;
    let mut k: usize = from;
    while k < to
        invariant
            from <= k <= to <= cs@.len(),
            to - from <= 3,
            t == cs@.subrange(from as int, to as int),
            forall|j: int| 0 <= j < k - from ==> decimal_digit(#[trigger] t[j]),
            value as nat == decimal_value(t.subrange(0, k - from)),
            value < 1000,
            k - from == 0 ==> value == 0,
            k - from == 1 ==> value < 10,
            k - from == 2 ==> value < 100,
        decreases to - k,
    {
        let c = cs[k];
        if !('0' <= c && c <= '9') {
            assert(t[k - from] == c);
            return false;
        }
        assert(t.subrange(0, k + 1 - from).drop_last() =~= t.subrange(0, k - from));
        value = value * 10 + (c as u32 - '0' as u32);
        k = k + 1;
    }
    assert(t.subrange(0, to - from) =~= t);
    value <= 255
}

/// Whether `s` is an IPv4 address written as a dotted quad.
pub fn is_ipv4(s: &str) -> (r: bool)
    ensures
        r == ipv4_ok(s@),
{
    let cs = chars_of(s);
    let n = cs.len();
    let mut start: usize = 0;
    let mut dots: usize = 0;
    let mut i: usize = 0;
    while i < n
        invariant
            cs@ == s@,
            n == cs@.len(),
            i <= n,
            start <= i,
            dots <= i,
            start as int == seg_start(s@, i as int),
            dots as nat == dot_count(s@.subrange(0, i as int)),
            forall|k: int|
                0 <= k < i && s@[k] == '.' ==> #[trigger] octet_ok(segment_before(s@, k)),
        decreases n - i,
    {
        assert(s@.subrange(0, i + 1).drop_last() =~= s@.subrange(0, i as int));
        if cs[i] == '.' {
            if !octet_at(&cs, start, i) {
                assert(!octet_ok(segment_before(s@, i as int)));
                return false;
            }
            start = i + 1;
            dots = dots + 1;
        }
        i = i + 1;
    }
    assert(s@.subrange(0, n as int) =~= s@);
    dots == 3 && octet_at(&cs, start, n)
}

} // verus!
