//! Parsing of the comma-separated endpoint list.
use vstd::prelude::*;

verus! {

/// Unicode white space, as `char::is_whitespace` classifies it.
pub open spec fn is_space(c: char) -> bool {
    let u = c as u32;
    ||| 0x9 <= u <= 0xD
    ||| u == 0x20
    ||| u == 0x85
    ||| u == 0xA0
    ||| u == 0x1680
    ||| 0x2000 <= u <= 0x200A
    ||| u == 0x2028
    ||| u == 0x2029
    ||| u == 0x202F
    ||| u == 0x205F
    ||| u == 0x3000
}

fn space(c: char) -> (r: bool)
    ensures
        r == is_space(c),
{
    let u = c as u32;
    (0x9 <= u && u <= 0xD) || u == 0x20 || u == 0x85 || u == 0xA0 || u == 0x1680 || (0x2000 <= u
        && u <= 0x200A) || u == 0x2028 || u == 0x2029 || u == 0x202F || u == 0x205F || u == 0x3000
}

pub open spec fn trim_start(p: Seq<char>) -> Seq<char>
    decreases p.len(),
{
    if p.len() > 0 && is_space(p[0]) {
        trim_start(p.drop_first())
    } else {
        p
    }
}

pub open spec fn trim_end(p: Seq<char>) -> Seq<char>
    decreases p.len(),
{
    if p.len() > 0 && is_space(p.last()) {
        trim_end(p.drop_last())
    } else {
        p
    }
}

/// `p` without its leading and trailing white space.
pub open spec fn trim(p: Seq<char>) -> Seq<char> {
    trim_end(trim_start(p))
}

/// The pieces of `s` between commas, in order: one more than the commas.
pub open spec fn pieces(s: Seq<char>) -> Seq<Seq<char>>
    decreases s.len(),
{
    if s.len() == 0 {
        seq![Seq::empty()]
    } else {
        let p = pieces(s.drop_last());
        if s.last() == ',' {
            p.push(Seq::empty())
        } else {
            p.update(p.len() - 1, p.last().push(s.last()))
        }
    }
}

/// The trimmed pieces that are not empty, in order, duplicates kept.
pub open spec fn kept(ps: Seq<Seq<char>>) -> Seq<Seq<char>>
    decreases ps.len(),
{
    if ps.len() == 0 {
        Seq::empty()
    } else {
        let rest = kept(ps.drop_last());
        let t = trim(ps.last());
        if t.len() > 0 {
            rest.push(t)
        } else {
            rest
        }
    }
}

/// The endpoints that a comma-separated list names.
pub open spec fn endpoint_list(s: Seq<char>) -> Seq<Seq<char>> {
    kept(pieces(s))
}

pub open spec fn views(v: Seq<String>) -> Seq<Seq<char>> {
    v.map_values(|x: String| x@)
}

/// The bounds, within `s`, of the piece `s[start..end]` trimmed.
fn trim_bounds(s: &str, start: usize, end: usize) -> (r: (usize, usize))
    requires
        start <= end <= s@.len(),
    ensures
        start <= r.0 <= r.1 <= end,
        s@.subrange(r.0 as int, r.1 as int) == trim(s@.subrange(start as int, end as int)),
{
    let mut a = start;
    while a < end && space(s.get_char(a))
        invariant
            start <= a <= end <= s@.len(),
            trim_start(s@.subrange(start as int, end as int)) == trim_start(
                s@.subrange(a as int, end as int),
            ),
        decreases end - a,
    {
        assert(s@.subrange(a as int, end as int).drop_first() =~= s@.subrange(a + 1, end as int));
        a = a + 1;
    }
    let ghost head = s@.subrange(a as int, end as int);
    assert(trim_start(head) == head);
    let mut b = end;
    while b > a && space(s.get_char(b - 1))
        invariant
            start <= a <= b <= end <= s@.len(),
            trim_end(head) == trim_end(s@.subrange(a as int, b as int)),
        decreases b - a,
    {
        assert(s@.subrange(a as int, b as int).drop_last() =~= s@.subrange(a as int, b - 1));
        b = b - 1;
    }
    (a, b)
}

/// Splits a comma-separated list into its endpoints: each piece trimmed of
/// white space, empty pieces left out, order and duplicates kept.
pub fn parse_endpoints(s: &str) -> (r: Vec<String>)
    ensures
        views(r@) == endpoint_list(s@),
{
    let n = s.unicode_len();
    let mut out: Vec<String> = Vec::new();
    let ghost mut done: Seq<Seq<char>> = Seq::empty();
    let mut start: usize = 0;
    let mut i: usize = 0;
    assert(s@.take(0) =~= Seq::<char>::empty());
    assert(s@.subrange(0, 0) =~= Seq::<char>::empty());
    assert(pieces(s@.take(0)) =~= done.push(s@.subrange(0, 0)));
    while i < n
        invariant
            n == s@.len(),
            start <= i <= n,
            pieces(s@.take(i as int)) == done.push(s@.subrange(start as int, i as int)),
            views(out@) == kept(done),
        decreases n - i,
    {
        let c = s.get_char(i);
        assert(s@.take(i + 1).drop_last() =~= s@.take(i as int));
        if c == ',' {
            let (a, b) = trim_bounds(s, start, i);
            let ghost piece = s@.subrange(start as int, i as int);
            assert(done.push(piece).drop_last() =~= done);
            if a < b {
                let t = String::from_str(s.substring_char(a, b));
                out.push(t);
                assert(views(out@) =~= kept(done).push(trim(piece)));
            }
            proof {
                done = done.push(piece);
            }
            assert(s@.subrange(i + 1, i + 1) =~= Seq::<char>::empty());
            start = i + 1;
        } else {
            assert(s@.subrange(start as int, i + 1) =~= s@.subrange(start as int, i as int).push(c));
            assert(done.push(s@.subrange(start as int, i as int)).update(
                done.len() as int,
                s@.subrange(start as int, i + 1),
            ) =~= done.push(s@.subrange(start as int, i + 1)));
        }
        i = i + 1;
    }
    let (a, b) = trim_bounds(s, start, n);
    let ghost piece = s@.subrange(start as int, n as int);
    assert(s@.take(n as int) =~= s@);
    assert(done.push(piece).drop_last() =~= done);
    if a < b {
        let t = String::from_str(s.substring_char(a, b));
        out.push(t);
        assert(views(out@) =~= kept(done).push(trim(piece)));
    }
    out
}

} // verus!
