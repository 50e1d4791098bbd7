//! Text primitives over sequences of characters: splitting on a delimiter
//! and trimming white space, with executable versions that work on index
//! ranges of a string slice.

use vstd::prelude::*;
use vstd::string::*;

verus! {

/// Whether `c` is white space as `char::is_whitespace` of the standard
/// library decides it (the Unicode property `White_Space`).
pub uninterp spec fn white_space(c: char) -> bool;

/// Calls `char::is_whitespace`; the contract only gives its answer a name.
#[verifier::external_body]
pub(crate) fn is_white_space(c: char) -> (b: bool)
    ensures
        b == white_space(c),
{
    c.is_whitespace()
}

/// The pieces of `s` between occurrences of `d`. There is always at least
/// one piece; `n` delimiters give `n + 1` pieces, some possibly empty.
pub open spec fn split_on(s: Seq<char>, d: char) -> Seq<Seq<char>>
    decreases s.len(),
{
    if s.len() == 0 {
        seq![Seq::<char>::empty()]
    } else {
        let front = split_on(s.drop_last(), d);
        if s.last() == d {
            front.push(Seq::<char>::empty())
        } else {
            front.drop_last().push(front.last().push(s.last()))
        }
    }
}

/// A split always has a first piece.
pub proof fn split_on_has_piece(s: Seq<char>, d: char)
    ensures
        split_on(s, d).len() >= 1,
    decreases s.len(),
{
    if s.len() > 0 {
        split_on_has_piece(s.drop_last(), d);
    }
}

/// `s` without its leading white space.
pub open spec fn trim_start(s: Seq<char>) -> Seq<char>
    decreases s.len(),
{
    if s.len() > 0 && white_space(s[0]) {
        trim_start(s.drop_first())
    } else {
        s
    }
}

/// `s` without its trailing white space.
pub open spec fn trim_end(s: Seq<char>) -> Seq<char>
    decreases s.len(),
{
    if s.len() > 0 && white_space(s.last()) {
        trim_end(s.drop_last())
    } else {
        s
    }
}

/// `s` without leading and trailing white space.
pub open spec fn trim(s: Seq<char>) -> Seq<char> {
    trim_end(trim_start(s))
}

/// What `trim_start` leaves does not begin with white space.
pub proof fn trim_start_is_clean(s: Seq<char>)
    ensures
        trim_start(s).len() > 0 ==> !white_space(trim_start(s)[0]),
    decreases s.len(),
{
    if s.len() > 0 && white_space(s[0]) {
        trim_start_is_clean(s.drop_first());
    }
}

/// What `trim_end` leaves is a prefix of the text and does not end with
/// white space.
pub proof fn trim_end_is_clean(s: Seq<char>)
    ensures
        trim_end(s).len() <= s.len(),
        trim_end(s) == s.take(trim_end(s).len() as int),
        trim_end(s).len() > 0 ==> !white_space(trim_end(s).last()),
    decreases s.len(),
{
    if s.len() > 0 && white_space(s.last()) {
        trim_end_is_clean(s.drop_last());
        let k = trim_end(s).len() as int;
        assert(s.drop_last().take(k) =~= s.take(k));
    } else {
        assert(s.take(s.len() as int) =~= s);
    }
}

/// Trimmed text neither begins nor ends with white space.
pub proof fn trim_is_clean(s: Seq<char>)
    ensures
        trim(s).len() > 0 ==> !white_space(trim(s)[0]) && !white_space(trim(s).last()),
{
    trim_start_is_clean(s);
    trim_end_is_clean(trim_start(s));
}

/// The pieces of `s` that the index ranges select.
pub open spec fn range_texts(s: Seq<char>, ranges: Seq<(usize, usize)>) -> Seq<Seq<char>> {
    Seq::new(ranges.len(), |k: int| s.subrange(ranges[k].0 as int, ranges[k].1 as int))
}

/// Every range is ordered and ends within `n` characters.
pub open spec fn ranges_within(ranges: Seq<(usize, usize)>, n: nat) -> bool {
    forall|k: int| 0 <= k < ranges.len() ==> (#[trigger] ranges[k]).0 <= ranges[k].1 <= n
}

/// The ranges cover `n` characters from the first to the last, with exactly
/// one character, the delimiter, between each range and the next.
pub open spec fn ranges_adjacent(ranges: Seq<(usize, usize)>, n: nat) -> bool {
    &&& ranges.len() >= 1
    &&& ranges[0].0 == 0
    &&& ranges.last().1 == n
    &&& forall|k: int| 0 <= k < ranges.len() - 1 ==> (#[trigger] ranges[k]).1 + 1 == ranges[k + 1].0
}

/// Splits `s` on `d`, giving each piece as a range of character indices.
pub fn split_ranges(s: &str, d: char) -> (ranges: Vec<(usize, usize)>)
    ensures
        ranges@.len() >= 1,
        ranges_within(ranges@, s@.len()),
        ranges_adjacent(ranges@, s@.len()),
        range_texts(s@, ranges@) == split_on(s@, d),
{
    let n: usize = s.unicode_len();
    let mut ranges: Vec<(usize, usize)> = Vec::new();
    let mut st: usize = 0;
    let mut i: usize = 0;
    proof {
        assert(s@.subrange(0, 0) =~= Seq::<char>::empty());
        assert(range_texts(s@, ranges@).push(s@.subrange(0, 0)) =~= seq![Seq::<char>::empty()]);
        assert(s@.take(0).len() == 0);
    }
    while i < n
        invariant
            n == s@.len(),
            st <= i <= n,
            ranges_within(ranges@, s@.len()),
            ranges@.len() == 0 ==> st == 0,
            ranges@.len() > 0 ==> ranges@[0].0 == 0 && ranges@.last().1 + 1 == st,
            forall|k: int|
                0 <= k < ranges@.len() - 1 ==> (#[trigger] ranges@[k]).1 + 1 == ranges@[k + 1].0,
            range_texts(s@, ranges@).push(s@.subrange(st as int, i as int)) == split_on(
                s@.take(i as int),
                d,
            ),
        decreases n - i,
    {
        let c = s.get_char(i);
        let ghost done = range_texts(s@, ranges@);
        let ghost cur = s@.subrange(st as int, i as int);
        proof {
            let t = s@.take(i as int + 1);
            assert(t.drop_last() =~= s@.take(i as int));
            assert(t.last() == c);
            assert(done.push(cur).drop_last() =~= done);
            assert(done.push(cur).last() == cur);
        }
        if c == d {
            ranges.push((st, i));
            st = i + 1;
            proof {
                assert(range_texts(s@, ranges@) =~= done.push(cur));
                assert(s@.subrange(st as int, st as int) =~= Seq::<char>::empty());
            }
        } else {
            proof {
                assert(cur.push(c) =~= s@.subrange(st as int, i as int + 1));
            }
        }
        i += 1;
    }
    let ghost done = range_texts(s@, ranges@);
    ranges.push((st, n));
    proof {
        assert(s@.take(n as int) =~= s@);
        assert(range_texts(s@, ranges@) =~= done.push(s@.subrange(st as int, n as int)));
    }
    ranges
}

/// Narrows the range `lo..hi` of `s` to what remains after trimming.
pub(crate) fn trim_range(s: &str, lo: usize, hi: usize) -> (r: (usize, usize))
    requires
        lo <= hi <= s@.len(),
    ensures
        lo <= r.0 <= r.1 <= hi,
        s@.subrange(r.0 as int, r.1 as int) == trim(s@.subrange(lo as int, hi as int)),
{
    let mut a: usize = lo;
    let mut scanning = true;
    while scanning && a < hi
        invariant
            lo <= a <= hi <= s@.len(),
            trim_start(s@.subrange(a as int, hi as int)) == trim_start(
                s@.subrange(lo as int, hi as int),
            ),
            !scanning ==> a < hi && !white_space(s@[a as int]),
        decreases (hi - a) + (if scanning { 1int } else { 0int }),
    {
        let c = s.get_char(a);
        if is_white_space(c) {
            proof {
                assert(s@.subrange(a as int, hi as int).drop_first() =~= s@.subrange(
                    a as int + 1,
                    hi as int,
                ));
            }
            a += 1;
        } else {
            scanning = false;
        }
    }
    let ghost front = s@.subrange(a as int, hi as int);
    assert(trim_start(front) == front);
    let mut b: usize = hi;
    let mut scanning_back = true;
    while scanning_back && b > a
        invariant
            a <= b <= hi <= s@.len(),
            trim_end(s@.subrange(a as int, b as int)) == trim_end(front),
            !scanning_back ==> b > a && !white_space(s@[b as int - 1]),
        decreases (b - a) + (if scanning_back { 1int } else { 0int }),
    {
        let c = s.get_char(b - 1);
        if is_white_space(c) {
            proof {
                assert(s@.subrange(a as int, b as int).drop_last() =~= s@.subrange(
                    a as int,
                    b as int - 1,
                ));
            }
            b -= 1;
        } else {
            scanning_back = false;
        }
    }
    assert(trim_end(s@.subrange(a as int, b as int)) == s@.subrange(a as int, b as int));
    (a, b)
}

/// A copy of `s` without leading and trailing white space.
pub fn trimmed(s: &str) -> (out: String)
    ensures
        out@ == trim(s@),
{
    let n: usize = s.unicode_len();
    proof {
        assert(s@.subrange(0, n as int) =~= s@);
    }
    let r = trim_range(s, 0, n);
    s.substring_char(r.0, r.1).to_owned()
}

/// Whether `s` holds nothing but white space.
pub fn is_blank(s: &str) -> (b: bool)
    ensures
        b == (trim(s@).len() == 0),
{
    let n: usize = s.unicode_len();
    proof {
        assert(s@.subrange(0, n as int) =~= s@);
    }
    let r = trim_range(s, 0, n);
    r.0 == r.1
}

} // verus!
