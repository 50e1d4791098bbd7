//! Normalisation of task input of the form `task name #tag1 #tag2 ...` into
//! a task name and a canonical tag list.

use vstd::prelude::*;
use vstd::string::*;
use itertools::Itertools;
use crate::text::{split_on, trim, trim_range, split_ranges, range_texts, ranges_within, is_blank};

verus! {

/// The lowercase form of `s` as `str::to_lowercase` of the standard library
/// gives it.
pub uninterp spec fn lowercase(s: Seq<char>) -> Seq<char>;

/// Calls `str::to_lowercase`; the contract only gives its result a name.
#[verifier::external_body]
fn to_lowercase(s: &str) -> (out: String)
    ensures
        out@ == lowercase(s@),
{
    s.to_lowercase()
}

/// The character sequences that a sequence of strings holds.
pub open spec fn texts(v: Seq<String>) -> Seq<Seq<char>> {
    Seq::new(v.len(), |i: int| v[i]@)
}

/// The items of `items` in order, each kept only where it occurs first.
pub open spec fn first_occurrences(items: Seq<Seq<char>>) -> Seq<Seq<char>>
    decreases items.len(),
{
    if items.len() == 0 {
        Seq::<Seq<char>>::empty()
    } else {
        let front = first_occurrences(items.drop_last());
        if items.drop_last().contains(items.last()) {
            front
        } else {
            front.push(items.last())
        }
    }
}

/// Runs the strings through `Itertools::unique`, which keeps the first of
/// each group of equal items and leaves the order of what it keeps as it was.
/// Two strings are equal exactly if they hold the same characters.
#[verifier::external_body]
fn unique_strings(items: Vec<String>) -> (out: Vec<String>)
    ensures
        texts(out@) == first_occurrences(texts(items@)),
{
    items.into_iter().unique().collect()
}

/// The tags that the pieces give before duplicates are removed: each piece
/// trimmed, empty ones left out, the others in lowercase.
pub open spec fn tag_candidates(pieces: Seq<Seq<char>>) -> Seq<Seq<char>>
    decreases pieces.len(),
{
    if pieces.len() == 0 {
        Seq::<Seq<char>>::empty()
    } else {
        let front = tag_candidates(pieces.drop_last());
        let t = trim(pieces.last());
        if t.len() == 0 {
            front
        } else {
            front.push(lowercase(t))
        }
    }
}

/// The tags joined by a space and a hash sign, with no hash sign in front.
pub open spec fn join_tags(tags: Seq<Seq<char>>) -> Seq<char>
    decreases tags.len(),
{
    if tags.len() == 0 {
        Seq::<char>::empty()
    } else if tags.len() == 1 {
        tags[0]
    } else {
        join_tags(tags.drop_last()) + seq![' ', '#'] + tags.last()
    }
}

/// The canonical tags of the pieces: lowercase, non-blank, each once, in the
/// order of first appearance.
pub open spec fn canonical_tags(pieces: Seq<Seq<char>>) -> Seq<Seq<char>> {
    first_occurrences(tag_candidates(pieces))
}

/// The task name in `input`: what stands before the first hash sign, trimmed.
pub open spec fn task_name_of(input: Seq<char>) -> Seq<char> {
    trim(split_on(input, '#')[0])
}

/// The canonical tag list of `input`: the tags after the task name.
pub open spec fn tag_list_of(input: Seq<char>) -> Seq<char> {
    join_tags(canonical_tags(split_on(input, '#').drop_first()))
}

/// The canonical tag list of a text that holds tags only.
pub open spec fn tag_list_of_tags(text: Seq<char>) -> Seq<char> {
    join_tags(canonical_tags(split_on(text, '#')))
}

/// What `first_occurrences` keeps holds nothing twice, and holds exactly the
/// values that occur in `items`.
pub proof fn first_occurrences_distinct(items: Seq<Seq<char>>)
    ensures
        first_occurrences(items).no_duplicates(),
        forall|x: Seq<char>| first_occurrences(items).contains(x) <==> items.contains(x),
    decreases items.len(),
{
    if items.len() > 0 {
        let front = items.drop_last();
        let last = items.last();
        first_occurrences_distinct(front);
        let kept = first_occurrences(front);
        assert forall|x: Seq<char>| first_occurrences(items).contains(x) <==> items.contains(
            x,
        ) by {
            if items.contains(x) {
                let i = choose|i: int| 0 <= i < items.len() && items[i] == x;
                if i < front.len() {
                    assert(front[i] == x);
                    assert(front.contains(x));
                    assert(kept.contains(x));
                    if !front.contains(last) {
                        let j = choose|j: int| 0 <= j < kept.len() && kept[j] == x;
                        assert(kept.push(last)[j] == x);
                    }
                } else {
                    assert(x == last);
                    if !front.contains(last) {
                        assert(kept.push(last)[kept.len() as int] == last);
                    }
                }
            }
            if first_occurrences(items).contains(x) {
                let j = choose|j: int|
                    0 <= j < first_occurrences(items).len() && first_occurrences(items)[j] == x;
                if j < kept.len() {
                    assert(kept[j] == x);
                    assert(front.contains(x));
                    let i = choose|i: int| 0 <= i < front.len() && front[i] == x;
                    assert(items[i] == x);
                } else {
                    assert(items[items.len() - 1] == x);
                }
            }
        }
        if !front.contains(last) {
            assert(!kept.contains(last));
            assert forall|i: int, j: int|
                0 <= i < kept.len() + 1 && 0 <= j < kept.len() + 1 && i != j implies kept.push(
                last,
            )[i] != kept.push(last)[j] by {
                if i < kept.len() && j < kept.len() {
                } else if i < kept.len() {
                    assert(kept.contains(kept[i]));
                } else {
                    assert(kept.contains(kept[j]));
                }
            }
        }
    }
}

/// Every canonical tag is the lowercase form of a piece's trimmed text, which
/// is not empty, and no canonical tag occurs twice.
pub proof fn canonical_tags_are_clean(pieces: Seq<Seq<char>>)
    ensures
        canonical_tags(pieces).no_duplicates(),
        forall|x: Seq<char>| #[trigger]
            canonical_tags(pieces).contains(x) ==> exists|i: int|
                0 <= i < pieces.len() && trim(#[trigger] pieces[i]).len() > 0 && x == lowercase(
                    trim(pieces[i]),
                ),
{
    first_occurrences_distinct(tag_candidates(pieces));
    assert forall|x: Seq<char>| #[trigger] canonical_tags(pieces).contains(x) implies exists|i: int|
        0 <= i < pieces.len() && trim(#[trigger] pieces[i]).len() > 0 && x == lowercase(
            trim(pieces[i]),
        ) by {
        assert(tag_candidates(pieces).contains(x));
        candidates_come_from_pieces(pieces, x);
    }
}

/// A tag candidate is the lowercase form of some piece's non-empty trimmed
/// text.
pub proof fn candidates_come_from_pieces(pieces: Seq<Seq<char>>, x: Seq<char>)
    requires
        tag_candidates(pieces).contains(x),
    ensures
        exists|i: int|
            0 <= i < pieces.len() && trim(#[trigger] pieces[i]).len() > 0 && x == lowercase(
                trim(pieces[i]),
            ),
    decreases pieces.len(),
{
    if pieces.len() > 0 {
        let front = pieces.drop_last();
        let t = trim(pieces.last());
        let kept = tag_candidates(front);
        let j = choose|j: int| 0 <= j < tag_candidates(pieces).len() && tag_candidates(pieces)[j] == x;
        if j < kept.len() {
            assert(kept[j] == x);
            assert(kept.contains(x));
            candidates_come_from_pieces(front, x);
            let i = choose|i: int|
                0 <= i < front.len() && trim(#[trigger] front[i]).len() > 0 && x == lowercase(
                    trim(front[i]),
                );
            assert(pieces[i] == front[i]);
        } else {
            assert(x == lowercase(t));
            assert(trim(pieces[pieces.len() - 1]).len() > 0);
        }
    }
}

/// The tag candidates of the pieces that `ranges` select from index `from`
/// on.
fn collect_tags(input: &str, ranges: &Vec<(usize, usize)>, from: usize) -> (tags: Vec<String>)
    requires
        from <= ranges@.len(),
        ranges_within(ranges@, input@.len()),
    ensures
        texts(tags@) == tag_candidates(
            range_texts(input@, ranges@).subrange(from as int, ranges@.len() as int),
        ),
{
    let ghost pieces = range_texts(input@, ranges@);
    let mut tags: Vec<String> = Vec::new();
    let mut k: usize = from;
    proof {
        assert(texts(tags@) =~= Seq::<Seq<char>>::empty());
        assert(pieces.subrange(from as int, from as int).len() == 0);
    }
    while k < ranges.len()
        invariant
            from <= k <= ranges@.len(),
            ranges_within(ranges@, input@.len()),
            pieces == range_texts(input@, ranges@),
            texts(tags@) == tag_candidates(pieces.subrange(from as int, k as int)),
        decreases ranges@.len() - k,
    {
        let r = ranges[k];
        let t = trim_range(input, r.0, r.1);
        let ghost before = texts(tags@);
        proof {
            let upto = pieces.subrange(from as int, k as int + 1);
            assert(upto.drop_last() =~= pieces.subrange(from as int, k as int));
            assert(upto.last() == input@.subrange(r.0 as int, r.1 as int));
        }
        if t.0 < t.1 {
            let low = to_lowercase(input.substring_char(t.0, t.1));
            tags.push(low);
            proof {
                assert(texts(tags@) =~= before.push(low@));
            }
        }
        k += 1;
    }
    proof {
        assert(pieces.subrange(from as int, ranges@.len() as int) == pieces.subrange(
            from as int,
            k as int,
        ));
    }
    tags
}

/// Joins the tags with `" #"` between them; no hash sign stands in front of
/// the first.
pub fn join_tag_list(tags: &Vec<String>) -> (out: String)
    ensures
        out@ == join_tags(texts(tags@)),
{
    let mut out = String::new();
    let mut k: usize = 0;
    proof {
        assert(texts(tags@).take(0).len() == 0);
    }
    while k < tags.len()
        invariant
            k <= tags@.len(),
            out@ == join_tags(texts(tags@).take(k as int)),
        decreases tags@.len() - k,
    {
        proof {
            reveal_strlit(" #");
            assert(" #"@ =~= seq![' ', '#']);
            let upto = texts(tags@).take(k as int + 1);
            assert(upto.drop_last() =~= texts(tags@).take(k as int));
            assert(upto.last() == tags@[k as int]@);
            if k == 0 {
                assert(Seq::<char>::empty() + tags@[0]@ =~= tags@[0]@);
            }
        }
        if k > 0 {
            out.append(" #");
        }
        out.append(tags[k].as_str());
        k += 1;
    }
    proof {
        assert(texts(tags@).take(k as int) =~= texts(tags@));
    }
    out
}

/// Splits raw task input into the task name and the canonical tag list.
///
/// The name is the text before the first `#`, trimmed. Every later piece is
/// a tag: trimmed, dropped if empty, put in lowercase, and kept only where it
/// first occurs. The tags are joined by `" #"`. Empty input gives an empty
/// name and an empty list.
pub fn normalize(input: &str) -> (out: (String, String))
    ensures
        out.0@ == task_name_of(input@),
        out.1@ == tag_list_of(input@),
{
    let ranges = split_ranges(input, '#');
    let first = ranges[0];
    let name_range = trim_range(input, first.0, first.1);
    let name = input.substring_char(name_range.0, name_range.1).to_owned();
    let tags = unique_strings(collect_tags(input, &ranges, 1));
    proof {
        assert(range_texts(input@, ranges@).subrange(1, ranges@.len() as int) =~= split_on(
            input@,
            '#',
        ).drop_first());
    }
    (name, join_tag_list(&tags))
}

/// The canonical tag list of a text that holds tags only, as typed into a
/// separate tags field: every piece between hash signs is a tag.
pub fn normalize_tags(text: &str) -> (out: String)
    ensures
        out@ == tag_list_of_tags(text@),
{
    let ranges = split_ranges(text, '#');
    let tags = unique_strings(collect_tags(text, &ranges, 0));
    proof {
        assert(range_texts(text@, ranges@).subrange(0, ranges@.len() as int) =~= split_on(
            text@,
            '#',
        ));
    }
    join_tag_list(&tags)
}

/// Whether the input names a task, so that a timer may be started on it.
pub fn can_start(input: &str) -> (b: bool)
    ensures
        b == (task_name_of(input@).len() > 0),
{
    let ranges = split_ranges(input, '#');
    let first = ranges[0];
    let name_range = trim_range(input, first.0, first.1);
    name_range.0 < name_range.1
}

/// The input text that starts a saved task again.
pub open spec fn duplicate_text_of(task_name: Seq<char>, tags: Seq<char>) -> Seq<char> {
    if trim(tags).len() == 0 {
        task_name
    } else {
        task_name + seq![' ', '#'] + tags
    }
}

/// The input text that starts a saved task again: its name, followed by
/// `" #"` and its tag list unless that is blank.
pub fn duplicate_text(task_name: &str, tags: &str) -> (out: String)
    ensures
        out@ == duplicate_text_of(task_name@, tags@),
{
    let mut out = task_name.to_owned();
    if !is_blank(tags) {
        proof {
            reveal_strlit(" #");
            assert(" #"@ =~= seq![' ', '#']);
        }
        out.append(" #");
        out.append(tags);
    }
    out
}

} // verus!
