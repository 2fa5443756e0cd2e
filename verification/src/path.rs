//! Splitting a request path into its resource and its slug.
//!
//! A path is cut at every `/`. The piece at index 1 names the resource, the
//! piece at index 2, where there is one, is the slug that identifies one
//! entity. Pieces are taken as they stand: nothing is decoded or rejected.

use vstd::prelude::*;
use vstd::string::*;

verus! {

/// The character that separates the pieces of a path.
pub const PATH_SEPARATOR: char = '/';

/// The position of the first `sep` in `s`, or `s.len()` where `s` holds none.
pub open spec fn first_index(s: Seq<char>, sep: char) -> int
    decreases s.len(),
{
    if s.len() == 0 {
        0
    } else if s[0] == sep {
        0
    } else {
        1 + first_index(s.drop_first(), sep)
    }
}

/// The pieces of `s` between the occurrences of `sep`, in order. A text with
/// `n` separators has `n + 1` pieces, some of them possibly empty.
pub open spec fn split_on(s: Seq<char>, sep: char) -> Seq<Seq<char>>
    decreases s.len(),
{
    let i = first_index(s, sep);
    if 0 <= i < s.len() {
        seq![s.take(i)] + split_on(s.skip(i + 1), sep)
    } else {
        seq![s]
    }
}

/// The pieces put together again, with `sep` between neighbours.
pub open spec fn join_with(pieces: Seq<Seq<char>>, sep: char) -> Seq<char>
    decreases pieces.len(),
{
    if pieces.len() == 0 {
        Seq::empty()
    } else if pieces.len() == 1 {
        pieces[0]
    } else {
        pieces[0] + seq![sep] + join_with(pieces.drop_first(), sep)
    }
}

/// Whether the path has a piece at index 1, that is, holds a `/` at all.
pub open spec fn has_resource(path: Seq<char>) -> bool {
    split_on(path, PATH_SEPARATOR).len() > 1
}

/// The resource of a path: its piece at index 1.
pub open spec fn resource_of(path: Seq<char>) -> Seq<char>
    recommends
        has_resource(path),
{
    split_on(path, PATH_SEPARATOR)[1]
}

/// The slug of a path: its piece at index 2, or the empty text where the
/// path has no such piece.
pub open spec fn slug_of(path: Seq<char>) -> Seq<char> {
    let pieces = split_on(path, PATH_SEPARATOR);
    if pieces.len() > 2 {
        pieces[2]
    } else {
        Seq::empty()
    }
}

/// `first_index` is the least position that holds `sep`, and the length of
/// the text where no position does.
pub proof fn lemma_first_index(s: Seq<char>, sep: char)
    ensures
        0 <= first_index(s, sep) <= s.len(),
        forall|j: int| 0 <= j < first_index(s, sep) ==> s[j] != sep,
        first_index(s, sep) < s.len() ==> s[first_index(s, sep)] == sep,
    decreases s.len(),
{
    if s.len() > 0 && s[0] != sep {
        let rest = s.drop_first();
        lemma_first_index(rest, sep);
        assert forall|j: int| 0 <= j < first_index(s, sep) implies s[j] != sep by {
            if j > 0 {
                assert(s[j] == rest[j - 1]);
            }
        }
        assert(first_index(s, sep) < s.len() ==> s[first_index(s, sep)] == rest[first_index(
            rest,
            sep,
        )]);
    }
}

/// A position that no separator precedes, and that holds one or ends the
/// text, is the `first_index`.
pub proof fn lemma_first_index_at(s: Seq<char>, sep: char, i: int)
    requires
        0 <= i <= s.len(),
        forall|j: int| 0 <= j < i ==> s[j] != sep,
        i < s.len() ==> s[i] == sep,
    ensures
        first_index(s, sep) == i,
{
    lemma_first_index(s, sep);
    let f = first_index(s, sep);
    if f < i {
        assert(s[f] != sep);
    } else if i < f {
        assert(s[i] == sep);
    }
}

/// No piece of a split holds the separator.
pub proof fn lemma_pieces_lack_separator(s: Seq<char>, sep: char)
    ensures
        forall|k: int, j: int|
            0 <= k < split_on(s, sep).len() && 0 <= j < split_on(s, sep)[k].len()
                ==> #[trigger] split_on(s, sep)[k][j] != sep,
    decreases s.len(),
{
    lemma_first_index(s, sep);
    let i = first_index(s, sep);
    if 0 <= i < s.len() {
        let rest = s.skip(i + 1);
        lemma_pieces_lack_separator(rest, sep);
        let pieces = split_on(s, sep);
        assert forall|k: int, j: int| 0 <= k < pieces.len() && 0 <= j < pieces[k].len() implies (
        #[trigger] pieces[k][j]) != sep by {
            if k == 0 {
                assert(pieces[0] == s.take(i));
                assert(pieces[0][j] == s[j]);
            } else {
                assert(pieces[k] == split_on(rest, sep)[k - 1]);
            }
        }
    }
}

/// Joining the pieces of a split with the separator gives the text back.
pub proof fn lemma_split_rejoins(s: Seq<char>, sep: char)
    ensures
        split_on(s, sep).len() >= 1,
        join_with(split_on(s, sep), sep) == s,
    decreases s.len(),
{
    lemma_first_index(s, sep);
    let i = first_index(s, sep);
    if 0 <= i < s.len() {
        let rest = s.skip(i + 1);
        lemma_split_rejoins(rest, sep);
        let pieces = split_on(s, sep);
        assert(pieces.drop_first() =~= split_on(rest, sep));
        assert(pieces[0] == s.take(i));
        assert(s.take(i) + seq![sep] + rest =~= s);
    }
}

/// A path has a resource exactly where it holds a `/`.
pub proof fn lemma_has_resource(path: Seq<char>)
    ensures
        has_resource(path) <==> exists|j: int| 0 <= j < path.len() && path[j] == PATH_SEPARATOR,
{
    lemma_first_index(path, PATH_SEPARATOR);
    let i = first_index(path, PATH_SEPARATOR);
    if i < path.len() {
        lemma_split_rejoins(path.skip(i + 1), PATH_SEPARATOR);
        assert(path[i] == PATH_SEPARATOR);
    }
}

/// Where `at` is the first position that holds a separator, the split
/// begins with what stands before `at` and goes on with the split of what
/// follows it.
pub proof fn lemma_split_at(s: Seq<char>, sep: char, at: int)
    requires
        0 <= at < s.len(),
        forall|j: int| 0 <= j < at ==> s[j] != sep,
        s[at] == sep,
    ensures
        split_on(s, sep) == seq![s.take(at)] + split_on(s.skip(at + 1), sep),
{
    lemma_first_index_at(s, sep, at);
}

/// A text without a separator is its own single piece.
pub proof fn lemma_split_whole(s: Seq<char>, sep: char)
    requires
        forall|j: int| 0 <= j < s.len() ==> s[j] != sep,
    ensures
        split_on(s, sep) == seq![s],
{
    lemma_first_index_at(s, sep, s.len() as int);
}

/// `lemma_split_at` for the text from `start` on.
proof fn lemma_split_step(s: Seq<char>, sep: char, start: int, at: int)
    requires
        0 <= start <= at < s.len(),
        forall|j: int| start <= j < at ==> s[j] != sep,
        s[at] == sep,
    ensures
        split_on(s.skip(start), sep) == seq![s.subrange(start, at)] + split_on(
            s.skip(at + 1),
            sep,
        ),
{
    let tail = s.skip(start);
    lemma_split_at(tail, sep, at - start);
    assert(tail.take(at - start) =~= s.subrange(start, at));
    assert(tail.skip(at - start + 1) =~= s.skip(at + 1));
}

/// `lemma_split_whole` for the text from `start` on.
proof fn lemma_split_last(s: Seq<char>, sep: char, start: int)
    requires
        0 <= start <= s.len(),
        forall|j: int| start <= j < s.len() ==> s[j] != sep,
    ensures
        split_on(s.skip(start), sep) == seq![s.subrange(start, s.len() as int)],
{
    let tail = s.skip(start);
    lemma_split_whole(tail, sep);
    assert(tail =~= s.subrange(start, s.len() as int));
}

/// The piece at index `k` of `text` split at `sep`, or `None` where the
/// split has no such piece.
pub fn nth_segment<'a>(text: &'a str, sep: char, k: usize) -> (piece: Option<&'a str>)
    ensures
        piece is Some <==> k < split_on(text@, sep).len(),
        piece matches Some(p) ==> p@ == split_on(text@, sep)[k as int],
{
    let total = text.unicode_len();
    let ghost s = text@;
    let ghost mut done: Seq<Seq<char>> = Seq::empty();
    let mut start: usize = 0;
    let mut seen: usize = 0;
    let mut i: usize = 0;
    proof {
        assert(s.skip(0) =~= s);
        assert(done + split_on(s.skip(0), sep) =~= split_on(s, sep));
    }
    for c in it: text.chars()
        invariant
            it.seq() == s,
            s == text@,
            s.len() == total,
            i == it.index(),
            start <= i,
            seen <= k,
            done.len() == seen,
            split_on(s, sep) == done + split_on(s.skip(start as int), sep),
            forall|j: int| start <= j < i ==> s[j] != sep,
    {
        if c == sep {
            proof {
                lemma_split_step(s, sep, start as int, i as int);
            }
            if seen == k {
                return Some(text.substring_char(start, i));
            }
            proof {
                done = done.push(s.subrange(start as int, i as int));
                assert(split_on(s, sep) =~= done + split_on(s.skip(i + 1), sep));
            }
            seen = seen + 1;
            start = i + 1;
        }
        i = i + 1;
    }
    proof {
        lemma_split_last(s, sep, start as int);
    }
    if seen == k {
        Some(text.substring_char(start, total))
    } else {
        None
    }
}

/// The two pieces of a path that the service reads.
pub struct PathParts<'a> {
    /// The piece at index 1.
    pub resource: &'a str,
    /// The piece at index 2, empty where the path has none.
    pub slug: &'a str,
}

/// Splits a request path at `/` and picks the resource and the slug.
///
/// Returns `None` exactly for a path without any `/`, which has no piece at
/// index 1.
pub fn split_path<'a>(path: &'a str) -> (parts: Option<PathParts<'a>>)
    ensures
        parts is Some <==> has_resource(path@),
        parts matches Some(p) ==> p.resource@ == resource_of(path@) && p.slug@ == slug_of(path@),
{
    match nth_segment(path, PATH_SEPARATOR, 1) {
        None => None,
        Some(resource) => {
            let slug = match nth_segment(path, PATH_SEPARATOR, 2) {
                Some(slug) => slug,
                None => {
                    proof {
                        reveal_strlit("");
                    }
                    ""
                },
            };
            assert(slug@ =~= slug_of(path@));
            Some(PathParts { resource, slug })
        },
    }
}

} // verus!
