//! Splitting text at a separator, and joining it again.

use vstd::prelude::*;

verus! {

/// The pieces of `text` that lie between the occurrences of `sep`: one more
/// piece than there are occurrences, empty pieces included.
pub open spec fn split(text: Seq<char>, sep: char) -> Seq<Seq<char>>
    decreases text.len(),
{
    if text.len() == 0 {
        seq![Seq::<char>::empty()]
    } else {
        let before = split(text.drop_last(), sep);
        if text.last() == sep {
            before.push(Seq::<char>::empty())
        } else {
            before.drop_last().push(before.last().push(text.last()))
        }
    }
}

/// The pieces of `pieces` written one after the other with `sep` between them.
pub open spec fn join(pieces: Seq<Seq<char>>, sep: Seq<char>) -> Seq<char>
    decreases pieces.len(),
{
    if pieces.len() == 0 {
        Seq::<char>::empty()
    } else if pieces.len() == 1 {
        pieces[0]
    } else {
        join(pieces.drop_last(), sep) + sep + pieces.last()
    }
}

/// A split text has at least one piece.
pub proof fn lemma_split_nonempty(text: Seq<char>, sep: char)
    ensures
        split(text, sep).len() >= 1,
    decreases text.len(),
{
    if text.len() > 0 {
        lemma_split_nonempty(text.drop_last(), sep);
    }
}

/// Splitting undoes joining: no piece of a split text holds the separator, and
/// the pieces joined by the separator are the text again.
pub proof fn lemma_split_join(text: Seq<char>, sep: char)
    ensures
        forall|i: int|
            0 <= i < split(text, sep).len() ==> !(#[trigger] split(text, sep)[i]).contains(sep),
        join(split(text, sep), seq![sep]) == text,
    decreases text.len(),
{
    let pieces = split(text, sep);
    let by = seq![sep];
    lemma_split_nonempty(text, sep);
    if text.len() == 0 {
        assert(join(pieces, by) == text);
    } else {
        let shorter = text.drop_last();
        let before = split(shorter, sep);
        lemma_split_join(shorter, sep);
        lemma_split_nonempty(shorter, sep);
        assert(shorter.push(text.last()) == text);
        if text.last() == sep {
            assert(pieces.drop_last() == before);
            assert(join(pieces, by) == join(before, by) + by + Seq::<char>::empty());
            assert(join(pieces, by) == text);
        } else {
            let grown = before.last().push(text.last());
            assert(!before.last().contains(sep));
            assert forall|j: int| 0 <= j < grown.len() implies grown[j] != sep by {
                if j < before.last().len() {
                    assert(before.last()[j] == grown[j]);
                }
            }
            assert(pieces.drop_last() == before.drop_last());
            if before.len() == 1 {
                assert(join(before, by) == before.last());
                assert(join(pieces, by) == grown);
            } else {
                assert(join(before, by) == join(before.drop_last(), by) + by + before.last());
                assert(join(pieces, by) == join(before.drop_last(), by) + by + grown);
                assert(join(pieces, by) == join(before, by).push(text.last()));
            }
            assert(join(pieces, by) == text);
        }
    }
}

/// Splits `text` at each occurrence of `sep`.
pub fn split_text(text: &str, sep: char) -> (pieces: Vec<String>)
    ensures
        pieces.deep_view() == split(text@, sep),
{
    let end = text.unicode_len();
    let mut pieces: Vec<String> = Vec::new();
    let mut start: usize = 0;
    let mut at: usize = 0;
    proof {
        assert(text@.take(0).len() == 0);
        assert(pieces.deep_view() == split(text@.take(0), sep).drop_last());
        assert(text@.subrange(0, 0) == split(text@.take(0), sep).last());
    }
    for c in it: text.chars()
        invariant
            end == text@.len(),
            it.seq() == text@,
            at == it.index(),
            start <= at <= end,
            pieces.deep_view() == split(text@.take(at as int), sep).drop_last(),
            text@.subrange(start as int, at as int) == split(text@.take(at as int), sep).last(),
    {
        let ghost seen = text@.take(at as int);
        let ghost next = text@.take(at + 1);
        proof {
            lemma_split_nonempty(seen, sep);
            assert(next.drop_last() == seen);
            assert(next.last() == c);
        }
        if c == sep {
            let ghost earlier = pieces.deep_view();
            let piece = text.substring_char(start, at).to_owned();
            pieces.push(piece);
            start = at + 1;
            proof {
                assert(pieces.deep_view() == earlier.push(piece@));
                assert(earlier.push(piece@) == split(seen, sep));
                assert(split(next, sep).drop_last() == split(seen, sep));
                assert(text@.subrange(start as int, at + 1) == Seq::<char>::empty());
            }
        } else {
            proof {
                assert(text@.subrange(start as int, at + 1) == text@.subrange(
                    start as int,
                    at as int,
                ).push(c));
                assert(split(next, sep).drop_last() == split(seen, sep).drop_last());
            }
        }
        at += 1;
    }
    let ghost earlier = pieces.deep_view();
    let piece = text.substring_char(start, end).to_owned();
    pieces.push(piece);
    proof {
        lemma_split_nonempty(text@, sep);
        assert(text@.take(end as int) == text@);
        assert(pieces.deep_view() == earlier.push(piece@));
        assert(earlier.push(piece@) == split(text@, sep));
    }
    pieces
}

} // verus!
