//! Small operations on text that the rest of the library shares.

use vstd::prelude::*;

verus! {

/// A text without the white space at its two ends.
pub uninterp spec fn trimmed_text(s: Seq<char>) -> Seq<char>;

/// A text with every character in lower case.
pub uninterp spec fn lowercase_text(s: Seq<char>) -> Seq<char>;

/// `str::trim`: the slice returned is the text without leading and trailing
/// white space.
pub assume_specification[ str::trim ](s: &str) -> (r: &str)
    ensures
        r@ == trimmed_text(s@),
;

/// `str::to_lowercase`: the string returned is the lower-case form of the
/// text.
pub assume_specification[ str::to_lowercase ](s: &str) -> (r: String)
    ensures
        r@ == lowercase_text(s@),
;

/// `String::push`: the character is appended to the string.
pub assume_specification[ String::push ](s: &mut String, c: char)
    ensures
        final(s)@ == old(s)@.push(c),
;

/// Whether two texts are the same.
pub fn sdz_text_eq(a: &str, b: &str) -> (r: bool)
    ensures
        r == (a@ == b@),
{
    let left = a.to_owned();
    let right = b.to_owned();
    left == right
}

/// Whether `part` occurs in `text`, as a run of characters.
pub open spec fn has_infix(text: Seq<char>, part: Seq<char>) -> bool {
    exists|i: int|
        0 <= i && i + part.len() <= text.len() && #[trigger] text.subrange(i, i + part.len())
            == part
}

/// `str::contains` with a text as the pattern: whether the pattern matches a
/// part of the text.
#[verifier::external_body]
pub(crate) fn text_contains(text: &str, part: &str) -> (r: bool)
    ensures
        r == has_infix(text@, part@),
{
    text.contains(part)
}

/// Whether a text is empty or all white space.
pub open spec fn is_blank(s: Seq<char>) -> bool {
    trimmed_text(s).len() == 0
}

/// Decides whether a text is empty or all white space.
pub fn sdz_is_blank(s: &str) -> (r: bool)
    ensures
        r == is_blank(s@),
{
    s.trim().is_empty()
}

/// The texts of a list of strings.
pub open spec fn texts(strings: Seq<String>) -> Seq<Seq<char>> {
    strings.map_values(|s: String| s@)
}

/// The pieces of a text between the occurrences of a separator. A text
/// without the separator is one piece; the pieces before the first and after
/// the last separator are there even where they are empty.
pub open spec fn split_on(s: Seq<char>, sep: char) -> Seq<Seq<char>>
    decreases s.len(),
{
    if s.len() == 0 {
        seq![Seq::empty()]
    } else {
        let head = split_on(s.drop_last(), sep);
        if s.last() == sep {
            head.push(Seq::empty())
        } else {
            head.drop_last().push(head.last().push(s.last()))
        }
    }
}

/// Splitting always gives a piece.
pub proof fn lemma_split_is_never_empty(s: Seq<char>, sep: char)
    ensures
        split_on(s, sep).len() >= 1,
    decreases s.len(),
{
    if s.len() > 0 {
        lemma_split_is_never_empty(s.drop_last(), sep);
    }
}

/// A text without the separator is one piece.
pub proof fn lemma_split_without_separator(s: Seq<char>, sep: char)
    requires
        forall|i: int| 0 <= i < s.len() ==> s[i] != sep,
    ensures
        split_on(s, sep) == seq![s],
    decreases s.len(),
{
    if s.len() == 0 {
        assert(s =~= Seq::<char>::empty());
    } else {
        lemma_split_without_separator(s.drop_last(), sep);
        let head = split_on(s.drop_last(), sep);
        assert(head.drop_last() =~= Seq::<Seq<char>>::empty());
        assert(head.last().push(s.last()) =~= s);
        assert(head.drop_last().push(s) =~= seq![s]);
    }
}

/// Two texts joined by the separator split into the pieces of the first
/// followed by the pieces of the second.
pub proof fn lemma_split_joined(a: Seq<char>, b: Seq<char>, sep: char)
    ensures
        split_on(a + seq![sep] + b, sep) == split_on(a, sep) + split_on(b, sep),
    decreases b.len(),
{
    let s = a + seq![sep] + b;
    if b.len() == 0 {
        assert(s.drop_last() =~= a);
        assert(s.last() == sep);
        assert(split_on(a, sep).push(Seq::empty()) =~= split_on(a, sep) + split_on(b, sep));
    } else {
        lemma_split_joined(a, b.drop_last(), sep);
        lemma_split_is_never_empty(b.drop_last(), sep);
        assert(s.drop_last() =~= a + seq![sep] + b.drop_last());
        assert(s.last() == b.last());
        let left = split_on(a, sep);
        let right = split_on(b.drop_last(), sep);
        let head = left + right;
        if b.last() == sep {
            assert(head.push(Seq::empty()) =~= left + right.push(Seq::empty()));
        } else {
            assert(head.last() == right.last());
            assert(head.drop_last() =~= left + right.drop_last());
            assert(head.drop_last().push(head.last().push(b.last())) =~= left
                + right.drop_last().push(right.last().push(b.last())));
        }
    }
}

/// Splits a text at every occurrence of a separator.
pub fn sdz_split(text: &str, sep: char) -> (r: Vec<String>)
    ensures
        texts(r@) == split_on(text@, sep),
{
    let mut pieces: Vec<String> = Vec::new();
    let mut current = String::new();
    proof {
        assert(texts(pieces@).push(current@) =~= split_on(text@.take(0), sep));
    }
    for c in it: text.chars()
        invariant
            it.seq() == text@,
            texts(pieces@).push(current@) == split_on(text@.take(it.index() as int), sep),
    {
        let ghost done = text@.take(it.index() as int);
        let ghost next = text@.take(it.index() + 1);
        let ghost before = texts(pieces@);
        let ghost piece = current@;
        proof {
            assert(next.drop_last() =~= done);
            assert(next.last() == c);
            assert(before.push(piece).drop_last() =~= before);
            assert(before.push(piece).last() == piece);
        }
        if c == sep {
            pieces.push(current);
            current = String::new();
            proof {
                assert(texts(pieces@) =~= before.push(piece));
            }
        } else {
            current.push(c);
        }
    }
    proof {
        assert(text@.take(text@.len() as int) =~= text@);
    }
    let ghost before = texts(pieces@);
    let ghost piece = current@;
    pieces.push(current);
    proof {
        assert(texts(pieces@) =~= before.push(piece));
    }
    pieces
}

/// A piece of a list as an item: trimmed, and dropped where nothing is left
/// of it.
pub open spec fn item_of() -> spec_fn(Seq<char>) -> Option<Seq<char>> {
    |piece: Seq<char>|
        if trimmed_text(piece).len() == 0 {
            None
        } else {
            Some(trimmed_text(piece))
        }
}

/// The items that a list names: its pieces between commas, each trimmed,
/// without those that are blank.
pub open spec fn listed_items(raw: Seq<char>) -> Seq<Seq<char>> {
    split_on(raw, ',').filter_map(item_of())
}

/// Reads the items of a list separated by commas.
pub fn sdz_split_list(raw: &str) -> (r: Vec<String>)
    ensures
        texts(r@) == listed_items(raw@),
{
    let pieces = sdz_split(raw, ',');
    let mut out: Vec<String> = Vec::new();
    let mut k: usize = 0;
    proof {
        assert(texts(out@) =~= texts(pieces@).take(0).filter_map(item_of()));
    }
    while k < pieces.len()
        invariant
            k <= pieces.len(),
            texts(pieces@) == split_on(raw@, ','),
            texts(out@) == texts(pieces@).take(k as int).filter_map(item_of()),
        decreases pieces.len() - k,
    {
        let ghost before = texts(out@);
        proof {
            texts(pieces@).lemma_filter_map_take_succ(item_of(), k as int);
            assert(texts(pieces@)[k as int] == pieces@[k as int]@);
        }
        let item = pieces[k].as_str().trim();
        if !item.is_empty() {
            out.push(item.to_owned());
            proof {
                assert(texts(out@) =~= before.push(item@));
                assert(before + seq![item@] =~= before.push(item@));
            }
        } else {
            proof {
                assert(before + Seq::<Seq<char>>::empty() =~= before);
            }
        }
        k += 1;
    }
    proof {
        assert(texts(pieces@).take(pieces@.len() as int) =~= texts(pieces@));
    }
    out
}

} // verus!
