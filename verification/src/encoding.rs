//! Percent-encoding for path segments and query components.
//!
//! A value is encoded character by character: a character that belongs to
//! the chosen set is replaced by `%` and its two upper-case hexadecimal
//! digits, every other character stands as it is. Both sets hold ASCII
//! characters only, so a character outside ASCII is never touched.

use vstd::prelude::*;
use vstd::string::StringExecFns;

verus! {

/// The two contexts in which a value is percent-encoded.
#[derive(Clone, Copy, Debug, PartialEq, Eq, Structural)]
pub enum SdzEncodeSet {
    /// Characters that may not stand raw in a path segment.
    Path,
    /// Characters that may not stand raw in a query key or value.
    Query,
}

/// ASCII control characters: 0x00 to 0x1F, and 0x7F.
pub open spec fn is_control(c: char) -> bool {
    c as u32 <= 0x1F || c as u32 == 0x7F
}

/// Membership in the path set: controls, space and
/// `"` `<` `>` `` ` `` `#` `?` `{` `}` `[` `]` `%`. The slash is no member.
pub open spec fn in_path_set(c: char) -> bool {
    is_control(c) || c == ' ' || c == '"' || c == '<' || c == '>' || c == '`' || c == '#' || c
        == '?' || c == '{' || c == '}' || c == '[' || c == ']' || c == '%'
}

/// Membership in the query set: controls, space and
/// `"` `#` `$` `%` `&` `'` `(` `)` `*` `+` `,` `/` `:` `;` `<` `=` `>` `?`
/// `@` `[` `\` `]` `^` `` ` `` `{` `|` `}`.
pub open spec fn in_query_set(c: char) -> bool {
    is_control(c) || c == ' ' || c == '"' || c == '#' || c == '$' || c == '%' || c == '&' || c
        == '\'' || c == '(' || c == ')' || c == '*' || c == '+' || c == ',' || c == '/' || c == ':'
        || c == ';' || c == '<' || c == '=' || c == '>' || c == '?' || c == '@' || c == '[' || c
        == '\\' || c == ']' || c == '^' || c == '`' || c == '{' || c == '|' || c == '}'
}

impl SdzEncodeSet {
    /// Whether `c` belongs to this set.
    pub open spec fn contains(self, c: char) -> bool {
        match self {
            SdzEncodeSet::Path => in_path_set(c),
            SdzEncodeSet::Query => in_query_set(c),
        }
    }

    /// Decides whether `c` belongs to this set.
    pub fn has(self, c: char) -> (r: bool)
        ensures
            r == self.contains(c),
    {
        match self {
            SdzEncodeSet::Path => sdz_in_path_set(c),
            SdzEncodeSet::Query => sdz_in_query_set(c),
        }
    }
}

/// Decides membership in the path set.
pub fn sdz_in_path_set(c: char) -> (r: bool)
    ensures
        r == in_path_set(c),
{
    let n: u32 = c as u32;
    n <= 0x1F || n == 0x7F || c == ' ' || c == '"' || c == '<' || c == '>' || c == '`' || c == '#'
        || c == '?' || c == '{' || c == '}' || c == '[' || c == ']' || c == '%'
}

/// Decides membership in the query set.
pub fn sdz_in_query_set(c: char) -> (r: bool)
    ensures
        r == in_query_set(c),
{
    let n: u32 = c as u32;
    n <= 0x1F || n == 0x7F || c == ' ' || c == '"' || c == '#' || c == '$' || c == '%' || c == '&'
        || c == '\'' || c == '(' || c == ')' || c == '*' || c == '+' || c == ',' || c == '/' || c
        == ':' || c == ';' || c == '<' || c == '=' || c == '>' || c == '?' || c == '@' || c == '['
        || c == '\\' || c == ']' || c == '^' || c == '`' || c == '{' || c == '|' || c == '}'
}

/// The sixteen upper-case hexadecimal digits, by value.
pub open spec fn upper_hex_digits() -> Seq<char> {
    seq!['0', '1', '2', '3', '4', '5', '6', '7', '8', '9', 'A', 'B', 'C', 'D', 'E', 'F']
}

/// `%` followed by the two upper-case hexadecimal digits of `b`.
pub open spec fn percent_triplet(b: u8) -> Seq<char> {
    seq!['%', upper_hex_digits()[b as int / 16], upper_hex_digits()[b as int % 16]]
}

/// What one character becomes under `set`.
pub open spec fn encode_char(c: char, set: SdzEncodeSet) -> Seq<char> {
    if set.contains(c) {
        percent_triplet(c as u8)
    } else {
        seq![c]
    }
}

/// The percent-encoding of `s` under `set`: the images of its characters,
/// one after the other.
pub open spec fn percent_encode(s: Seq<char>, set: SdzEncodeSet) -> Seq<char>
    decreases s.len(),
{
    if s.len() == 0 {
        Seq::empty()
    } else {
        percent_encode(s.drop_last(), set) + encode_char(s.last(), set)
    }
}

/// `percent_encoding::percent_encode_byte`: the text returned for a byte is
/// `%` and the byte's two hexadecimal digits in upper case, as the crate's
/// table of 256 entries spells them.
#[verifier::external_body]
fn encoded_byte(b: u8) -> (r: &'static str)
    ensures
        r@ == percent_triplet(b),
{
    percent_encoding::percent_encode_byte(b)
}

/// Percent-encodes `value` under `set`.
pub fn sdz_percent_encode(value: &str, set: SdzEncodeSet) -> (r: String)
    ensures
        r@ == percent_encode(value@, set),
{
    let mut out = String::new();
    for c in it: value.chars()
        invariant
            it.seq() == value@,
            out@ == percent_encode(value@.take(it.index() as int), set),
    {
        proof {
            let done = value@.take(it.index() as int);
            let next = value@.take(it.index() + 1);
            assert(next.drop_last() =~= done);
            assert(next.last() == c);
        }
        if set.has(c) {
            out.append(encoded_byte(c as u8));
        } else {
            out.push(c);
        }
    }
    assert(value@.take(value@.len() as int) =~= value@);
    out
}

/// Percent-encodes a path. The slash is no member of the path set, so the
/// segments between slashes are encoded each for itself and the slashes
/// between them stay.
pub fn sdz_encode_path(value: &str) -> (r: String)
    ensures
        r@ == percent_encode(value@, SdzEncodeSet::Path),
{
    sdz_percent_encode(value, SdzEncodeSet::Path)
}

/// Percent-encodes a query key or value. The slash is encoded here.
pub fn sdz_encode_query(value: &str) -> (r: String)
    ensures
        r@ == percent_encode(value@, SdzEncodeSet::Query),
{
    sdz_percent_encode(value, SdzEncodeSet::Query)
}

/// Encoding a concatenation gives the concatenation of the encodings.
pub proof fn lemma_percent_encode_concat(a: Seq<char>, b: Seq<char>, set: SdzEncodeSet)
    ensures
        percent_encode(a + b, set) == percent_encode(a, set) + percent_encode(b, set),
    decreases b.len(),
{
    if b.len() == 0 {
        assert(a + b =~= a);
        assert(percent_encode(a, set) + percent_encode(b, set) =~= percent_encode(a, set));
    } else {
        lemma_percent_encode_concat(a, b.drop_last(), set);
        assert((a + b).drop_last() =~= a + b.drop_last());
        assert((a + b).last() == b.last());
        assert(percent_encode(a, set) + (percent_encode(b.drop_last(), set) + encode_char(
            b.last(),
            set,
        )) =~= (percent_encode(a, set) + percent_encode(b.drop_last(), set)) + encode_char(
            b.last(),
            set,
        ));
    }
}

/// A single character encodes to its own image.
pub proof fn lemma_percent_encode_single(c: char, set: SdzEncodeSet)
    ensures
        percent_encode(seq![c], set) == encode_char(c, set),
{
    let s = seq![c];
    assert(s.drop_last() =~= Seq::<char>::empty());
    assert(percent_encode(s.drop_last(), set) =~= Seq::<char>::empty());
    assert(percent_encode(s, set) =~= encode_char(c, set));
}

/// Path encoding works segment by segment: the encoding of two parts joined
/// by a slash is the two encodings joined by a slash.
pub proof fn lemma_path_encoding_keeps_slashes(a: Seq<char>, b: Seq<char>)
    ensures
        percent_encode(a + seq!['/'] + b, SdzEncodeSet::Path) == percent_encode(
            a,
            SdzEncodeSet::Path,
        ) + seq!['/'] + percent_encode(b, SdzEncodeSet::Path),
{
    lemma_percent_encode_concat(a + seq!['/'], b, SdzEncodeSet::Path);
    lemma_percent_encode_concat(a, seq!['/'], SdzEncodeSet::Path);
    lemma_percent_encode_single('/', SdzEncodeSet::Path);
}

/// Query encoding never lets a slash through: it becomes `%2F`.
pub proof fn lemma_query_encoding_escapes_slash(a: Seq<char>, b: Seq<char>)
    ensures
        percent_encode(a + seq!['/'] + b, SdzEncodeSet::Query) == percent_encode(
            a,
            SdzEncodeSet::Query,
        ) + seq!['%', '2', 'F'] + percent_encode(b, SdzEncodeSet::Query),
{
    lemma_percent_encode_concat(a + seq!['/'], b, SdzEncodeSet::Query);
    lemma_percent_encode_concat(a, seq!['/'], SdzEncodeSet::Query);
    lemma_percent_encode_single('/', SdzEncodeSet::Query);
    assert(percent_triplet('/' as u8) =~= seq!['%', '2', 'F']);
}

/// A text in which no character belongs to `set` is its own encoding.
pub proof fn lemma_clean_text_encodes_to_itself(s: Seq<char>, set: SdzEncodeSet)
    requires
        forall|i: int| 0 <= i < s.len() ==> !set.contains(#[trigger] s[i]),
    ensures
        percent_encode(s, set) == s,
    decreases s.len(),
{
    if s.len() > 0 {
        lemma_clean_text_encodes_to_itself(s.drop_last(), set);
        assert(encode_char(s.last(), set) =~= seq![s.last()]);
        assert(s.drop_last() + seq![s.last()] =~= s);
    }
}

/// In an encoded text the only member of the set that can occur is `%`.
pub proof fn lemma_encoded_text_is_clean(s: Seq<char>, set: SdzEncodeSet, i: int)
    requires
        0 <= i < percent_encode(s, set).len(),
    ensures
        set.contains(percent_encode(s, set)[i]) ==> percent_encode(s, set)[i] == '%',
    decreases s.len(),
{
    if s.len() > 0 {
        let head = percent_encode(s.drop_last(), set);
        if i < head.len() {
            lemma_encoded_text_is_clean(s.drop_last(), set, i);
        } else {
            let c = s.last();
            let j = i - head.len();
            if set.contains(c) {
                let b = c as u8;
                assert(0 <= b as int / 16 < 16);
                assert(0 <= b as int % 16 < 16);
                assert(forall|k: int|
                    0 <= k < 16 ==> !set.contains(#[trigger] upper_hex_digits()[k]));
                assert(encode_char(c, set)[j] == percent_triplet(b)[j]);
            }
        }
    }
}

} // verus!
