use vstd::prelude::*;
use oq3_source_file::SourceTrait;

verus! {

/// The OpenQASM 3 front end's verdict on a source text that includes no other
/// file: `true` when lexing, parsing or the check that follows parsing
/// reports at least one error.
pub uninterp spec fn has_syntax_errors(source: Seq<char>) -> bool;

/// Texts of this many characters or more are not handed to the front end. Its
/// parser descends by recursion with no depth limit, so a text that nests
/// deeply enough (a long run of `{` or `(`) exhausts the stack and aborts the
/// process. Shorter texts cannot nest that deep: they are parsed within a
/// thread stack of 2 MiB with room to spare.
pub const MAX_SOURCE_CHARS: usize = 512;

/// The keyword that makes the front end read further files from disk.
pub open spec fn include_keyword() -> Seq<char> {
    seq!['i', 'n', 'c', 'l', 'u', 'd', 'e']
}

/// Whether `c` is an ASCII letter, digit or `_`: a character that the lexer
/// takes into the identifier it follows.
pub open spec fn is_word_char(c: char) -> bool {
    ('a' <= c && c <= 'z') || ('A' <= c && c <= 'Z') || ('0' <= c && c <= '9') || c == '_'
}

/// Whether the word `include` stands at position `i` of `source`, not
/// followed by a character that would make it part of a longer identifier.
pub open spec fn include_at(source: Seq<char>, i: int) -> bool {
    &&& 0 <= i && i + include_keyword().len() <= source.len()
    &&& source.subrange(i, i + include_keyword().len()) == include_keyword()
    &&& !(i + include_keyword().len() < source.len() && is_word_char(
        source[i + include_keyword().len()],
    ))
}

/// Whether `source` may hold the keyword `include` (in a statement, or in a
/// comment or a string alike). Only an `include` run on by a letter, digit or
/// `_` is left out, for the lexer reads that as another identifier.
pub open spec fn mentions_include(source: Seq<char>) -> bool {
    exists|i: int| #[trigger] include_at(source, i)
}

/// Relies on `oq3_source_file::parse_source_string` (no file path, no search
/// path) and `SourceTrait::any_parse_errors` on its result. With no `include`
/// in the text, no file is opened, and the answer is whether parsing the text
/// produced an error.
#[verifier::external_body]
pub(crate) fn front_end_finds_errors(source: &str) -> (r: bool)
    requires
        !mentions_include(source@),
        source@.len() < MAX_SOURCE_CHARS,
    ensures
        r == has_syntax_errors(source@),
{
    oq3_source_file::parse_source_string::<&str, std::path::PathBuf>(source, None, None)
        .any_parse_errors()
}

/// Whether `source` mentions `include`, looked up one character at a time.
pub fn finds_include(source: &str) -> (r: bool)
    ensures
        r == mentions_include(source@),
{
    let n: usize = source.unicode_len();
    let k: usize = 7;
    if n < k {
        assert(forall|j: int| !#[trigger] include_at(source@, j));
        return false;
    }
    let mut i: usize = 0;
    while i <= n - k
        invariant
            n == source@.len(),
            k == include_keyword().len(),
            k <= n,
            i <= n - k + 1,
            forall|j: int| 0 <= j < i ==> !#[trigger] include_at(source@, j),
        decreases n - i,
    {
        if matches_keyword_at(source, i) {
            let ends_word = i + k == n || !word_char(source.get_char(i + k));
            if ends_word {
                assert(include_at(source@, i as int));
                return true;
            }
        }
        i = i + 1;
    }
    false
}

/// Whether `c` is an ASCII letter, digit or `_`.
fn word_char(c: char) -> (r: bool)
    ensures
        r == is_word_char(c),
{
    ('a' <= c && c <= 'z') || ('A' <= c && c <= 'Z') || ('0' <= c && c <= '9') || c == '_'
}

/// Whether the seven characters of `source` from `i` on spell `include`.
fn matches_keyword_at(source: &str, i: usize) -> (r: bool)
    requires
        i + 7 <= source@.len() <= usize::MAX,
    ensures
        r == (source@.subrange(i as int, i + 7) == include_keyword()),
{
    let word: [char; 7] = ['i', 'n', 'c', 'l', 'u', 'd', 'e'];
    let mut j: usize = 0;
    while j < 7
        invariant
            i + 7 <= source@.len() <= usize::MAX,
            j <= 7,
            word@ == include_keyword(),
            forall|m: int| 0 <= m < j ==> source@[i + m] == include_keyword()[m],
        decreases 7 - j,
    {
        if source.get_char(i + j) != word[j] {
            assert(source@.subrange(i as int, i + 7)[j as int] != include_keyword()[j as int]);
            return false;
        }
        j = j + 1;
    }
    assert(source@.subrange(i as int, i + 7) =~= include_keyword());
    true
}

} // verus!
