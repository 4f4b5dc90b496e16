use vstd::prelude::*;
use vstd::set_lib::{lemma_int_range, lemma_len_subset, set_int_range};
use vstd::utf8::{decode_utf8, valid_utf8};

verus! {

/// The characters that carry the Unicode `White_Space` property.
pub open spec fn is_white_space(c: char) -> bool {
    let u = c as u32;
    ||| 0x09 <= u <= 0x0D
    ||| u == 0x20
    ||| u == 0x85
    ||| u == 0xA0
    ||| u == 0x1680
    ||| 0x2000 <= u <= 0x200A
    ||| u == 0x2028
    ||| u == 0x2029
    ||| u == 0x202F
    ||| u == 0x205F
    ||| u == 0x3000
}

/// Position `i` of `s` is the first character of a maximal run of
/// non-whitespace characters.
pub open spec fn starts_word(s: Seq<char>, i: int) -> bool {
    &&& 0 <= i < s.len()
    &&& !is_white_space(s[i])
    &&& (i == 0 || is_white_space(s[i - 1]))
}

/// The number of maximal runs of non-whitespace characters in `s`,
/// counted by the positions at which such a run begins.
pub open spec fn word_count(s: Seq<char>) -> nat
    decreases s.len(),
{
    if s.len() == 0 {
        0
    } else {
        word_count(s.drop_last()) + if starts_word(s, s.len() - 1) {
            1nat
        } else {
            0nat
        }
    }
}

/// The positions of `s` at which a maximal non-whitespace run begins.
pub open spec fn word_starts(s: Seq<char>) -> Set<int> {
    Set::new(|i: int| starts_word(s, i))
}

/// Every maximal run of non-whitespace characters begins at exactly one
/// position, so `word_count` is the number of such runs.
pub proof fn lemma_word_count_counts_runs(s: Seq<char>)
    ensures
        word_starts(s).finite(),
        word_count(s) == word_starts(s).len(),
    decreases s.len(),
{
    lemma_int_range(0, s.len() as int);
    lemma_len_subset(word_starts(s), set_int_range(0, s.len() as int));
    if s.len() > 0 {
        let t = s.drop_last();
        let last = s.len() - 1;
        lemma_word_count_counts_runs(t);
        assert forall|i: int| 0 <= i < last implies starts_word(s, i) == starts_word(t, i) by {
            assert(s[i] == t[i]);
            if i > 0 {
                assert(s[i - 1] == t[i - 1]);
            }
        }
        if starts_word(s, last) {
            assert(word_starts(s) =~= word_starts(t).insert(last));
        } else {
            assert(word_starts(s) =~= word_starts(t));
        }
    } else {
        assert(word_starts(s) =~= Set::empty());
    }
}

/// Whether `c` has the Unicode `White_Space` property.
pub fn is_white_space_char(c: char) -> (r: bool)
    ensures
        r == is_white_space(c),
{
    let u = c as u32;
    (0x09 <= u && u <= 0x0D) || u == 0x20 || u == 0x85 || u == 0xA0 || u == 0x1680 || (0x2000
        <= u && u <= 0x200A) || u == 0x2028 || u == 0x2029 || u == 0x202F || u == 0x205F || u
        == 0x3000
}

/// The number of whitespace-delimited words in `text`.
pub fn count_words(text: &str) -> (r: usize)
    ensures
        r == word_count(text@),
{
    let n = text.unicode_len();
    let mut count: usize = 0;
    let mut prev_white: bool = true;
    for c in it: text.chars()
        invariant
            n == text@.len(),
            it.seq() == text@,
            count <= it.index(),
            count == word_count(text@.take(it.index() as int)),
            prev_white == (it.index() == 0 || is_white_space(text@[it.index() - 1])),
    {
        let ghost i = it.index() as int;
        let white = is_white_space_char(c);
        let ghost s = text@.take(i + 1);
        assert(s.drop_last() == text@.take(i));
        assert(s[i] == c);
        if !white && prev_white {
            count = count + 1;
        }
        prev_white = white;
    }
    assert(text@.take(text@.len() as int) == text@);
    count
}

/// The text that lossy UTF-8 decoding makes of `bytes`: each invalid
/// sequence becomes U+FFFD REPLACEMENT CHARACTER.
pub uninterp spec fn lossy_utf8(bytes: Seq<u8>) -> Seq<char>;

/// Relies on `String::from_utf8_lossy`: the text depends on the bytes alone,
/// valid UTF-8 is decoded as it stands, and decoding never fails.
#[verifier::external_body]
fn decode_lossy(bytes: &[u8]) -> (r: String)
    ensures
        r@ == lossy_utf8(bytes@),
        valid_utf8(bytes@) ==> r@ == decode_utf8(bytes@),
{
    String::from_utf8_lossy(bytes).into_owned()
}

/// The number of whitespace-delimited words in `bytes`, read as lossily
/// decoded UTF-8 text.
pub fn count_words_in_bytes(bytes: &[u8]) -> (r: usize)
    ensures
        r == word_count(lossy_utf8(bytes@)),
        valid_utf8(bytes@) ==> r == word_count(decode_utf8(bytes@)),
{
    let text = decode_lossy(bytes);
    count_words(text.as_str())
}

} // verus!
