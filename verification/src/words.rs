//! Splitting a command line into words at white space.

use vstd::prelude::*;
use vstd::string::*;

verus! {

/// Whether `c` is white space: one of the code points that carry the Unicode
/// property `White_Space`.
pub open spec fn spec_is_whitespace(c: char) -> bool {
    let n = c as u32;
    ||| 0x09 <= n <= 0x0D
    ||| n == 0x20
    ||| n == 0x85
    ||| n == 0xA0
    ||| n == 0x1680
    ||| 0x2000 <= n <= 0x200A
    ||| n == 0x2028
    ||| n == 0x2029
    ||| n == 0x202F
    ||| n == 0x205F
    ||| n == 0x3000
}

/// The length of the longest prefix of `s` that holds no white space.
pub open spec fn spec_word_len(s: Seq<char>) -> nat
    decreases s.len(),
{
    if s.len() == 0 || spec_is_whitespace(s[0]) {
        0
    } else {
        1 + spec_word_len(s.drop_first())
    }
}

/// The words of `s`: its maximal runs of characters that are not white
/// space, from left to right. Leading white space is dropped; the first word
/// is the longest prefix of what remains that is free of white space; the
/// other words are those of what follows it.
pub open spec fn spec_split_whitespace(s: Seq<char>) -> Seq<Seq<char>>
    decreases s.len(),
{
    if s.len() == 0 {
        Seq::empty()
    } else if spec_is_whitespace(s[0]) {
        spec_split_whitespace(s.drop_first())
    } else {
        proof {
            lemma_word_len_bounds(s);
        }
        let n = spec_word_len(s) as int;
        seq![s.take(n)] + spec_split_whitespace(s.skip(n))
    }
}

/// A word is no longer than the text it starts, and it is not empty where
/// the text starts with a character that is not white space.
pub proof fn lemma_word_len_bounds(s: Seq<char>)
    ensures
        spec_word_len(s) <= s.len(),
        s.len() > 0 && !spec_is_whitespace(s[0]) ==> spec_word_len(s) >= 1,
    decreases s.len(),
{
    if s.len() > 0 && !spec_is_whitespace(s[0]) {
        lemma_word_len_bounds(s.drop_first());
    }
}

/// A run of `m` characters without white space that ends at white space, or
/// at the end of the text, is the first word.
pub proof fn lemma_word_len_of_run(s: Seq<char>, m: int)
    requires
        0 <= m <= s.len(),
        forall|k: int| 0 <= k < m ==> !spec_is_whitespace(#[trigger] s[k]),
        m == s.len() || spec_is_whitespace(s[m]),
    ensures
        spec_word_len(s) == m,
    decreases m,
{
    if m > 0 {
        let t = s.drop_first();
        assert forall|k: int| 0 <= k < m - 1 implies !spec_is_whitespace(#[trigger] t[k]) by {
            assert(t[k] == s[k + 1]);
        }
        lemma_word_len_of_run(t, m - 1);
    }
}

/// The first word is free of white space, and it ends at white space or at
/// the end of the text.
pub proof fn lemma_word_len_is_run(s: Seq<char>)
    ensures
        forall|j: int| 0 <= j < spec_word_len(s) ==> !spec_is_whitespace(#[trigger] s[j]),
        spec_word_len(s) < s.len() ==> spec_is_whitespace(s[spec_word_len(s) as int]),
    decreases s.len(),
{
    if s.len() > 0 && !spec_is_whitespace(s[0]) {
        let t = s.drop_first();
        lemma_word_len_is_run(t);
        lemma_word_len_bounds(s);
        assert forall|j: int| 0 <= j < spec_word_len(s) implies !spec_is_whitespace(
            #[trigger] s[j],
        ) by {
            if j > 0 {
                assert(s[j] == t[j - 1]);
            }
        }
        if spec_word_len(s) < s.len() {
            assert(s[spec_word_len(s) as int] == t[spec_word_len(t) as int]);
        }
    }
}

/// Every word holds at least one character, and none of its characters is
/// white space.
pub proof fn lemma_words_hold_no_whitespace(s: Seq<char>, k: int)
    requires
        0 <= k < spec_split_whitespace(s).len(),
    ensures
        spec_split_whitespace(s)[k].len() > 0,
        forall|j: int|
            0 <= j < spec_split_whitespace(s)[k].len() ==> !spec_is_whitespace(
                #[trigger] spec_split_whitespace(s)[k][j],
            ),
    decreases s.len(),
{
    if s.len() == 0 {
    } else if spec_is_whitespace(s[0]) {
        lemma_words_hold_no_whitespace(s.drop_first(), k);
    } else {
        lemma_word_len_bounds(s);
        lemma_word_len_is_run(s);
        let n = spec_word_len(s) as int;
        if k > 0 {
            lemma_words_hold_no_whitespace(s.skip(n), k - 1);
        }
    }
}

/// A text has no word exactly if all of its characters are white space. The
/// empty text is such a text.
pub proof fn lemma_no_word_iff_blank(s: Seq<char>)
    ensures
        spec_split_whitespace(s).len() == 0 <==> forall|j: int|
            0 <= j < s.len() ==> spec_is_whitespace(#[trigger] s[j]),
    decreases s.len(),
{
    if s.len() == 0 {
    } else if spec_is_whitespace(s[0]) {
        let t = s.drop_first();
        lemma_no_word_iff_blank(t);
        if forall|j: int| 0 <= j < t.len() ==> spec_is_whitespace(#[trigger] t[j]) {
            assert forall|j: int| 0 <= j < s.len() implies spec_is_whitespace(#[trigger] s[j]) by {
                if j > 0 {
                    assert(s[j] == t[j - 1]);
                }
            }
        } else {
            let j = choose|j: int| 0 <= j < t.len() && !spec_is_whitespace(#[trigger] t[j]);
            assert(s[j + 1] == t[j]);
        }
    } else {
        lemma_word_len_bounds(s);
    }
}

/// The characters of `s` that are not white space, in order.
pub open spec fn spec_without_whitespace(s: Seq<char>) -> Seq<char> {
    s.filter(|c: char| !spec_is_whitespace(c))
}

/// A text without white space is left whole where white space is taken out.
proof fn lemma_run_is_kept(s: Seq<char>)
    requires
        forall|j: int| 0 <= j < s.len() ==> !spec_is_whitespace(#[trigger] s[j]),
    ensures
        spec_without_whitespace(s) == s,
    decreases s.len(),
{
    reveal(Seq::filter);
    if s.len() > 0 {
        lemma_run_is_kept(s.drop_last());
        assert(s.drop_last().push(s.last()) == s);
    }
}

/// White space in front is taken out with the rest.
proof fn lemma_space_is_dropped(s: Seq<char>)
    requires
        s.len() > 0,
        spec_is_whitespace(s[0]),
    ensures
        spec_without_whitespace(s) == spec_without_whitespace(s.drop_first()),
{
    let keep = |c: char| !spec_is_whitespace(c);
    let t = s.drop_first();
    t.lemma_filter_prepend(s[0], keep);
    assert(seq![s[0]] + t == s);
    assert(Seq::<char>::empty() + t.filter(keep) == t.filter(keep));
}

/// A word in front is left whole where white space is taken out.
proof fn lemma_word_is_kept(s: Seq<char>, n: int)
    requires
        0 <= n <= s.len(),
        forall|j: int| 0 <= j < n ==> !spec_is_whitespace(#[trigger] s[j]),
    ensures
        spec_without_whitespace(s) == s.take(n) + spec_without_whitespace(s.skip(n)),
{
    let keep = |c: char| !spec_is_whitespace(c);
    lemma_run_is_kept(s.take(n));
    Seq::filter_distributes_over_add(s.take(n), s.skip(n), keep);
    assert(s.take(n) + s.skip(n) == s);
}

/// The words, one behind the other, are the text without its white space:
/// splitting loses no character that is not white space, adds none and keeps
/// their order.
pub proof fn lemma_words_keep_the_text(s: Seq<char>)
    ensures
        spec_split_whitespace(s).flatten() == spec_without_whitespace(s),
    decreases s.len(),
{
    if s.len() == 0 {
        assert(spec_without_whitespace(s) == Seq::<char>::empty()) by {
            reveal(Seq::filter);
        }
    } else if spec_is_whitespace(s[0]) {
        lemma_words_keep_the_text(s.drop_first());
        lemma_space_is_dropped(s);
    } else {
        lemma_word_len_bounds(s);
        lemma_word_len_is_run(s);
        let n = spec_word_len(s) as int;
        lemma_words_keep_the_text(s.skip(n));
        lemma_word_is_kept(s, n);
        let words = spec_split_whitespace(s);
        assert(words.first() == s.take(n));
        assert(words.drop_first() == spec_split_whitespace(s.skip(n)));
    }
}

/// Whether `c` is white space.
pub fn is_whitespace(c: char) -> (b: bool)
    ensures
        b == spec_is_whitespace(c),
{
    let n: u32 = c as u32;
    (0x09 <= n && n <= 0x0D) || n == 0x20 || n == 0x85 || n == 0xA0 || n == 0x1680 || (0x2000 <= n
        && n <= 0x200A) || n == 0x2028 || n == 0x2029 || n == 0x202F || n == 0x205F || n == 0x3000
}

/// What a scan of `s` from the left has found once it has read `i`
/// characters: the words in `done`, and, where `in_word` holds, an unfinished
/// word that began at `start`.
spec fn scan_state(s: Seq<char>, done: Seq<Seq<char>>, start: int, in_word: bool, i: int) -> bool {
    &&& 0 <= i <= s.len()
    &&& in_word ==> {
        &&& 0 <= start < i
        &&& forall|k: int| start <= k < i ==> !spec_is_whitespace(#[trigger] s[k])
        &&& spec_split_whitespace(s) == done + spec_split_whitespace(s.skip(start))
    }
    &&& !in_word ==> spec_split_whitespace(s) == done + spec_split_whitespace(s.skip(i))
}

/// A word that began at `start` and ends before `end` is the first word of
/// the text from `start` on, and the text from `end` on holds the others.
proof fn lemma_word_ends(s: Seq<char>, start: int, end: int)
    requires
        0 <= start < end <= s.len(),
        forall|k: int| start <= k < end ==> !spec_is_whitespace(#[trigger] s[k]),
        end == s.len() || spec_is_whitespace(s[end]),
    ensures
        spec_split_whitespace(s.skip(start)) == seq![s.subrange(start, end)]
            + spec_split_whitespace(s.skip(end)),
{
    let t = s.skip(start);
    let m = end - start;
    assert forall|k: int| 0 <= k < m implies !spec_is_whitespace(#[trigger] t[k]) by {
        assert(t[k] == s[start + k]);
    }
    lemma_word_len_of_run(t, m);
    assert(t.take(m) == s.subrange(start, end));
    assert(t.skip(m) == s.skip(end));
}

/// White space at `i` belongs to no word.
proof fn lemma_space_skipped(s: Seq<char>, i: int)
    requires
        0 <= i < s.len(),
        spec_is_whitespace(s[i]),
    ensures
        spec_split_whitespace(s.skip(i)) == spec_split_whitespace(s.skip(i + 1)),
{
    assert(s.skip(i).drop_first() == s.skip(i + 1));
}

/// Splits `s` at white space and returns its words in order. White space at
/// either end gives no empty word, nor does a run of white space between two
/// words.
pub fn split_whitespace(s: &str) -> (words: Vec<String>)
    ensures
        words.deep_view() == spec_split_whitespace(s@),
{
    let n = s.unicode_len();
    let mut words: Vec<String> = Vec::new();
    let mut start: usize = 0;
    let mut in_word = false;
    let mut i: usize = 0;
    assert(s@.skip(0) == s@);
    for c in it: s.chars()
        invariant
            n == s@.len(),
            i == it.index(),
            it.seq() == s@,
            scan_state(s@, words.deep_view(), start as int, in_word, i as int),
    {
        if is_whitespace(c) {
            if in_word {
                let word = s.substring_char(start, i).to_owned();
                let ghost before = words.deep_view();
                let ghost rest = spec_split_whitespace(s@.skip(i as int));
                words.push(word);
                proof {
                    lemma_word_ends(s@, start as int, i as int);
                    assert(words.deep_view() == before.push(word@));
                    assert(before + (seq![word@] + rest) == before.push(word@) + rest);
                }
                in_word = false;
            }
            proof {
                lemma_space_skipped(s@, i as int);
            }
        } else if !in_word {
            start = i;
            in_word = true;
        }
        i = i + 1;
    }
    if in_word {
        let word = s.substring_char(start, i).to_owned();
        proof {
            lemma_word_ends(s@, start as int, i as int);
            assert(s@.skip(i as int).len() == 0);
        }
        let ghost before = words.deep_view();
        words.push(word);
        assert(words.deep_view() == before.push(word@));
        assert(before + (seq![word@] + Seq::<Seq<char>>::empty()) == before.push(word@));
    } else {
        assert(s@.skip(i as int).len() == 0);
    }
    words
}

} // verus!
