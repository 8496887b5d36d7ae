//! Splitting a line into words at white space.

use vstd::prelude::*;
use vstd::string::*;

verus! {

/// White space: the code points that Unicode marks `White_Space`.
pub open spec fn is_space(c: char) -> bool {
    let n = c as u32;
    ||| 0x09 <= n <= 0x0D
    ||| n == 0x20
    ||| n == 0x85
    ||| n == 0xA0
    ||| n == 0x1680
    ||| 0x2000 <= n <= 0x200A
    ||| n == 0x2028
    ||| n == 0x2029
    ||| n == 0x202F
    ||| n == 0x205F
    ||| n == 0x3000
}

/// Whether `c` is white space.
pub fn is_space_char(c: char) -> (b: bool)
    ensures
        b == is_space(c),
{
    let n: u32 = c as u32;
    (0x09 <= n && n <= 0x0D) || n == 0x20 || n == 0x85 || n == 0xA0 || n == 0x1680 || (0x2000 <= n
        && n <= 0x200A) || n == 0x2028 || n == 0x2029 || n == 0x202F || n == 0x205F || n == 0x3000
}

/// The length of the longest prefix of `s` that holds no white space.
pub open spec fn word_run(s: Seq<char>) -> nat
    decreases s.len(),
{
    if s.len() > 0 && !is_space(s[0]) {
        1 + word_run(s.skip(1))
    } else {
        0
    }
}

/// The words of `s`: its maximal runs of characters that are not white
/// space, from left to right.
pub open spec fn words(s: Seq<char>) -> Seq<Seq<char>>
    decreases s.len(),
    via words_decreases
{
    if s.len() == 0 {
        Seq::empty()
    } else if is_space(s[0]) {
        words(s.skip(1))
    } else {
        seq![s.take(word_run(s) as int)] + words(s.skip(word_run(s) as int))
    }
}

#[via_fn]
proof fn words_decreases(s: Seq<char>) {
    lemma_word_run_bounds(s);
}

/// A word run is no longer than the sequence, is free of white space, and
/// ends at white space or at the end.
pub proof fn lemma_word_run_bounds(s: Seq<char>)
    ensures
        word_run(s) <= s.len(),
        s.len() > 0 && !is_space(s[0]) ==> word_run(s) >= 1,
        forall|i: int| 0 <= i < word_run(s) ==> !is_space(#[trigger] s[i]),
        word_run(s) < s.len() ==> is_space(s[word_run(s) as int]),
    decreases s.len(),
{
    if s.len() > 0 && !is_space(s[0]) {
        let t = s.skip(1);
        lemma_word_run_bounds(t);
        assert forall|i: int| 0 <= i < word_run(s) implies !is_space(#[trigger] s[i]) by {
            if i > 0 {
                assert(s[i] == t[i - 1]);
            }
        }
        if word_run(s) < s.len() {
            assert(s[word_run(s) as int] == t[word_run(t) as int]);
        }
    }
}

/// The texts of a list of strings.
pub open spec fn texts(v: Seq<String>) -> Seq<Seq<char>> {
    Seq::new(v.len(), |i: int| v[i]@)
}

/// A stretch without white space that ends at white space, or at the end,
/// is a word run.
pub proof fn lemma_word_run_is(s: Seq<char>, k: nat)
    requires
        k <= s.len(),
        forall|i: int| 0 <= i < k ==> !is_space(#[trigger] s[i]),
        k < s.len() ==> is_space(s[k as int]),
    ensures
        word_run(s) == k,
    decreases k,
{
    if k > 0 {
        let t = s.skip(1);
        assert forall|i: int| 0 <= i < k - 1 implies !is_space(#[trigger] t[i]) by {
            assert(t[i] == s[i + 1]);
        }
        lemma_word_run_is(t, (k - 1) as nat);
    }
}

/// A word: not empty, and free of white space.
pub open spec fn is_word(w: Seq<char>) -> bool {
    w.len() > 0 && forall|i: int| 0 <= i < w.len() ==> !is_space(#[trigger] w[i])
}

/// Nothing but white space.
pub open spec fn all_space(s: Seq<char>) -> bool {
    forall|i: int| 0 <= i < s.len() ==> is_space(#[trigger] s[i])
}

/// Each of the words of a sequence is a word.
pub proof fn lemma_words_are_words(s: Seq<char>)
    ensures
        forall|i: int| 0 <= i < words(s).len() ==> is_word(#[trigger] words(s)[i]),
    decreases s.len(),
{
    if s.len() == 0 {
        assert(words(s).len() == 0);
    } else if is_space(s[0]) {
        lemma_words_are_words(s.skip(1));
        assert(words(s) == words(s.skip(1)));
    } else {
        lemma_word_run_bounds(s);
        let n = word_run(s) as int;
        lemma_words_are_words(s.skip(n));
        assert(words(s) == seq![s.take(n)] + words(s.skip(n)));
        let first = s.take(n);
        assert(is_word(first)) by {
            assert forall|i: int| 0 <= i < first.len() implies !is_space(#[trigger] first[i]) by {
                assert(first[i] == s[i]);
            }
        }
        assert forall|i: int| 0 <= i < words(s).len() implies is_word(#[trigger] words(s)[i]) by {
            if i > 0 {
                assert(words(s)[i] == words(s.skip(n))[i - 1]);
                assert(is_word(words(s.skip(n))[i - 1]));
            } else {
                assert(words(s)[0] == first);
            }
        }
    }
}

/// White space in front adds no word.
pub proof fn lemma_words_after_space(pre: Seq<char>, s: Seq<char>)
    requires
        all_space(pre),
    ensures
        words(pre + s) == words(s),
    decreases pre.len(),
{
    if pre.len() == 0 {
        assert(pre + s =~= s);
    } else {
        let rest = pre.skip(1);
        assert forall|i: int| 0 <= i < rest.len() implies is_space(#[trigger] rest[i]) by {
            assert(rest[i] == pre[i + 1]);
        }
        assert((pre + s)[0] == pre[0]);
        assert((pre + s).skip(1) =~= rest + s);
        lemma_words_after_space(rest, s);
    }
}

/// White space at the end adds no word.
pub proof fn lemma_words_before_space(s: Seq<char>, post: Seq<char>)
    requires
        all_space(post),
    ensures
        words(s + post) == words(s),
    decreases s.len(),
{
    let t = s + post;
    if s.len() == 0 {
        assert(t =~= post + s);
        lemma_words_after_space(post, s);
    } else if is_space(s[0]) {
        assert(t[0] == s[0]);
        assert(t.skip(1) =~= s.skip(1) + post);
        lemma_words_before_space(s.skip(1), post);
    } else {
        lemma_word_run_bounds(s);
        let n = word_run(s);
        assert(t[0] == s[0]);
        assert forall|i: int| 0 <= i < n implies !is_space(#[trigger] t[i]) by {
            assert(t[i] == s[i]);
        }
        if n < s.len() {
            assert(t[n as int] == s[n as int]);
        } else if post.len() > 0 {
            assert(t[n as int] == post[0]);
        }
        lemma_word_run_is(t, n);
        assert(t.take(n as int) =~= s.take(n as int));
        assert(t.skip(n as int) =~= s.skip(n as int) + post);
        lemma_words_before_space(s.skip(n as int), post);
    }
}

/// A word alone is its own one word.
pub proof fn lemma_words_of_word(w: Seq<char>)
    requires
        is_word(w),
    ensures
        words(w) == seq![w],
{
    lemma_word_run_is(w, w.len());
    assert(w.take(w.len() as int) =~= w);
    assert(w.skip(w.len() as int).len() == 0);
    assert(seq![w] + words(w.skip(w.len() as int)) =~= seq![w]);
}

/// A word after white space, or at the very beginning, is one word more.
pub proof fn lemma_words_push_word(s: Seq<char>, w: Seq<char>)
    requires
        is_word(w),
        s.len() == 0 || is_space(s.last()),
    ensures
        words(s + w) == words(s).push(w),
    decreases s.len(),
{
    let t = s + w;
    if s.len() == 0 {
        assert(t =~= w);
        lemma_words_of_word(w);
        assert(words(s).push(w) =~= seq![w]);
    } else if is_space(s[0]) {
        assert(t[0] == s[0]);
        assert(t.skip(1) =~= s.skip(1) + w);
        lemma_words_push_word(s.skip(1), w);
    } else {
        lemma_word_run_bounds(s);
        let n = word_run(s);
        assert(n < s.len()) by {
            if n == s.len() {
                assert(!is_space(s[s.len() - 1]));
            }
        }
        assert forall|i: int| 0 <= i < n implies !is_space(#[trigger] t[i]) by {
            assert(t[i] == s[i]);
        }
        assert(t[n as int] == s[n as int]);
        lemma_word_run_is(t, n);
        assert(t[0] == s[0]);
        assert(t.take(n as int) =~= s.take(n as int));
        assert(t.skip(n as int) =~= s.skip(n as int) + w);
        lemma_words_push_word(s.skip(n as int), w);
        assert(seq![s.take(n as int)] + words(s.skip(n as int)).push(w) =~= (seq![
            s.take(n as int),
        ] + words(s.skip(n as int))).push(w));
    }
}

/// White space around a sequence changes none of its words.
pub proof fn lemma_words_ignore_padding(pre: Seq<char>, s: Seq<char>, post: Seq<char>)
    requires
        all_space(pre),
        all_space(post),
    ensures
        words(pre + s + post) == words(s),
{
    assert(pre + s + post =~= pre + (s + post));
    lemma_words_after_space(pre, s + post);
    lemma_words_before_space(s, post);
}

/// Splits `line` into its words.
pub fn split_words(line: &str) -> (out: Vec<String>)
    ensures
        texts(out@) == words(line@),
{
    let ghost s = line@;
    let n = line.unicode_len();
    let mut out: Vec<String> = Vec::new();
    let mut start: usize = 0;
    let mut inside = false;
    let mut pos: usize = 0;
    assert(s.skip(0) =~= s);
    assert(texts(out@) + words(s) =~= words(s));
    for c in it: line.chars()
        invariant
            s == line@,
            n == s.len(),
            it.seq() == s,
            pos == it.index(),
            inside ==> start < pos,
            inside ==> forall|k: int| start <= k < pos ==> !is_space(#[trigger] s[k]),
            texts(out@) + words(s.skip(if inside { start as int } else { pos as int })) == words(s),
    {
        assert(c == s[pos as int]);
        if is_space_char(c) {
            if inside {
                let word = line.substring_char(start, pos).to_owned();
                proof {
                    lemma_split_off(s, start as int, pos as int);
                    lemma_texts_push(out@, word);
                }
                out.push(word);
                inside = false;
            }
            proof {
                lemma_skip_space(s, pos as int);
            }
        } else if !inside {
            start = pos;
            inside = true;
        }
        pos = pos + 1;
    }
    if inside {
        let word = line.substring_char(start, pos).to_owned();
        proof {
            lemma_split_off(s, start as int, pos as int);
            lemma_texts_push(out@, word);
        }
        out.push(word);
    }
    assert(s.skip(pos as int).len() == 0);
    out
}

/// The texts of a list with one string more.
pub proof fn lemma_texts_push(v: Seq<String>, w: String)
    ensures
        texts(v.push(w)) == texts(v).push(w@),
{
    assert(texts(v.push(w)) =~= texts(v).push(w@));
}

/// A word that stands at `from..to` is the first word of what follows
/// `from`, and the other words are those of what follows `to`.
proof fn lemma_split_off(s: Seq<char>, from: int, to: int)
    requires
        0 <= from < to <= s.len(),
        forall|k: int| from <= k < to ==> !is_space(#[trigger] s[k]),
        to < s.len() ==> is_space(s[to]),
    ensures
        words(s.skip(from)) == seq![s.subrange(from, to)] + words(s.skip(to)),
{
    let t = s.skip(from);
    assert forall|i: int| 0 <= i < to - from implies !is_space(#[trigger] t[i]) by {
        assert(t[i] == s[from + i]);
    }
    lemma_word_run_is(t, (to - from) as nat);
    assert(t.take(to - from) =~= s.subrange(from, to));
    assert(t.skip(to - from) =~= s.skip(to));
}

/// White space at `at` adds nothing to the words that follow it.
proof fn lemma_skip_space(s: Seq<char>, at: int)
    requires
        0 <= at < s.len(),
        is_space(s[at]),
    ensures
        words(s.skip(at)) == words(s.skip(at + 1)),
{
    assert(s.skip(at).skip(1) =~= s.skip(at + 1));
}

} // verus!
