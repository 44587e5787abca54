//! Characters and whitespace: what "trimming a line" means.

use vstd::prelude::*;

verus! {

/// The characters that Unicode classes as `White_Space`.
pub open spec fn is_white_space(c: char) -> bool {
    let u = c as u32;
    ||| 0x09 <= u <= 0x0D
    ||| u == 0x20
    ||| u == 0x85
    ||| u == 0xA0
    ||| u == 0x1680
    ||| 0x2000 <= u <= 0x200A
    ||| u == 0x2028
    ||| u == 0x2029
    ||| u == 0x202F
    ||| u == 0x205F
    ||| u == 0x3000
}

/// `s` without its leading whitespace.
pub open spec fn trim_start(s: Seq<char>) -> Seq<char>
    decreases s.len(),
{
    if s.len() > 0 && is_white_space(s[0]) {
        trim_start(s.drop_first())
    } else {
        s
    }
}

/// `s` without its trailing whitespace.
pub open spec fn trim_end(s: Seq<char>) -> Seq<char>
    decreases s.len(),
{
    if s.len() > 0 && is_white_space(s.last()) {
        trim_end(s.drop_last())
    } else {
        s
    }
}

/// `s` without its leading and trailing whitespace.
pub open spec fn trim(s: Seq<char>) -> Seq<char> {
    trim_end(trim_start(s))
}

/// Every character of `s` is whitespace.
pub open spec fn all_white_space(s: Seq<char>) -> bool {
    forall|i: int| 0 <= i < s.len() ==> is_white_space(#[trigger] s[i])
}

/// `word` stands in `line` at `at`, with nothing but whitespace before and
/// after it.
pub open spec fn padded_at(line: Seq<char>, word: Seq<char>, at: int) -> bool {
    &&& 0 <= at
    &&& at + word.len() <= line.len()
    &&& all_white_space(line.take(at))
    &&& line.subrange(at, at + word.len()) == word
    &&& all_white_space(line.skip(at + word.len()))
}

/// Tells whether `c` is whitespace.
pub fn white_space(c: char) -> (b: bool)
    ensures
        b == is_white_space(c),
{
    let u: u32 = c as u32;
    (0x09 <= u && u <= 0x0D) || u == 0x20 || u == 0x85 || u == 0xA0 || u == 0x1680 || (0x2000 <= u
        && u <= 0x200A) || u == 0x2028 || u == 0x2029 || u == 0x202F || u == 0x205F || u == 0x3000
}

/// Leading whitespace can be skipped all at once: where the first `i`
/// characters of `s` are whitespace, trimming the start of `s` is trimming
/// the start of what follows them.
pub proof fn lemma_trim_start_skips(s: Seq<char>, i: int)
    requires
        0 <= i <= s.len(),
        all_white_space(s.subrange(0, i)),
    ensures
        trim_start(s) == trim_start(s.subrange(i, s.len() as int)),
    decreases i,
{
    if i == 0 {
        assert(s.subrange(0, s.len() as int) =~= s);
    } else {
        assert(is_white_space(s.subrange(0, i)[0]));
        let t = s.drop_first();
        assert forall|j: int| 0 <= j < i - 1 implies is_white_space(
            #[trigger] t.subrange(0, i - 1)[j],
        ) by {
            assert(t.subrange(0, i - 1)[j] == s.subrange(0, i)[j + 1]);
        }
        lemma_trim_start_skips(t, i - 1);
        assert(t.subrange(i - 1, t.len() as int) =~= s.subrange(i, s.len() as int));
    }
}

/// Trailing whitespace can be dropped all at once: where the characters of
/// `s` from `i` on are whitespace, trimming the end of `s` is trimming the
/// end of what precedes them.
pub proof fn lemma_trim_end_drops(s: Seq<char>, i: int)
    requires
        0 <= i <= s.len(),
        all_white_space(s.subrange(i, s.len() as int)),
    ensures
        trim_end(s) == trim_end(s.subrange(0, i)),
    decreases s.len() - i,
{
    if i == s.len() {
        assert(s.subrange(0, i) =~= s);
    } else {
        let n = s.len() as int;
        assert(s.last() == s.subrange(i, n)[n - 1 - i]);
        let t = s.drop_last();
        assert forall|j: int| 0 <= j < n - 1 - i implies is_white_space(
            #[trigger] t.subrange(i, n - 1)[j],
        ) by {
            assert(t.subrange(i, n - 1)[j] == s.subrange(i, n)[j]);
        }
        lemma_trim_end_drops(t, i);
        assert(t.subrange(0, i) =~= s.subrange(0, i));
    }
}

/// What `trim_start` removes is whitespace, and it stops short of the first
/// character that is none.
pub proof fn lemma_trim_start_is_suffix(s: Seq<char>)
    ensures
        trim_start(s).len() <= s.len(),
        trim_start(s) == s.skip(s.len() - trim_start(s).len()),
        all_white_space(s.take(s.len() - trim_start(s).len())),
        trim_start(s).len() > 0 ==> !is_white_space(trim_start(s)[0]),
    decreases s.len(),
{
    if s.len() > 0 && is_white_space(s[0]) {
        let t = s.drop_first();
        lemma_trim_start_is_suffix(t);
        let k = t.len() - trim_start(t).len();
        assert(t.skip(k) =~= s.skip(k + 1));
        assert forall|j: int| 0 <= j < k + 1 implies is_white_space(#[trigger] s.take(k + 1)[j]) by {
            if j > 0 {
                assert(s.take(k + 1)[j] == t.take(k)[j - 1]);
            }
        }
    } else {
        assert(s.skip(0) =~= s);
    }
}

/// What `trim_end` removes is whitespace, and it stops short of the last
/// character that is none.
pub proof fn lemma_trim_end_is_prefix(s: Seq<char>)
    ensures
        trim_end(s).len() <= s.len(),
        trim_end(s) == s.take(trim_end(s).len() as int),
        all_white_space(s.skip(trim_end(s).len() as int)),
        trim_end(s).len() > 0 ==> !is_white_space(trim_end(s).last()),
    decreases s.len(),
{
    if s.len() > 0 && is_white_space(s.last()) {
        let t = s.drop_last();
        lemma_trim_end_is_prefix(t);
        let k = trim_end(t).len() as int;
        assert(t.take(k) =~= s.take(k));
        assert forall|j: int| 0 <= j < s.len() - k implies is_white_space(#[trigger] s.skip(k)[j]) by {
            if j < t.len() - k {
                assert(s.skip(k)[j] == t.skip(k)[j]);
            }
        }
    } else {
        assert(s.take(s.len() as int) =~= s);
    }
}

/// Whitespace around a text does not change what trimming leaves of it.
pub proof fn theorem_trim_ignores_padding(before: Seq<char>, text: Seq<char>, after: Seq<char>)
    requires
        all_white_space(before),
        all_white_space(after),
    ensures
        trim(before + text + after) == trim(text),
{
    let whole = before + text + after;
    let tail = text + after;
    assert(whole.subrange(0, before.len() as int) =~= before);
    assert(whole.skip(before.len() as int) =~= tail);
    lemma_trim_start_skips(whole, before.len() as int);
    lemma_trim_start_is_suffix(text);
    let k = text.len() - trim_start(text).len();
    assert(tail.subrange(0, k) =~= text.take(k));
    lemma_trim_start_skips(tail, k);
    if k < text.len() {
        let core = text.skip(k);
        assert(tail.skip(k) =~= core + after);
        assert((core + after)[0] == core[0]);
        assert(trim_start(core + after) == core + after);
        assert((core + after).skip(core.len() as int) =~= after);
        lemma_trim_end_drops(core + after, core.len() as int);
        assert((core + after).subrange(0, core.len() as int) =~= core);
    } else {
        assert(tail.skip(k) =~= after);
        assert(after.subrange(0, after.len() as int) =~= after);
        lemma_trim_start_skips(after, after.len() as int);
        assert(after.skip(after.len() as int) =~= Seq::<char>::empty());
        assert(text.skip(k) =~= Seq::<char>::empty());
    }
}

/// Trimming leaves `word`, a text that neither begins nor ends with
/// whitespace, of exactly the lines that hold `word` and whitespace around
/// it.
pub proof fn theorem_trim_finds_padded_word(line: Seq<char>, word: Seq<char>)
    requires
        word.len() > 0,
        !is_white_space(word.first()),
        !is_white_space(word.last()),
    ensures
        trim(line) == word <==> exists|at: int| padded_at(line, word, at),
{
    if trim(line) == word {
        lemma_trim_start_is_suffix(line);
        let rest = trim_start(line);
        let at = line.len() - rest.len();
        lemma_trim_end_is_prefix(rest);
        assert(line.subrange(at, at + word.len()) =~= rest.take(word.len() as int));
        assert(line.skip(at + word.len()) =~= rest.skip(word.len() as int));
        assert(padded_at(line, word, at));
    }
    if exists|at: int| padded_at(line, word, at) {
        let at = choose|at: int| padded_at(line, word, at);
        let before = line.take(at);
        let after = line.skip(at + word.len());
        assert(line =~= before + word + after);
        theorem_trim_ignores_padding(before, word, after);
        assert(trim_start(word) == word);
        assert(trim_end(word) == word);
    }
}

} // verus!
