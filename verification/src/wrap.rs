//! Word wrapping of text to a byte width, breaking at white space.
use vstd::prelude::*;
use crate::strings::{
    char_is_whitespace, char_len_utf8, chars_of, is_whitespace, lemma_utf8_len_take_mono,
    push_char, string_from_chars, string_from_range, utf8_len, utf8_len_of, utf8_len_wide,
};

verus! {

/// The views of a sequence of strings.
pub open spec fn views(v: Seq<String>) -> Seq<Seq<char>> {
    v.map_values(|s: String| s@)
}

/// Continues splitting `s` into words, given the word in progress `cur`
/// and the words found so far.
pub open spec fn words_from(s: Seq<char>, cur: Seq<char>, acc: Seq<Seq<char>>) -> Seq<Seq<char>>
    decreases s.len(),
{
    if s.len() == 0 {
        if cur.len() > 0 { acc.push(cur) } else { acc }
    } else if is_whitespace(s[0]) {
        words_from(s.drop_first(), Seq::empty(), if cur.len() > 0 { acc.push(cur) } else { acc })
    } else {
        words_from(s.drop_first(), cur.push(s[0]), acc)
    }
}

/// The maximal runs of non-white-space characters of `s`, in order
/// (`str::split_whitespace`).
pub open spec fn split_whitespace(s: Seq<char>) -> Seq<Seq<char>> {
    words_from(s, Seq::empty(), Seq::empty())
}

/// The number `k` of leading characters of `s` that take exactly `n` bytes
/// in UTF-8, if the byte offset `n` falls on a character boundary.
pub open spec fn byte_cut(s: Seq<char>, n: nat) -> Option<nat>
    decreases s.len(),
{
    if n == 0 {
        Some(0)
    } else if s.len() == 0 {
        None
    } else if crate::strings::char_utf8_len(s[0]) > n {
        None
    } else {
        match byte_cut(s.drop_first(), (n - crate::strings::char_utf8_len(s[0])) as nat) {
            Some(k) => Some(k + 1),
            None => None,
        }
    }
}

/// Breaks a word that is longer than `max` bytes into pieces of exactly
/// `max` bytes, returning the pieces, the remainder (at most `max` bytes),
/// and whether every cut fell on a character boundary.
pub open spec fn break_word(rem: Seq<char>, max: nat) -> (Seq<Seq<char>>, Seq<char>, bool)
    decreases rem.len(),
{
    if utf8_len(rem) <= max {
        (Seq::empty(), rem, true)
    } else if max == 0 {
        (Seq::empty(), rem, false)
    } else {
        match byte_cut(rem, max) {
            Some(k) => if 1 <= k && k <= rem.len() {
                let (pieces, rest, ok) = break_word(rem.skip(k as int), max);
                (seq![rem.take(k as int)] + pieces, rest, ok)
            } else {
                (Seq::empty(), rem, false)
            },
            None => (Seq::empty(), rem, false),
        }
    }
}

/// One step of the greedy line filling: adds `word` to the state
/// (finished lines, line in progress, all cuts valid).
pub open spec fn wrap_step(
    st: (Seq<Seq<char>>, Seq<char>, bool),
    word: Seq<char>,
    max: nat,
) -> (Seq<Seq<char>>, Seq<char>, bool) {
    let (lines, cur, ok) = st;
    if utf8_len(cur) + utf8_len(word) + 1 > max {
        let lines1 = if cur.len() > 0 { lines.push(cur) } else { lines };
        if utf8_len(word) > max {
            let (pieces, rest, ok2) = break_word(word, max);
            (lines1 + pieces, rest, ok && ok2)
        } else {
            (lines1, word, ok)
        }
    } else {
        (lines, if cur.len() == 0 { word } else { cur.push(' ') + word }, ok)
    }
}

/// The line-filling state after all of `words`.
pub open spec fn wrap_fold(words: Seq<Seq<char>>, max: nat) -> (Seq<Seq<char>>, Seq<char>, bool)
    decreases words.len(),
{
    if words.len() == 0 {
        (Seq::empty(), Seq::empty(), true)
    } else {
        wrap_step(wrap_fold(words.drop_last(), max), words.last(), max)
    }
}

/// The lines `wrap_text` returns: the greedy filling of the words of `text`
/// into lines of at most `max` bytes (a word longer than that is cut into
/// pieces of `max` bytes), and a single empty line when there are none.
pub open spec fn wrap_spec(text: Seq<char>, max: nat) -> Seq<Seq<char>> {
    let (lines, cur, ok) = wrap_fold(split_whitespace(text), max);
    let all = if cur.len() > 0 { lines.push(cur) } else { lines };
    if all.len() == 0 { seq![Seq::empty()] } else { all }
}

/// `wrap_text` neither slices a word inside a character nor loops for ever
/// (which it does when `max` is zero and the text has a word).
pub open spec fn wrap_ok(text: Seq<char>, max: nat) -> bool {
    wrap_fold(split_whitespace(text), max).2
}

proof fn lemma_fold_ok_prefix(words: Seq<Seq<char>>, i: int, max: nat)
    requires
        0 <= i <= words.len(),
        wrap_fold(words, max).2,
    ensures
        wrap_fold(words.take(i), max).2,
    decreases words.len() - i,
{
    if i < words.len() {
        assert(words.take(i + 1).drop_last() == words.take(i));
        lemma_fold_ok_prefix(words, i + 1, max);
    } else {
        assert(words.take(i) == words);
    }
}

proof fn lemma_byte_cut_found(s: Seq<char>, i: int, n: nat)
    requires
        0 <= i <= s.len(),
        utf8_len(s.take(i)) == n,
    ensures
        byte_cut(s, n) == Some(i as nat),
    decreases i,
{
    if i > 0 {
        lemma_utf8_len_take_mono(s, 1, i);
        let c = crate::strings::char_utf8_len(s[0]);
        lemma_utf8_prefix_split(s, 1);
        assert(s.drop_first().take(0) =~= Seq::<char>::empty());
        lemma_utf8_prefix_split(s, i);
        lemma_byte_cut_found(s.drop_first(), i - 1, (n - c) as nat);
    }
}

proof fn lemma_utf8_prefix_split(s: Seq<char>, i: int)
    requires
        1 <= i <= s.len(),
    ensures
        utf8_len(s.take(i)) == crate::strings::char_utf8_len(s[0]) + utf8_len(s.drop_first().take(i - 1)),
    decreases i,
{
    if i == 1 {
        assert(s.take(1).drop_last() == Seq::<char>::empty());
        assert(s.drop_first().take(0) == Seq::<char>::empty());
    } else {
        lemma_utf8_prefix_split(s, i - 1);
        assert(s.take(i).drop_last() == s.take(i - 1));
        assert(s.drop_first().take(i - 1).drop_last() == s.drop_first().take(i - 2));
    }
}

proof fn lemma_byte_cut_none(s: Seq<char>, i: int, n: nat)
    requires
        0 <= i < s.len(),
        utf8_len(s.take(i)) < n,
        utf8_len(s.take(i + 1)) > n,
    ensures
        byte_cut(s, n) is None,
    decreases i,
{
    assert(s.take(i + 1).drop_last() == s.take(i));
    let c = crate::strings::char_utf8_len(s[0]);
    if i == 0 {
        assert(s.take(0).len() == 0);
        assert(s.take(1).drop_last() == s.take(0));
    } else {
        lemma_utf8_prefix_split(s, i);
        lemma_utf8_prefix_split(s, i + 1);
        assert(utf8_len(s.take(1)) == c) by {
            lemma_utf8_prefix_split(s, 1);
            assert(s.drop_first().take(0) =~= Seq::<char>::empty());
        }
        lemma_utf8_len_take_mono(s, 1, i);
        lemma_byte_cut_none(s.drop_first(), i - 1, (n - c) as nat);
    }
}

/// Cuts the first `max` bytes off `rem`, when the cut falls on a boundary.
fn cut_prefix(rem: &Vec<char>, max: usize) -> (r: Option<usize>)
    requires
        max > 0,
        rem@.len() <= usize::MAX / 4,
        utf8_len(rem@) > max,
    ensures
        r == match byte_cut(rem@, max as nat) {
            Some(k) => Some(k as usize),
            None => None::<usize>,
        },
        r matches Some(k) ==> 1 <= k <= rem@.len(),
{
    let mut i: usize = 0;
    let mut bytes: usize = 0;
    while bytes < max
        invariant
            0 <= i <= rem@.len() <= usize::MAX / 4,
            bytes == utf8_len(rem@.take(i as int)),
            bytes <= max,
            bytes <= 4 * i,
            utf8_len(rem@) > max,
            forall|j: int| 0 <= j < i ==> utf8_len(#[trigger] rem@.take(j)) < max,
        decreases max - bytes,
    {
        if i == rem.len() {
            assert(rem@.take(i as int) == rem@);
            assert(false);
        }
        proof {
            assert(rem@.take(i + 1).drop_last() == rem@.take(i as int));
        }
        let next = bytes + char_len_utf8(rem[i]);
        if next > max {
            proof {
                lemma_byte_cut_none(rem@, i as int, max as nat);
            }
            return None;
        }
        bytes = next;
        i = i + 1;
    }
    proof {
        lemma_byte_cut_found(rem@, i as int, max as nat);
        if i == 0 {
            assert(rem@.take(0).len() == 0);
        }
    }
    Some(i)
}

/// Breaks a word into `max`-byte pieces (see [`break_word`]).
fn break_long_word(word: &Vec<char>, max: usize, lines: &mut Vec<String>) -> (rest: Vec<char>)
    requires
        word@.len() <= usize::MAX / 4,
        break_word(word@, max as nat).2,
    ensures
        views(final(lines)@) == views(old(lines)@) + break_word(word@, max as nat).0,
        rest@ == break_word(word@, max as nat).1,
{
    let mut rem: Vec<char> = word.clone();
    assert(rem@ == word@);
    let ghost pieces_done: Seq<Seq<char>> = Seq::empty();
    loop
        invariant
            rem@.len() <= usize::MAX / 4,
            break_word(rem@, max as nat).2,
            break_word(word@, max as nat).0 == pieces_done + break_word(rem@, max as nat).0,
            break_word(word@, max as nat).1 == break_word(rem@, max as nat).1,
            views(lines@) == views(old(lines)@) + pieces_done,
        decreases rem@.len(),
    {
        let len = utf8_len_of(&rem);
        if len <= max {
            assert(break_word(rem@, max as nat).0 == Seq::<Seq<char>>::empty());
            assert(pieces_done + Seq::<Seq<char>>::empty() == pieces_done);
            return rem;
        }
        let k = match cut_prefix(&rem, max) {
            Some(k) => k,
            None => {
                assert(false);
                0
            },
        };
        let piece = string_from_range(&rem, 0, k);
        let ghost old_lines = lines@;
        lines.push(piece);
        let rest = tail_from(&rem, k);
        proof {
            assert(rem@.subrange(0, k as int) == rem@.take(k as int));
            assert(views(lines@) =~= views(old_lines).push(rem@.take(k as int)));
            let old_done = pieces_done;
            pieces_done = pieces_done.push(rem@.take(k as int));
            assert(seq![rem@.take(k as int)] + break_word(rest@, max as nat).0
                == break_word(rem@, max as nat).0);
            assert(old_done + (seq![rem@.take(k as int)] + break_word(rest@, max as nat).0)
                =~= pieces_done + break_word(rest@, max as nat).0);
        }
        rem = rest;
    }
}

fn tail_from(v: &Vec<char>, k: usize) -> (r: Vec<char>)
    requires
        k <= v@.len(),
    ensures
        r@ == v@.skip(k as int),
{
    let mut r: Vec<char> = Vec::new();
    let mut i = k;
    while i < v.len()
        invariant
            k <= i <= v@.len(),
            r@ == v@.subrange(k as int, i as int),
        decreases v@.len() - i,
    {
        r.push(v[i]);
        assert(v@.subrange(k as int, i + 1) == v@.subrange(k as int, i as int).push(v@[i as int]));
        i = i + 1;
    }
    assert(v@.subrange(k as int, v@.len() as int) == v@.skip(k as int));
    r
}

/// Splits text into words at white space.
fn split_words(text: &Vec<char>) -> (words: Vec<Vec<char>>)
    ensures
        words@.map_values(|w: Vec<char>| w@) == split_whitespace(text@),
        forall|i: int| 0 <= i < words@.len() ==> (#[trigger] words@[i])@.len() <= text@.len(),
{
    let mut words: Vec<Vec<char>> = Vec::new();
    let mut cur: Vec<char> = Vec::new();
    let mut i: usize = 0;
    proof {
        assert(text@.skip(0) == text@);
        assert(words@.map_values(|w: Vec<char>| w@) =~= Seq::<Seq<char>>::empty());
    }
    while i < text.len()
        invariant
            0 <= i <= text@.len(),
            split_whitespace(text@) == words_from(
                text@.skip(i as int),
                cur@,
                words@.map_values(|w: Vec<char>| w@),
            ),
            cur@.len() <= i,
            forall|j: int| 0 <= j < words@.len() ==> (#[trigger] words@[j])@.len() <= text@.len(),
        decreases text@.len() - i,
    {
        let c = text[i];
        proof {
            assert(text@.skip(i as int)[0] == c);
            assert(text@.skip(i as int).drop_first() == text@.skip(i + 1));
        }
        if char_is_whitespace(c) {
            if cur.len() > 0 {
                let ghost old_words = words@;
                let ghost cur_view = cur@;
                words.push(cur);
                assert(words@.map_values(|w: Vec<char>| w@) =~= old_words.map_values(
                    |w: Vec<char>| w@,
                ).push(cur_view));
            }
            cur = Vec::new();
        } else {
            cur.push(c);
        }
        i = i + 1;
    }
    proof {
        assert(text@.skip(i as int).len() == 0);
    }
    if cur.len() > 0 {
        let ghost old_words = words@;
        let ghost cur_view = cur@;
        words.push(cur);
        assert(words@.map_values(|w: Vec<char>| w@) =~= old_words.map_values(|w: Vec<char>| w@).push(
            cur_view,
        ));
    }
    words
}

/// Wraps text into lines of at most `max_width` bytes, breaking at white
/// space; a word longer than a line is cut into `max_width`-byte pieces.
pub fn wrap_text(text: &str, max_width: usize) -> (lines: Vec<String>)
    requires
        wrap_ok(text@, max_width as nat),
        text@.len() <= usize::MAX / 4,
    ensures
        views(lines@) == wrap_spec(text@, max_width as nat),
        forall|i: int| 0 <= i < lines@.len() ==> utf8_len(#[trigger] lines@[i]@) <= max_width,
{
    proof {
        law_wrapped_lines_fit(text@, max_width as nat);
    }
    let chars = chars_of(text);
    let words = split_words(&chars);
    let ghost ws = words@.map_values(|w: Vec<char>| w@);
    let mut lines: Vec<String> = Vec::new();
    let mut cur: Vec<char> = Vec::new();
    let mut i: usize = 0;
    proof {
        assert(ws.take(0) =~= Seq::<Seq<char>>::empty());
        assert(views(lines@) =~= Seq::<Seq<char>>::empty());
    }
    while i < words.len()
        invariant
            0 <= i <= words@.len(),
            ws == words@.map_values(|w: Vec<char>| w@),
            ws == split_whitespace(text@),
            wrap_fold(ws, max_width as nat).2,
            text@.len() <= usize::MAX / 4,
            forall|j: int| 0 <= j < words@.len() ==> (#[trigger] words@[j])@.len() <= text@.len(),
            wrap_fold(ws.take(i as int), max_width as nat) == (views(lines@), cur@, true),
        decreases words@.len() - i,
    {
        let word = &words[i];
        proof {
            assert(ws.take(i + 1).drop_last() == ws.take(i as int));
            assert(ws.take(i + 1).last() == word@);
            lemma_fold_ok_prefix(ws, i + 1, max_width as nat);
        }
        let cur_len = cur.len();
        let word_len = word.len();
        assert(cur_len == cur@.len() && word_len == word@.len());
        let cur_bytes = utf8_len_wide(&cur);
        let word_bytes = utf8_len_wide(word);
        if cur_bytes + word_bytes + 1 > (max_width as u128) {
            if cur.len() > 0 {
                let line = string_from_chars(&cur);
                let ghost before = lines@;
                lines.push(line);
                assert(views(lines@) =~= views(before).push(cur@));
            }
            if word_bytes > (max_width as u128) {
                let rest = break_long_word(word, max_width, &mut lines);
                cur = rest;
            } else {
                cur = word.clone();
            }
        } else {
            if cur.len() > 0 {
                push_chars_space(&mut cur, word);
            } else {
                cur = word.clone();
            }
        }
        i = i + 1;
    }
    proof {
        assert(ws.take(words@.len() as int) == ws);
    }
    if cur.len() > 0 {
        let line = string_from_chars(&cur);
        let ghost before = lines@;
        lines.push(line);
        assert(views(lines@) =~= views(before).push(cur@));
    }
    if lines.len() == 0 {
        let mut one: Vec<String> = Vec::new();
        one.push(String::new());
        assert(views(one@) =~= seq![Seq::<char>::empty()]);
        assert(one@[0]@ == views(one@)[0]);
        return one;
    }
    assert(views(lines@) == wrap_spec(text@, max_width as nat));
    assert forall|i: int| 0 <= i < lines@.len() implies utf8_len(#[trigger] lines@[i]@)
        <= max_width by {
        assert(lines@[i]@ == views(lines@)[i]);
        assert(utf8_len(wrap_spec(text@, max_width as nat)[i]) <= max_width);
    }
    lines
}

/// `cur` followed by a space and `word`.
fn push_chars_space(cur: &mut Vec<char>, word: &Vec<char>)
    ensures
        final(cur)@ == old(cur)@.push(' ') + word@,
{
    cur.push(' ');
    let mut j: usize = 0;
    let ghost base = cur@;
    while j < word.len()
        invariant
            0 <= j <= word@.len(),
            cur@ == base + word@.take(j as int),
            base == old(cur)@.push(' '),
        decreases word@.len() - j,
    {
        cur.push(word[j]);
        assert(word@.take(j + 1) == word@.take(j as int).push(word@[j as int]));
        j = j + 1;
    }
    assert(word@.take(word@.len() as int) == word@);
}

/// Byte lengths add up under concatenation.
proof fn lemma_utf8_concat(a: Seq<char>, b: Seq<char>)
    ensures
        utf8_len(a + b) == utf8_len(a) + utf8_len(b),
    decreases b.len(),
{
    if b.len() > 0 {
        assert((a + b).drop_last() =~= a + b.drop_last());
        lemma_utf8_concat(a, b.drop_last());
    } else {
        assert(a + b =~= a);
    }
}

/// A cut found at `k` characters takes exactly `n` bytes.
proof fn lemma_byte_cut_bytes(s: Seq<char>, n: nat)
    requires
        byte_cut(s, n) is Some,
    ensures
        byte_cut(s, n).unwrap() <= s.len(),
        utf8_len(s.take(byte_cut(s, n).unwrap() as int)) == n,
    decreases s.len(),
{
    if n == 0 {
        assert(s.take(0) =~= Seq::<char>::empty());
    } else {
        let c = crate::strings::char_utf8_len(s[0]);
        let rest = s.drop_first();
        lemma_byte_cut_bytes(rest, (n - c) as nat);
        let k = byte_cut(rest, (n - c) as nat).unwrap();
        lemma_utf8_prefix_split(s, (k + 1) as int);
        assert(rest.take(k as int) =~= s.drop_first().take(k as int));
    }
}

/// When every cut of a long word falls on a boundary, each piece takes
/// exactly `max` bytes and the remainder at most `max`.
proof fn lemma_break_word_fits(rem: Seq<char>, max: nat)
    requires
        break_word(rem, max).2,
    ensures
        forall|i: int|
            0 <= i < break_word(rem, max).0.len() ==> utf8_len(#[trigger] break_word(rem, max).0[i])
                <= max,
        utf8_len(break_word(rem, max).1) <= max,
    decreases rem.len(),
{
    if utf8_len(rem) > max && max > 0 {
        let k = byte_cut(rem, max).unwrap();
        lemma_byte_cut_bytes(rem, max);
        lemma_break_word_fits(rem.skip(k as int), max);
        let (pieces, rest, ok) = break_word(rem.skip(k as int), max);
        assert forall|i: int| 0 <= i < break_word(rem, max).0.len() implies utf8_len(
            #[trigger] break_word(rem, max).0[i],
        ) <= max by {
            if i > 0 {
                assert(break_word(rem, max).0[i] == pieces[i - 1]);
            }
        }
    }
}

/// Every line finished so far, and the line in progress, fit in `max`
/// bytes.
pub open spec fn lines_fit(st: (Seq<Seq<char>>, Seq<char>, bool), max: nat) -> bool {
    &&& forall|i: int| 0 <= i < st.0.len() ==> utf8_len(#[trigger] st.0[i]) <= max
    &&& utf8_len(st.1) <= max
}

proof fn lemma_fold_fits(words: Seq<Seq<char>>, max: nat)
    requires
        wrap_fold(words, max).2,
    ensures
        lines_fit(wrap_fold(words, max), max),
    decreases words.len(),
{
    if words.len() > 0 {
        let st = wrap_fold(words.drop_last(), max);
        let word = words.last();
        lemma_fold_fits(words.drop_last(), max);
        let (lines, cur, ok) = st;
        if utf8_len(cur) + utf8_len(word) + 1 > max {
            let lines1 = if cur.len() > 0 { lines.push(cur) } else { lines };
            assert(forall|i: int| 0 <= i < lines1.len() ==> utf8_len(#[trigger] lines1[i]) <= max);
            if utf8_len(word) > max {
                lemma_break_word_fits(word, max);
                let (pieces, rest, ok2) = break_word(word, max);
                assert forall|i: int| 0 <= i < (lines1 + pieces).len() implies utf8_len(
                    #[trigger] (lines1 + pieces)[i],
                ) <= max by {
                    if i >= lines1.len() {
                        assert((lines1 + pieces)[i] == pieces[i - lines1.len()]);
                    }
                }
            }
        } else if cur.len() > 0 {
            lemma_utf8_concat(cur.push(' '), word);
            assert(cur.push(' ').drop_last() =~= cur);
        }
    }
}

/// Every line that `wrap_text` gives fits in the width: none is longer
/// than `max` bytes.
pub proof fn law_wrapped_lines_fit(text: Seq<char>, max: nat)
    requires
        wrap_ok(text, max),
    ensures
        forall|i: int|
            0 <= i < wrap_spec(text, max).len() ==> utf8_len(#[trigger] wrap_spec(text, max)[i])
                <= max,
{
    let words = split_whitespace(text);
    lemma_fold_fits(words, max);
    let (lines, cur, ok) = wrap_fold(words, max);
    let all = if cur.len() > 0 { lines.push(cur) } else { lines };
    assert(forall|i: int| 0 <= i < all.len() ==> utf8_len(#[trigger] all[i]) <= max);
    if all.len() == 0 {
        assert(utf8_len(Seq::<char>::empty()) == 0);
    }
}

} // verus!
