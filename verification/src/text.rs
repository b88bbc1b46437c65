//! Text formatting: dates, wrapping, truncation and padding by display width.
use vstd::prelude::*;
use unicode_width::{UnicodeWidthChar, UnicodeWidthStr};
use crate::strings::{
    append_str, char_len_utf8, chars_of, copy_str, lemma_utf8_len_take_mono, push_char, push_repeated,
    repeat_char, spaces, string_from_range, utf8_len, utf8_len_of,
};

verus! {

// === Display widths (unicode-width) ===

/// Display width of a character in terminal columns, `None` for control
/// characters (`UnicodeWidthChar::width`).
pub uninterp spec fn char_width(c: char) -> Option<usize>;

/// Display width of a string in terminal columns (`UnicodeWidthStr::width`),
/// which accounts for emoji and other multi-character sequences.
pub uninterp spec fn str_width(s: Seq<char>) -> usize;

/// Printable ASCII: `' '..='~'`.
pub open spec fn is_printable_ascii(c: char) -> bool {
    0x20 <= (c as u32) && (c as u32) < 0x7F
}

/// `UnicodeWidthChar::width`; the result is named `char_width`.  The crate's
/// lookup gives `Some(1)` for printable ASCII and `None` for the C0 and C1
/// control characters.
#[verifier::external_body]
pub(crate) fn unicode_char_width(c: char) -> (r: Option<usize>)
    ensures
        r == char_width(c),
        is_printable_ascii(c) ==> r == Some(1usize),
        (c as u32) < 0x20 || (0x7F <= (c as u32) && (c as u32) < 0xA0) ==> r is None,
{
    UnicodeWidthChar::width(c)
}

/// `UnicodeWidthStr::width`; the result is named `str_width`.  A string made
/// only of printable ASCII characters is as wide as it is long (each such
/// character is one column and no multi-character rule applies to them).
#[verifier::external_body]
pub(crate) fn unicode_str_width(s: &str) -> (r: usize)
    ensures
        r == str_width(s@),
        (forall|i: int| 0 <= i < s@.len() ==> is_printable_ascii(#[trigger] s@[i])) ==> r
            == s@.len(),
{
    UnicodeWidthStr::width(s)
}

/// Width of one character as the truncation loop counts it (control
/// characters count as zero).
pub open spec fn counted_width(c: char) -> nat {
    match char_width(c) {
        Some(w) => w as nat,
        None => 0,
    }
}

/// Number of leading characters of `s` whose counted widths fit into
/// `budget`, stopping at the first character that does not fit.
pub open spec fn fitting_prefix_len(s: Seq<char>, budget: nat) -> nat
    decreases s.len(),
{
    if s.len() == 0 {
        0
    } else if counted_width(s[0]) > budget {
        0
    } else {
        1 + fitting_prefix_len(s.drop_first(), (budget - counted_width(s[0])) as nat)
    }
}

/// Sum of the counted widths of the characters of `s`.
pub open spec fn counted_sum(s: Seq<char>) -> nat
    decreases s.len(),
{
    if s.len() == 0 {
        0
    } else {
        counted_width(s[0]) + counted_sum(s.drop_first())
    }
}

/// The prefix that a truncation keeps fits its budget: its characters'
/// counted widths add up to at most `budget` columns.
pub proof fn law_fitting_prefix_fits(s: Seq<char>, budget: nat)
    ensures
        fitting_prefix_len(s, budget) <= s.len(),
        counted_sum(s.take(fitting_prefix_len(s, budget) as int)) <= budget,
    decreases s.len(),
{
    let k = fitting_prefix_len(s, budget);
    if s.len() > 0 && counted_width(s[0]) <= budget {
        let w = counted_width(s[0]);
        law_fitting_prefix_fits(s.drop_first(), (budget - w) as nat);
        assert(s.take(k as int).drop_first() =~= s.drop_first().take(k - 1));
        assert(s.take(k as int)[0] == s[0]);
    } else {
        assert(s.take(0) =~= Seq::<char>::empty());
    }
}

/// The three-dot ellipsis.
pub open spec fn ellipsis() -> Seq<char> {
    seq!['.', '.', '.']
}

fn ellipsis_str() -> (r: String)
    ensures
        r@ == ellipsis(),
{
    let mut r = String::new();
    push_char(&mut r, '.');
    push_char(&mut r, '.');
    push_char(&mut r, '.');
    r
}

/// What `truncate_text_unicode` returns.
pub open spec fn truncate_unicode_spec(text: Seq<char>, max_width: nat) -> Seq<char> {
    if str_width(text) <= max_width {
        text
    } else if max_width <= 3 {
        ellipsis().take(max_width as int)
    } else {
        text.take(fitting_prefix_len(text, (max_width - 3) as nat) as int) + ellipsis()
    }
}

proof fn lemma_fitting_prefix_step(s: Seq<char>, i: int, budget: nat, used: nat)
    requires
        0 <= i < s.len(),
        used <= budget,
        fitting_prefix_len(s, budget) == i + fitting_prefix_len(s.skip(i), (budget - used) as nat),
    ensures
        counted_width(s[i]) > budget - used ==> fitting_prefix_len(s, budget) == i,
        counted_width(s[i]) <= budget - used ==> fitting_prefix_len(s, budget) == (i + 1)
            + fitting_prefix_len(s.skip(i + 1), (budget - used - counted_width(s[i])) as nat),
{
    assert(s.skip(i)[0] == s[i]);
    assert(s.skip(i).drop_first() == s.skip(i + 1));
}

/// The longest prefix of `text` whose character widths (control
/// characters counting zero) add up to at most `target` columns.
pub fn fitting_prefix(text: &str, target: usize) -> (result: String)
    ensures
        result@ == text@.take(fitting_prefix_len(text@, target as nat) as int),
{
    let chars = chars_of(text);
    let mut result = String::new();
    let mut used: usize = 0;
    let mut i: usize = 0;
    proof {
        assert(chars@.skip(0) == chars@);
    }
    while i < chars.len()
        invariant
            0 <= i <= chars@.len(),
            chars@ == text@,
            used <= target,
            result@ == chars@.take(i as int),
            fitting_prefix_len(chars@, target as nat) == i + fitting_prefix_len(
                chars@.skip(i as int),
                (target - used) as nat,
            ),
        ensures
            0 <= i <= chars@.len(),
            result@ == chars@.take(i as int),
            i == chars@.len() || counted_width(chars@[i as int]) > target - used,
            fitting_prefix_len(chars@, target as nat) == i + fitting_prefix_len(
                chars@.skip(i as int),
                (target - used) as nat,
            ),
        decreases chars@.len() - i,
    {
        let c = chars[i];
        let w = match unicode_char_width(c) {
            Some(w) => w,
            None => 0,
        };
        proof {
            lemma_fitting_prefix_step(chars@, i as int, target as nat, used as nat);
        }
        if w > target - used {
            break;
        }
        push_char(&mut result, c);
        assert(chars@.take(i + 1) == chars@.take(i as int).push(c));
        used = used + w;
        i = i + 1;
    }
    proof {
        if i == chars@.len() {
            assert(chars@.skip(i as int).len() == 0);
        } else {
            lemma_fitting_prefix_step(chars@, i as int, target as nat, used as nat);
        }
    }
    result
}

/// Truncates text to `max_width` display columns, ending it with `...`
/// when it does not fit.
pub fn truncate_text_unicode(text: &str, max_width: usize) -> (r: String)
    ensures
        r@ == truncate_unicode_spec(text@, max_width as nat),
{
    if unicode_str_width(text) <= max_width {
        return copy_str(text);
    }
    let ell = ellipsis_str();
    let ell_width = unicode_str_width(ell.as_str());
    proof {
        assert(forall|i: int| 0 <= i < ell@.len() ==> is_printable_ascii(#[trigger] ell@[i]));
    }
    assert(ell_width == 3);
    if max_width <= ell_width {
        let ev = chars_of(ell.as_str());
        let r = string_from_range(&ev, 0, max_width);
        assert(r@ =~= ellipsis().take(max_width as int));
        return r;
    }
    let target = max_width - ell_width;
    let mut result = fitting_prefix(text, target);
    append_str(&mut result, ell.as_str());
    assert(result@ == text@.take(fitting_prefix_len(text@, (max_width - 3) as nat) as int)
        + ellipsis());
    result
}

/// Alias of [`truncate_text_unicode`].
pub fn truncate_text(text: &str, max_width: usize) -> (r: String)
    ensures
        r@ == truncate_unicode_spec(text@, max_width as nat),
{
    truncate_text_unicode(text, max_width)
}

/// The first `k` characters of `s` have exactly `n` bytes in UTF-8.
pub open spec fn is_byte_prefix(s: Seq<char>, k: nat, n: nat) -> bool {
    k <= s.len() && utf8_len(s.take(k as int)) == n
}

/// What `truncate_text_simple` returns (its byte cut lands on a character
/// boundary, which its callers must ensure).
pub open spec fn truncate_simple_spec(text: Seq<char>, max_length: nat, k: nat) -> Seq<char> {
    if utf8_len(text) <= max_length {
        text
    } else if max_length <= 3 {
        ellipsis()
    } else {
        text.take(k as int) + ellipsis()
    }
}

/// The byte offset `max_length - 3` falls on a character boundary whenever
/// the text is cut (slicing a `str` elsewhere panics).
pub open spec fn truncate_simple_ok(text: Seq<char>, max_length: nat) -> bool {
    utf8_len(text) <= max_length || max_length <= 3 || exists|k: nat|
        #[trigger] is_byte_prefix(text, k, (max_length - 3) as nat)
}

proof fn lemma_byte_prefix_unique(s: Seq<char>, k1: nat, k2: nat, n: nat)
    requires
        is_byte_prefix(s, k1, n),
        is_byte_prefix(s, k2, n),
    ensures
        k1 == k2,
{
    if k1 < k2 {
        lemma_utf8_len_take_mono(s, k1 as int, k2 as int);
    } else if k2 < k1 {
        lemma_utf8_len_take_mono(s, k2 as int, k1 as int);
    }
}

/// Truncates by byte length, ending with `...` when cut.
pub fn truncate_text_simple(text: &str, max_length: usize) -> (r: String)
    requires
        truncate_simple_ok(text@, max_length as nat),
        text@.len() <= usize::MAX / 4,
    ensures
        forall|k: nat| #[trigger] is_byte_prefix(text@, k, (max_length - 3) as nat) ==> r@
            == truncate_simple_spec(text@, max_length as nat, k),
        utf8_len(text@) <= max_length ==> r@ == text@,
        utf8_len(text@) > max_length && max_length <= 3 ==> r@ == ellipsis(),
{
    let chars = chars_of(text);
    let total = utf8_len_of(&chars);
    if total <= max_length {
        return copy_str(text);
    }
    if max_length <= 3 {
        return ellipsis_str();
    }
    let cut = max_length - 3;
    let n = chars.len();
    let mut i: usize = 0;
    let mut bytes: usize = 0;
    while bytes < cut
        invariant
            n == chars@.len(),
            0 <= i <= chars@.len(),
            chars@ == text@,
            bytes == utf8_len(chars@.take(i as int)),
            bytes <= cut,
            cut == max_length - 3,
            exists|k: nat| #[trigger] is_byte_prefix(chars@, k, cut as nat),
            forall|k: nat| #[trigger] is_byte_prefix(chars@, k, cut as nat) ==> i <= k,
        decreases cut - bytes,
    {
        proof {
            let k = choose|k: nat| is_byte_prefix(chars@, k, cut as nat);
            if k <= i {
                lemma_utf8_len_take_mono(chars@, k as int, i as int);
            }
            assert(i < k);
            assert(k <= chars@.len());
            assert(i < chars@.len());
            assert(chars@.take(i + 1).drop_last() == chars@.take(i as int));
            lemma_utf8_len_take_mono(chars@, i + 1, k as int);
        }
        bytes = bytes + char_len_utf8(chars[i]);
        i = i + 1;
    }
    let mut r = string_from_range(&chars, 0, i);
    let ell = ellipsis_str();
    append_str(&mut r, ell.as_str());
    proof {
        assert(chars@.subrange(0, i as int) == chars@.take(i as int));
        assert forall|k: nat| is_byte_prefix(text@, k, cut as nat) implies k == i by {
            lemma_byte_prefix_unique(text@, k, i as nat, cut as nat);
        }
    }
    r
}

/// What `pad_to_width` returns.
pub open spec fn pad_spec(text: Seq<char>, width: nat) -> Seq<char> {
    if str_width(text) >= width {
        text
    } else {
        text + repeat_char(' ', (width - str_width(text)) as nat)
    }
}

/// Pads text with spaces on the right up to `width` display columns.
pub fn pad_to_width(text: &str, width: usize) -> (r: String)
    ensures
        r@ == pad_spec(text@, width as nat),
{
    let w = unicode_str_width(text);
    let mut r = copy_str(text);
    if w < width {
        push_repeated(&mut r, ' ', width - w);
    }
    r
}

/// What `center_text` returns: the padding is split with the smaller half
/// on the left.
pub open spec fn center_spec(text: Seq<char>, width: nat) -> Seq<char> {
    if str_width(text) >= width {
        text
    } else {
        let padding = (width - str_width(text)) as nat;
        repeat_char(' ', padding / 2) + text + repeat_char(' ', (padding - padding / 2) as nat)
    }
}

/// Centers text within `width` display columns.
pub fn center_text(text: &str, width: usize) -> (r: String)
    ensures
        r@ == center_spec(text@, width as nat),
{
    let w = unicode_str_width(text);
    if w >= width {
        return copy_str(text);
    }
    let padding = width - w;
    let left = padding / 2;
    let right = padding - left;
    let mut r = spaces(left);
    append_str(&mut r, text);
    push_repeated(&mut r, ' ', right);
    r
}

// === Dates ===

/// The part of `s` before the first occurrence of `c` (all of `s` when `c`
/// does not occur), as `s.split(c).next()` gives it.
pub open spec fn before_first(s: Seq<char>, c: char) -> Seq<char>
    decreases s.len(),
{
    if s.len() == 0 {
        s
    } else if s[0] == c {
        Seq::empty()
    } else {
        seq![s[0]] + before_first(s.drop_first(), c)
    }
}

proof fn lemma_before_first_step(s: Seq<char>, i: int, c: char)
    requires
        0 <= i < s.len(),
        forall|j: int| 0 <= j < i ==> s[j] != c,
    ensures
        before_first(s, c) == s.take(i) + before_first(s.skip(i), c),
    decreases i,
{
    if i > 0 {
        lemma_before_first_step(s.drop_first(), i - 1, c);
        assert(s.drop_first().skip(i - 1) == s.skip(i));
        assert(s.take(i) == seq![s[0]] + s.drop_first().take(i - 1));
    } else {
        assert(s.skip(0) == s);
    }
}

/// Shortens an ISO date-time such as `2023-12-25T10:30:00.000Z` to its date
/// part `2023-12-25` (everything before the first `T`).
pub fn format_datetime(datetime: &str) -> (r: String)
    ensures
        r@ == before_first(datetime@, 'T'),
{
    let chars = chars_of(datetime);
    let mut i: usize = 0;
    while i < chars.len()
        invariant
            0 <= i <= chars@.len(),
            chars@ == datetime@,
            forall|j: int| 0 <= j < i ==> chars@[j] != 'T',
        ensures
            i == chars@.len() || chars@[i as int] == 'T',
        decreases chars@.len() - i,
    {
        if chars[i] == 'T' {
            break;
        }
        i = i + 1;
    }
    proof {
        if i < chars@.len() {
            lemma_before_first_step(chars@, i as int, 'T');
            assert(before_first(chars@.skip(i as int), 'T') == Seq::<char>::empty());
            assert(chars@.take(i as int) + Seq::<char>::empty() == chars@.take(i as int));
        } else {
            if i > 0 {
                lemma_before_first_step(chars@, (i - 1) as int, 'T');
                assert(chars@.skip(i - 1) =~= seq![chars@[i - 1]]);
                assert(before_first(seq![chars@[i - 1]].drop_first(), 'T') == Seq::<char>::empty());
                assert(chars@.take(i - 1) + seq![chars@[i - 1]] =~= chars@);
            }
        }
    }
    let r = string_from_range(&chars, 0, i);
    assert(chars@.subrange(0, i as int) == chars@.take(i as int));
    r
}

} // verus!
