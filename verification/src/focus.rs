//! Big-text layout for the focus screen: how a title is broken into lines
//! that fit a given number of characters and lines.

use vstd::prelude::*;
use crate::text::{chars_of, push_chars, split_words, string_from, strings_from, words};

verus! {

/// Width of one big-text character in terminal cells.
pub const CHAR_WIDTH: u16 = 4;

/// Height of one big-text character in terminal cells.
pub const CHAR_HEIGHT: u16 = 2;

/// `text` cut to `max` characters with a visible `...` at its end: nothing
/// when `max` is 0, only dots when `max` is at most 3, and otherwise the
/// first `max - 3` characters followed by three dots.
pub open spec fn spec_truncate_with_dots(text: Seq<char>, max: nat) -> Seq<char> {
    if max == 0 {
        seq![]
    } else if max <= 3 {
        Seq::new(max, |i: int| '.')
    } else {
        let keep = if text.len() < max - 3 { text.len() } else { (max - 3) as nat };
        text.take(keep as int) + seq!['.', '.', '.']
    }
}

/// Line breaking state: the finished lines and the line being filled.
pub struct WrapState {
    pub lines: Seq<Seq<char>>,
    pub current: Seq<char>,
}

/// One word added to the line breaking state (`max` characters per line).
/// A word longer than a line closes the current line and stands alone,
/// truncated with dots; otherwise it joins the current line, after one
/// space, when it fits there, and opens a new line when it does not.
pub open spec fn wrap_step(st: WrapState, word: Seq<char>, max: nat) -> WrapState {
    if word.len() > max {
        let closed = if st.current.len() > 0 { st.lines.push(st.current) } else { st.lines };
        WrapState { lines: closed.push(spec_truncate_with_dots(word, max)), current: seq![] }
    } else {
        let sep: nat = if st.current.len() > 0 { 1 } else { 0 };
        let required = st.current.len() + sep + word.len();
        if required > max {
            WrapState { lines: st.lines.push(st.current), current: word }
        } else if st.current.len() > 0 {
            WrapState { lines: st.lines, current: st.current.push(' ') + word }
        } else {
            WrapState { lines: st.lines, current: word }
        }
    }
}

/// The line breaking state after the given words.
pub open spec fn wrap_words(words: Seq<Seq<char>>, max: nat) -> WrapState
    decreases words.len(),
{
    if words.len() == 0 {
        WrapState { lines: seq![], current: seq![] }
    } else {
        wrap_step(wrap_words(words.drop_last(), max), words.last(), max)
    }
}

/// The lines that `text` is broken into at `max` characters per line.
pub open spec fn spec_wrap_big_text(text: Seq<char>, max: nat) -> Seq<Seq<char>> {
    if max == 0 {
        seq![]
    } else {
        let st = wrap_words(words(text), max);
        if st.current.len() > 0 { st.lines.push(st.current) } else { st.lines }
    }
}

/// The big-text lines for `text` in a box of `max_width` by `max_height`
/// cells: broken at `max_width / 4` characters per line, and when more
/// than `max_height / 2` lines result, only that many kept, the last of
/// them truncated with dots.
pub open spec fn spec_fit_big_text(text: Seq<char>, max_width: u16, max_height: u16) -> Seq<Seq<char>> {
    let max_chars = (max_width / CHAR_WIDTH) as nat;
    let max_lines = (max_height / CHAR_HEIGHT) as nat;
    if max_chars == 0 || max_lines == 0 {
        seq![]
    } else {
        let lines = spec_wrap_big_text(text, max_chars);
        if lines.len() > max_lines {
            let kept = lines.take(max_lines as int);
            kept.update(max_lines - 1, spec_truncate_with_dots(kept[max_lines - 1], max_chars))
        } else {
            lines
        }
    }
}

/// Text truncated with dots to `max` characters has exactly `max`
/// characters when it was longer than that.
proof fn lemma_truncate_len(text: Seq<char>, max: nat)
    ensures
        spec_truncate_with_dots(text, max).len() <= max,
        text.len() > max ==> spec_truncate_with_dots(text, max).len() == max,
{
}

proof fn lemma_wrap_words_fit(ws: Seq<Seq<char>>, max: nat)
    requires
        max > 0,
    ensures
        wrap_words(ws, max).current.len() <= max,
        forall|i: int| 0 <= i < wrap_words(ws, max).lines.len() ==> #[trigger] wrap_words(ws, max).lines[i].len() <= max,
    decreases ws.len(),
{
    if ws.len() > 0 {
        lemma_wrap_words_fit(ws.drop_last(), max);
        let st = wrap_words(ws.drop_last(), max);
        let word = ws.last();
        lemma_truncate_len(word, max);
        let r = wrap_words(ws, max);
        assert forall|i: int| 0 <= i < r.lines.len() implies #[trigger] r.lines[i].len() <= max by {
            if i < st.lines.len() {
                assert(r.lines[i] == st.lines[i]);
            }
        }
    }
}

/// Every line of wrapped big text fits in `max` characters.
pub proof fn lemma_wrapped_lines_fit(text: Seq<char>, max: nat)
    ensures
        forall|i: int| 0 <= i < spec_wrap_big_text(text, max).len() ==> #[trigger] spec_wrap_big_text(text, max)[i].len() <= max,
{
    if max > 0 {
        lemma_wrap_words_fit(words(text), max);
    }
}

/// Fitted big text fits its box: at most `max_height / 2` lines of at
/// most `max_width / 4` characters.
pub proof fn lemma_fitted_text_fits(text: Seq<char>, max_width: u16, max_height: u16)
    ensures
        spec_fit_big_text(text, max_width, max_height).len() <= max_height / CHAR_HEIGHT,
        forall|i: int| 0 <= i < spec_fit_big_text(text, max_width, max_height).len() ==>
            #[trigger] spec_fit_big_text(text, max_width, max_height)[i].len() <= max_width / CHAR_WIDTH,
{
    let max_chars = (max_width / CHAR_WIDTH) as nat;
    let max_lines = (max_height / CHAR_HEIGHT) as nat;
    if max_chars > 0 && max_lines > 0 {
        lemma_wrapped_lines_fit(text, max_chars);
        let lines = spec_wrap_big_text(text, max_chars);
        if lines.len() > max_lines {
            lemma_truncate_len(lines[max_lines - 1], max_chars);
            let r = spec_fit_big_text(text, max_width, max_height);
            assert forall|i: int| 0 <= i < r.len() implies #[trigger] r[i].len() <= max_chars by {
                if i < max_lines - 1 {
                    assert(r[i] == lines[i]);
                }
            }
        }
    }
}

fn truncate_chars(text: &Vec<char>, max_chars: u16) -> (r: Vec<char>)
    ensures
        r@ == spec_truncate_with_dots(text@, max_chars as nat),
{
    let mut r: Vec<char> = Vec::new();
    if max_chars == 0 {
        return r;
    }
    if max_chars <= 3 {
        let mut i: u16 = 0;
        while i < max_chars
            invariant
                i <= max_chars,
                r@ == Seq::new(i as nat, |k: int| '.'),
            decreases max_chars - i,
        {
            r.push('.');
            i = i + 1;
            assert(r@ =~= Seq::new(i as nat, |k: int| '.'));
        }
        return r;
    }
    let content = (max_chars - 3) as usize;
    let keep = if text.len() < content { text.len() } else { content };
    let mut i: usize = 0;
    while i < keep
        invariant
            keep <= text.len(),
            i <= keep,
            r@ == text@.take(i as int),
        decreases keep - i,
    {
        r.push(text[i]);
        i = i + 1;
        assert(r@ =~= text@.take(i as int));
    }
    r.push('.');
    r.push('.');
    r.push('.');
    assert(r@ =~= text@.take(keep as int) + seq!['.', '.', '.']);
    r
}

/// `text` cut to `max_chars` characters, ending in dots when it is cut.
pub fn truncate_with_dots(text: &str, max_chars: u16) -> (r: String)
    ensures
        r@ == spec_truncate_with_dots(text@, max_chars as nat),
{
    let cs = chars_of(text);
    let r = truncate_chars(&cs, max_chars);
    string_from(&r)
}

fn wrap_chars(text: &Vec<char>, max_chars: u16) -> (r: Vec<Vec<char>>)
    ensures
        r.len() == spec_wrap_big_text(text@, max_chars as nat).len(),
        forall|i: int| 0 <= i < r.len() ==> #[trigger] r[i]@ == spec_wrap_big_text(text@, max_chars as nat)[i],
{
    let mut lines: Vec<Vec<char>> = Vec::new();
    if max_chars == 0 {
        return lines;
    }
    let max: usize = max_chars as usize;
    let ws = split_words(text);
    let ghost wseq = words(text@);
    let mut current: Vec<char> = Vec::new();
    let mut i: usize = 0;
    assert(wseq.take(0) =~= Seq::<Seq<char>>::empty());
    while i < ws.len()
        invariant
            max == max_chars as nat,
            max > 0,
            ws.len() == wseq.len(),
            forall|k: int| 0 <= k < ws.len() ==> #[trigger] ws[k]@ == wseq[k],
            i <= ws.len(),
            ({
                let st = wrap_words(wseq.take(i as int), max as nat);
                &&& lines.len() == st.lines.len()
                &&& forall|k: int| 0 <= k < lines.len() ==> #[trigger] lines[k]@ == st.lines[k]
                &&& current@ == st.current
            }),
        decreases ws.len() - i,
    {
        let ghost st0 = wrap_words(wseq.take(i as int), max as nat);
        assert(wseq.take(i + 1).drop_last() =~= wseq.take(i as int));
        assert(wseq.take(i + 1).last() == wseq[i as int]);
        let word = &ws[i];
        let word_length = word.len();
        if word_length > max {
            if current.len() > 0 {
                let done = current;
                current = Vec::new();
                lines.push(done);
            }
            let t = truncate_chars(word, max_chars);
            lines.push(t);
        } else {
            let sep: usize = if current.len() > 0 { 1 } else { 0 };
            let required = current.len().saturating_add(sep).saturating_add(word_length);
            if required > max {
                let done = current;
                current = Vec::new();
                lines.push(done);
            }
            if current.len() > 0 {
                current.push(' ');
            }
            push_chars(&mut current, word);
        }
        i = i + 1;
        proof {
            let st = wrap_words(wseq.take(i as int), max as nat);
            assert(st == wrap_step(st0, wseq[i - 1], max as nat));
            assert(lines.len() == st.lines.len());
            assert forall|k: int| 0 <= k < lines.len() implies #[trigger] lines[k]@ == st.lines[k] by {
                if k < st0.lines.len() {
                    assert(st.lines[k] == st0.lines[k]);
                }
            }
            assert(current@ =~= st.current);
        }
    }
    assert(wseq.take(ws.len() as int) =~= wseq);
    if current.len() > 0 {
        lines.push(current);
    }
    lines
}

/// The lines that `text` is broken into at `max_chars` characters per line.
pub fn wrap_big_text(text: &str, max_chars: u16) -> (r: Vec<String>)
    ensures
        r.len() == spec_wrap_big_text(text@, max_chars as nat).len(),
        forall|i: int| 0 <= i < r.len() ==> #[trigger] r[i]@ == spec_wrap_big_text(text@, max_chars as nat)[i],
{
    let cs = chars_of(text);
    let lines = wrap_chars(&cs, max_chars);
    strings_from(&lines)
}

/// The big-text lines for `text` in a box of `max_width` by `max_height` cells.
pub fn fit_big_text(text: &str, max_width: u16, max_height: u16) -> (r: Vec<String>)
    ensures
        r.len() == spec_fit_big_text(text@, max_width, max_height).len(),
        forall|i: int|
            0 <= i < r.len() ==> #[trigger] r[i]@ == spec_fit_big_text(text@, max_width, max_height)[i],
{
    let max_chars = max_width / CHAR_WIDTH;
    let max_lines = max_height / CHAR_HEIGHT;
    if max_chars == 0 || max_lines == 0 {
        return Vec::new();
    }
    let cs = chars_of(text);
    let mut lines = wrap_chars(&cs, max_chars);
    let ghost full = spec_wrap_big_text(text@, max_chars as nat);
    let ml = max_lines as usize;
    if lines.len() > ml {
        lines.truncate(ml);
        let last = truncate_chars(&lines[ml - 1], max_chars);
        lines.set(ml - 1, last);
        proof {
            let spec = spec_fit_big_text(text@, max_width, max_height);
            assert(spec.len() == ml);
            assert forall|i: int| 0 <= i < lines.len() implies #[trigger] lines[i]@ == spec[i] by {
                if i < ml - 1 {
                    assert(spec[i] == full[i]);
                }
            }
        }
    }
    strings_from(&lines)
}

} // verus!
