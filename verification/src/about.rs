//! Text of the detail pages: the wrapped "about" text, the short blurb in
//! a page header and the breadcrumb over stacked pages.

use vstd::prelude::*;
use crate::keys::Key;
use crate::text::{chars_of, is_whitespace, is_ws, push_chars, push_str, split_words, string_from, words, lemma_words_shape};

verus! {

/// The pieces of `s` between its `'\n'` characters (always at least one).
pub open spec fn split_newlines(s: Seq<char>) -> Seq<Seq<char>>
    decreases s.len(),
{
    if s.len() == 0 {
        seq![seq![]]
    } else {
        let p = split_newlines(s.drop_last());
        if s.last() == '\n' {
            p.push(seq![])
        } else {
            p.drop_last().push(p.last().push(s.last()))
        }
    }
}

proof fn lemma_split_nonempty(s: Seq<char>)
    ensures
        split_newlines(s).len() > 0,
    decreases s.len(),
{
    if s.len() > 0 {
        lemma_split_nonempty(s.drop_last());
    }
}

/// The lines of a text: the pieces between line feeds, without the empty
/// piece after a final line feed (so an empty text has no lines). Unlike
/// `str::lines`, a carriage return before a line feed stays at the end of
/// its line; it is whitespace, so the words of the line are the same.
pub open spec fn text_lines(s: Seq<char>) -> Seq<Seq<char>> {
    let p = split_newlines(s);
    if p.last().len() == 0 { p.drop_last() } else { p }
}

/// The greedy line filling of one paragraph: the finished lines and the
/// line being filled.
pub struct ParaState {
    pub lines: Seq<Seq<char>>,
    pub current: Seq<char>,
}

/// One word added to a paragraph that is filled at `width` characters: it
/// goes on the current line after a space when that line is empty or the
/// word still fits, and opens a new line otherwise.
pub open spec fn para_step(st: ParaState, word: Seq<char>, width: nat) -> ParaState {
    if st.current.len() > 0 && st.current.len() + 1 + word.len() > width {
        ParaState { lines: st.lines.push(st.current), current: word }
    } else if st.current.len() > 0 {
        ParaState { lines: st.lines, current: st.current.push(' ') + word }
    } else {
        ParaState { lines: st.lines, current: word }
    }
}

/// The filling state after the given words.
pub open spec fn para_words(ws: Seq<Seq<char>>, width: nat) -> ParaState
    decreases ws.len(),
{
    if ws.len() == 0 {
        ParaState { lines: seq![], current: seq![] }
    } else {
        para_step(para_words(ws.drop_last(), width), ws.last(), width)
    }
}

/// The lines one paragraph fills at `width` characters (one line at least,
/// empty for a paragraph without words).
pub open spec fn wrap_paragraph(para: Seq<char>, width: nat) -> Seq<Seq<char>> {
    let st = para_words(words(para), width);
    st.lines.push(st.current)
}

/// The lines of the given paragraphs, one after another.
pub open spec fn wrap_paragraphs(paras: Seq<Seq<char>>, width: nat) -> Seq<Seq<char>>
    decreases paras.len(),
{
    if paras.len() == 0 {
        seq![]
    } else {
        wrap_paragraphs(paras.drop_last(), width) + wrap_paragraph(paras.last(), width)
    }
}

/// The width used for wrapping: `width`, and 1 when it is 0.
pub open spec fn wrap_width(width: u16) -> nat {
    if width == 0 { 1 } else { width as nat }
}

/// `text` wrapped at `width` characters: each of its lines filled word by
/// word separately.
pub open spec fn spec_wrap_text(text: Seq<char>, width: u16) -> Seq<Seq<char>> {
    wrap_paragraphs(text_lines(text), wrap_width(width))
}

fn wrap_para_chars(para: &Vec<char>, width: usize, out: &mut Vec<Vec<char>>)
    requires
        width > 0,
    ensures
        final(out)@.len() == old(out)@.len() + wrap_paragraph(para@, width as nat).len(),
        forall|k: int| 0 <= k < old(out)@.len() ==> #[trigger] final(out)@[k] == old(out)@[k],
        forall|k: int|
            0 <= k < wrap_paragraph(para@, width as nat).len() ==> #[trigger] final(out)@[old(
                out,
            )@.len() + k]@ == wrap_paragraph(para@, width as nat)[k],
{
    let ws = split_words(para);
    let ghost wseq = words(para@);
    proof { lemma_words_shape(para@); }
    let ghost start = out@.len();
    let mut current: Vec<char> = Vec::new();
    let mut i: usize = 0;
    assert(wseq.take(0) =~= Seq::<Seq<char>>::empty());
    while i < ws.len()
        invariant
            width > 0,
            ws.len() == wseq.len(),
            forall|k: int| 0 <= k < ws.len() ==> #[trigger] ws[k]@ == wseq[k],
            forall|k: int| 0 <= k < wseq.len() ==> #[trigger] wseq[k].len() > 0,
            i <= ws.len(),
            start == old(out)@.len(),
            start <= out@.len(),
            forall|k: int| 0 <= k < start ==> #[trigger] out@[k] == old(out)@[k],
            ({
                let st = para_words(wseq.take(i as int), width as nat);
                &&& out@.len() == start + st.lines.len()
                &&& forall|k: int| 0 <= k < st.lines.len() ==> #[trigger] out@[start + k]@ == st.lines[k]
                &&& current@ == st.current
            }),
        decreases ws.len() - i,
    {
        let ghost st0 = para_words(wseq.take(i as int), width as nat);
        assert(wseq.take(i + 1).drop_last() =~= wseq.take(i as int));
        assert(wseq.take(i + 1).last() == wseq[i as int]);
        let word = &ws[i];
        let too_long = word.len() >= width || current.len() >= width - word.len();
        if current.len() > 0 && too_long {
            let done = current;
            current = Vec::new();
            out.push(done);
        }
        if current.len() > 0 {
            current.push(' ');
        }
        push_chars(&mut current, word);
        i = i + 1;
        proof {
            let st = para_words(wseq.take(i as int), width as nat);
            assert(st == para_step(st0, wseq[i - 1], width as nat));
            assert forall|k: int| 0 <= k < st.lines.len() implies #[trigger] out@[start + k]@ == st.lines[k] by {
                if k < st0.lines.len() {
                    assert(st.lines[k] == st0.lines[k]);
                }
            }
            assert(current@ =~= st.current);
        }
    }
    assert(wseq.take(ws.len() as int) =~= wseq);
    out.push(current);
}

fn wrap_text_chars(text: &Vec<char>, width: u16) -> (r: Vec<Vec<char>>)
    ensures
        r@.len() == spec_wrap_text(text@, width).len(),
        forall|k: int| 0 <= k < r@.len() ==> #[trigger] r@[k]@ == spec_wrap_text(text@, width)[k],
{
    let w: usize = if width == 0 { 1 } else { width as usize };
    let mut out: Vec<Vec<char>> = Vec::new();
    let mut para: Vec<char> = Vec::new();
    let mut i: usize = 0;
    // paragraphs finished so far are the pieces before the last one of the prefix
    while i < text.len()
        invariant
            w == wrap_width(width),
            i <= text.len(),
            ({
                let p = split_newlines(text@.take(i as int));
                let done = wrap_paragraphs(p.drop_last(), w as nat);
                &&& p.len() > 0
                &&& para@ == p.last()
                &&& out@.len() == done.len()
                &&& forall|k: int| 0 <= k < out@.len() ==> #[trigger] out@[k]@ == done[k]
            }),
        decreases text.len() - i,
    {
        let ghost p0 = split_newlines(text@.take(i as int));
        assert(text@.take(i + 1).drop_last() =~= text@.take(i as int));
        assert(text@.take(i + 1).last() == text@[i as int]);
        if text[i] == '\n' {
            let ghost before = out@;
            wrap_para_chars(&para, w, &mut out);
            para = Vec::new();
            proof {
                let p = split_newlines(text@.take(i + 1));
                assert(p.drop_last() =~= p0);
                assert(p0 =~= p0.drop_last().push(p0.last()));
                let done = wrap_paragraphs(p.drop_last(), w as nat);
                assert(done =~= wrap_paragraphs(p0.drop_last(), w as nat) + wrap_paragraph(p0.last(), w as nat));
                assert forall|k: int| 0 <= k < out@.len() implies #[trigger] out@[k]@ == done[k] by {
                    if k < before.len() {
                        assert(out@[k] == before[k]);
                    } else {
                        assert(out@[before.len() + (k - before.len())] == out@[k]);
                    }
                }
            }
        } else {
            para.push(text[i]);
            proof {
                let p = split_newlines(text@.take(i + 1));
                assert(p.drop_last() =~= p0.drop_last());
            }
        }
        i = i + 1;
    }
    assert(text@.take(text.len() as int) =~= text@);
    let ghost p = split_newlines(text@);
    proof { lemma_split_nonempty(text@); }
    if para.len() > 0 {
        let ghost before = out@;
        wrap_para_chars(&para, w, &mut out);
        proof {
            assert(text_lines(text@) == p);
            assert(p =~= p.drop_last().push(p.last()));
            let all = spec_wrap_text(text@, width);
            assert(all =~= wrap_paragraphs(p.drop_last(), w as nat) + wrap_paragraph(p.last(), w as nat));
            assert forall|k: int| 0 <= k < out@.len() implies #[trigger] out@[k]@ == all[k] by {
                if k < before.len() {
                    assert(out@[k] == before[k]);
                } else {
                    assert(out@[before.len() + (k - before.len())] == out@[k]);
                }
            }
        }
    }
    out
}

/// `text` wrapped at `width` characters per line, each of its lines filled
/// word by word separately.
pub fn wrap_text(text: &str, width: u16) -> (r: Vec<String>)
    ensures
        r.len() == spec_wrap_text(text@, width).len(),
        forall|k: int| 0 <= k < r.len() ==> #[trigger] r[k]@ == spec_wrap_text(text@, width)[k],
{
    let cs = chars_of(text);
    let lines = wrap_text_chars(&cs, width);
    crate::text::strings_from(&lines)
}


/// How far a key scrolls the about text: one line for `Up`/`k` and
/// `Down`/`j`, ten for `PageUp` and `PageDown`, nothing for other keys.
pub open spec fn spec_about_scroll_delta(key: Key) -> Option<isize> {
    match key {
        Key::Up | Key::Char('k') => Some(-1isize),
        Key::Down | Key::Char('j') => Some(1isize),
        Key::PageUp => Some(-10isize),
        Key::PageDown => Some(10isize),
        _ => None,
    }
}

/// How far a key scrolls the about text.
pub fn about_scroll_delta(key: Key) -> (r: Option<isize>)
    ensures
        r == spec_about_scroll_delta(key),
{
    match key {
        Key::Up | Key::Char('k') => Some(-1),
        Key::Down | Key::Char('j') => Some(1),
        Key::PageUp => Some(-10),
        Key::PageDown => Some(10),
        _ => None,
    }
}

/// `position + delta`, kept between 0 and `usize::MAX`.
pub open spec fn spec_scroll(position: usize, delta: isize) -> usize {
    let p = position + delta;
    if p < 0 { 0 } else if p > usize::MAX { usize::MAX } else { p as usize }
}

/// The scroll position moved by `delta` lines, saturating at both ends.
pub fn scroll_about(position: &mut usize, delta: isize)
    ensures
        *final(position) == spec_scroll(*old(position), delta),
{
    if delta < 0 {
        let back: usize = if delta == isize::MIN {
            (isize::MAX as usize) + 1
        } else {
            (-delta) as usize
        };
        if *position < back {
            *position = 0;
        } else {
            *position = *position - back;
        }
    } else {
        let fwd = delta as usize;
        if *position > usize::MAX - fwd {
            *position = usize::MAX;
        } else {
            *position = *position + fwd;
        }
    }
}

/// Scrolling by `delta` lines and back by as many returns to the same
/// position when the first move did not hit either end.
pub proof fn lemma_scroll_round_trip(position: usize, delta: isize)
    requires
        delta != isize::MIN,
        0 <= position + delta <= usize::MAX,
    ensures
        spec_scroll(spec_scroll(position, delta), (-delta) as isize) == position,
{
}

/// Where the about text is shown and whether a scroll bar goes beside it,
/// for `total` lines in a view of `viewport` lines: the position is kept
/// at most `total - viewport`, and the bar is shown when the text does not
/// fit.
pub struct AboutView {
    pub position: usize,
    pub show_scrollbar: bool,
}

/// The clamped scroll position and the scroll bar for `total` lines in a
/// view of `viewport` lines.
pub fn about_view(total: usize, viewport: usize, position: usize) -> (v: AboutView)
    ensures
        v.position == (if total > viewport {
            if position < total - viewport { position } else { (total - viewport) as usize }
        } else {
            0
        }),
        v.show_scrollbar == (total > viewport),
{
    let max_scroll = total.saturating_sub(viewport);
    let p = if position < max_scroll { position } else { max_scroll };
    AboutView { position: p, show_scrollbar: total > viewport }
}

/// One line of an about page: a heading or ordinary text.
pub struct AboutLine {
    pub text: String,
    pub heading: bool,
}

/// The lines of an about page: when there are awards, the heading
/// `Awards`, one `• <award>` line for each and an empty line; then the
/// description wrapped at `width`.
pub open spec fn spec_about_lines(description: Seq<char>, awards: Seq<Seq<char>>, width: u16) -> Seq<(Seq<char>, bool)> {
    let head: Seq<(Seq<char>, bool)> = if awards.len() > 0 {
        seq![(seq!['A', 'w', 'a', 'r', 'd', 's'], true)]
            + awards.map_values(|a: Seq<char>| (seq!['\u{2022}', ' '] + a, false))
            + seq![(Seq::<char>::empty(), false)]
    } else {
        seq![]
    };
    head + spec_wrap_text(description, width).map_values(|l: Seq<char>| (l, false))
}

/// The lines of an about page for `description` and `awards` at `width`.
pub fn about_lines(description: &str, awards: &Vec<String>, width: u16) -> (r: Vec<AboutLine>)
    ensures
        r.len() == spec_about_lines(description@, awards@.map_values(|a: String| a@), width).len(),
        forall|k: int| 0 <= k < r.len() ==> (#[trigger] r[k].text@, r[k].heading) == spec_about_lines(
            description@,
            awards@.map_values(|a: String| a@),
            width,
        )[k],
{
    let ghost aw = awards@.map_values(|a: String| a@);
    let ghost spec = spec_about_lines(description@, aw, width);
    let mut r: Vec<AboutLine> = Vec::new();
    let ghost head_len: int = if awards.len() > 0 { awards.len() + 2 } else { 0 };
    if awards.len() > 0 {
        let mut h: Vec<char> = Vec::new();
        push_str(&mut h, "Awards");
        proof { reveal_strlit("Awards"); }
        assert(h@ =~= seq!['A', 'w', 'a', 'r', 'd', 's']);
        r.push(AboutLine { text: string_from(&h), heading: true });
        let mut i: usize = 0;
        while i < awards.len()
            invariant
                i <= awards.len(),
                awards.len() > 0,
                aw == awards@.map_values(|a: String| a@),
                spec == spec_about_lines(description@, aw, width),
                r.len() == 1 + i,
                forall|k: int| 0 <= k < r.len() ==> (#[trigger] r[k].text@, r[k].heading) == spec[k],
            decreases awards.len() - i,
        {
            let mut line: Vec<char> = Vec::new();
            line.push('\u{2022}');
            line.push(' ');
            let a = chars_of(awards[i].as_str());
            push_chars(&mut line, &a);
            assert(spec[1 + i] == (seq!['\u{2022}', ' '] + aw[i as int], false));
            r.push(AboutLine { text: string_from(&line), heading: false });
            i = i + 1;
        }
        assert(spec[1 + awards.len()] == (Seq::<char>::empty(), false));
        r.push(AboutLine { text: String::new(), heading: false });
    }
    let wrapped = wrap_text(description, width);
    let ghost base = r.len();
    assert(base == head_len);
    let mut j: usize = 0;
    while j < wrapped.len()
        invariant
            j <= wrapped.len(),
            base == head_len,
            spec == spec_about_lines(description@, aw, width),
            aw == awards@.map_values(|a: String| a@),
            head_len == (if awards.len() > 0 { awards.len() + 2 } else { 0 }),
            wrapped.len() == spec_wrap_text(description@, width).len(),
            forall|k: int| 0 <= k < wrapped.len() ==> #[trigger] wrapped[k]@ == spec_wrap_text(description@, width)[k],
            r.len() == base + j,
            forall|k: int| 0 <= k < r.len() ==> (#[trigger] r[k].text@, r[k].heading) == spec[k],
        decreases wrapped.len() - j,
    {
        assert(spec[base + j] == (spec_wrap_text(description@, width)[j as int], false));
        r.push(AboutLine { text: wrapped[j].clone(), heading: false });
        j = j + 1;
    }
    r
}

/// Words of `s` joined by single spaces.
pub open spec fn join_words(ws: Seq<Seq<char>>) -> Seq<char>
    decreases ws.len(),
{
    if ws.len() == 0 {
        seq![]
    } else if ws.len() == 1 {
        ws[0]
    } else {
        join_words(ws.drop_last()).push(' ') + ws.last()
    }
}

/// `s` without its trailing white space.
pub open spec fn trim_end_ws(s: Seq<char>) -> Seq<char>
    decreases s.len(),
{
    if s.len() > 0 && is_ws(s.last()) { trim_end_ws(s.drop_last()) } else { s }
}

/// The hint after a shortened blurb, ` [see about]`.
pub open spec fn see_about_hint() -> Seq<char> {
    seq![' ', '[', 's', 'e', 'e', ' ', 'a', 'b', 'o', 'u', 't', ']']
}

/// The short description in a page header.
pub struct Blurb {
    /// The description text, ending in `…` when it was shortened.
    pub text: String,
    /// Whether the hint ` [see about]` follows the text.
    pub see_about: bool,
}

/// The header blurb of `description` in `width` characters: its words
/// joined by single spaces when that fits; otherwise the first
/// `width - 13` characters of it, without trailing spaces, followed by `…`
/// and the hint ` [see about]`.
pub open spec fn spec_header_blurb(description: Seq<char>, width: usize) -> (Seq<char>, bool) {
    let normalized = join_words(words(description));
    if normalized.len() <= width {
        (normalized, false)
    } else {
        let reserved = see_about_hint().len() + 1;
        let available: int = if width < reserved { 0 } else { width - reserved };
        (trim_end_ws(normalized.take(available)).push('\u{2026}'), true)
    }
}

/// The header blurb of `description` in `width` characters.
pub fn header_blurb(description: &str, width: usize) -> (b: Blurb)
    ensures
        (b.text@, b.see_about) == spec_header_blurb(description@, width),
{
    let cs = chars_of(description);
    let ws = split_words(&cs);
    let mut normalized: Vec<char> = Vec::new();
    let mut i: usize = 0;
    while i < ws.len()
        invariant
            i <= ws.len(),
            ws.len() == words(cs@).len(),
            forall|k: int| 0 <= k < ws.len() ==> #[trigger] ws[k]@ == words(cs@)[k],
            normalized@ == join_words(words(cs@).take(i as int)),
        decreases ws.len() - i,
    {
        assert(words(cs@).take(i + 1).drop_last() =~= words(cs@).take(i as int));
        if i > 0 {
            normalized.push(' ');
        }
        push_chars(&mut normalized, &ws[i]);
        i = i + 1;
        proof {
            let t = words(cs@).take(i as int);
            if i == 1 {
                assert(normalized@ =~= t[0]);
            } else {
                assert(normalized@ =~= join_words(t.drop_last()).push(' ') + t.last());
            }
        }
    }
    assert(words(cs@).take(ws.len() as int) =~= words(cs@));
    if normalized.len() <= width {
        return Blurb { text: string_from(&normalized), see_about: false };
    }
    let available: usize = width.saturating_sub(13);
    let mut head: Vec<char> = Vec::new();
    let mut k: usize = 0;
    while k < available
        invariant
            available < normalized.len(),
            k <= available,
            head@ == normalized@.take(k as int),
        decreases available - k,
    {
        head.push(normalized[k]);
        k = k + 1;
        assert(head@ =~= normalized@.take(k as int));
    }
    while head.len() > 0 && is_whitespace(head[head.len() - 1])
        invariant
            trim_end_ws(head@) == trim_end_ws(normalized@.take(available as int)),
        decreases head.len(),
    {
        let ghost before = head@;
        head.pop();
        assert(head@ =~= before.drop_last());
    }
    head.push('\u{2026}');
    Blurb { text: string_from(&head), see_about: true }
}

proof fn lemma_trim_end_ws_shorter(s: Seq<char>)
    ensures
        trim_end_ws(s).len() <= s.len(),
    decreases s.len(),
{
    if s.len() > 0 && is_ws(s.last()) {
        lemma_trim_end_ws_shorter(s.drop_last());
    }
}

/// A header blurb fits its width: the text, with the hint when it is shown,
/// takes at most `width` characters (for a width of at least 13, the room
/// the hint and the ellipsis need).
pub proof fn lemma_blurb_fits(description: Seq<char>, width: usize)
    requires
        width >= 13,
    ensures
        ({
            let (text, hint) = spec_header_blurb(description, width);
            text.len() + (if hint { see_about_hint().len() } else { 0 }) <= width
        }),
{
    let normalized = join_words(words(description));
    if normalized.len() > width {
        lemma_trim_end_ws_shorter(normalized.take(width - 13));
    }
}

/// Emphasis of a piece of the breadcrumb.
#[derive(Debug, Clone, Copy, PartialEq, Eq, Structural)]
pub enum Emphasis {
    Bold,
    Dim,
}

/// The separator between breadcrumb titles, ` › `.
pub open spec fn breadcrumb_separator() -> Seq<char> {
    seq![' ', '\u{203a}', ' ']
}

/// The breadcrumb over stacked pages: the titles in order, dimmed but for
/// the last (the current page), which is bold, with a dimmed ` › ` between
/// two titles.
pub open spec fn spec_breadcrumb(titles: Seq<Seq<char>>) -> Seq<(Seq<char>, Emphasis)> {
    let n = titles.len();
    Seq::new(
        if n == 0 { 0 } else { (2 * n - 1) as nat },
        |k: int|
            if k % 2 == 0 {
                (titles[k / 2], if k / 2 == n - 1 { Emphasis::Bold } else { Emphasis::Dim })
            } else {
                (breadcrumb_separator(), Emphasis::Dim)
            },
    )
}

/// The pieces of the breadcrumb over stacked pages with the given titles.
pub fn breadcrumb_line(titles: &Vec<String>) -> (r: Vec<(String, Emphasis)>)
    ensures
        r.len() == spec_breadcrumb(titles@.map_values(|t: String| t@)).len(),
        forall|k: int| 0 <= k < r.len() ==> (#[trigger] r[k].0@, r[k].1) == spec_breadcrumb(
            titles@.map_values(|t: String| t@),
        )[k],
{
    let ghost ts = titles@.map_values(|t: String| t@);
    let ghost spec = spec_breadcrumb(ts);
    let n = titles.len();
    let mut r: Vec<(String, Emphasis)> = Vec::new();
    let mut i: usize = 0;
    while i < n
        invariant
            n == titles.len(),
            i <= n,
            ts == titles@.map_values(|t: String| t@),
            spec == spec_breadcrumb(ts),
            r.len() == (if i == 0 { 0 } else { 2 * i - 1 }),
            forall|k: int| 0 <= k < r.len() ==> (#[trigger] r[k].0@, r[k].1) == spec[k],
        decreases n - i,
    {
        if i > 0 {
            let mut sep: Vec<char> = Vec::new();
            sep.push(' ');
            sep.push('\u{203a}');
            sep.push(' ');
            assert(sep@ =~= breadcrumb_separator());
            assert((2 * i - 1) % 2 == 1);
            r.push((string_from(&sep), Emphasis::Dim));
        }
        let emphasis = if i + 1 == n { Emphasis::Bold } else { Emphasis::Dim };
        assert((2 * i) % 2 == 0 && (2 * i) / 2 == i);
        r.push((titles[i].clone(), emphasis));
        i = i + 1;
    }
    r
}

} // verus!
