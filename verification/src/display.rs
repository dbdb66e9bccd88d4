//! What the interface displays, computed from plain values: durations,
//! status texts, widths of sidebars and pop-ups, metadata lines, the
//! places of notifications and the big-text layout of the focus screen.

use vstd::prelude::*;
use crate::focus::{fit_big_text, spec_fit_big_text, CHAR_HEIGHT, CHAR_WIDTH};
use crate::models::Status;
use crate::overlays::{dot_separator, join_dotted};
use crate::text::{str_eq, chars_of, decimal, push_chars, push_decimal, push_str, push_two_digits, string_from, two_digits};

verus! {

/// `mm:ss` for a number of seconds (minutes may take more digits).
pub open spec fn spec_format_seconds(seconds: u32) -> Seq<char> {
    two_digits((seconds / 60) as nat) + seq![':'] + two_digits((seconds % 60) as nat)
}

/// `mm:ss` for a number of seconds.
pub fn format_seconds(seconds: u32) -> (s: String)
    ensures
        s@ == spec_format_seconds(seconds),
{
    let mut v: Vec<char> = Vec::new();
    push_two_digits(&mut v, (seconds / 60) as u64);
    v.push(':');
    push_two_digits(&mut v, (seconds % 60) as u64);
    assert(v@ =~= spec_format_seconds(seconds));
    string_from(&v)
}

/// `mm:ss` for a number of milliseconds (whole seconds).
pub fn format_mseconds(mseconds: u32) -> (s: String)
    ensures
        s@ == spec_format_seconds(mseconds / 1000),
{
    format_seconds(mseconds / 1000)
}

/// `h:mm:ss` for a duration of an hour or more, `mm:ss` below.
pub open spec fn spec_format_duration(secs: u32) -> Seq<char> {
    let hours = secs / 3600;
    let minutes = (secs % 3600) / 60;
    let seconds = secs % 60;
    if hours > 0 {
        decimal(hours as nat) + seq![':'] + two_digits(minutes as nat) + seq![':'] + two_digits(seconds as nat)
    } else {
        two_digits(minutes as nat) + seq![':'] + two_digits(seconds as nat)
    }
}

/// `h:mm:ss` for a duration of an hour or more, `mm:ss` below.
pub fn format_duration(secs: u32) -> (s: String)
    ensures
        s@ == spec_format_duration(secs),
{
    let hours = secs / 3600;
    let minutes = (secs % 3600) / 60;
    let seconds = secs % 60;
    let mut v: Vec<char> = Vec::new();
    if hours > 0 {
        push_decimal(&mut v, hours as u64);
        v.push(':');
    }
    push_two_digits(&mut v, minutes as u64);
    v.push(':');
    push_two_digits(&mut v, seconds as u64);
    assert(v@ =~= spec_format_duration(secs));
    string_from(&v)
}

/// The status text of the player.
pub open spec fn status_text(state: Status) -> &'static str {
    match state {
        Status::Playing => "Playing \u{23f5}",
        Status::Paused => "Paused \u{23f8}",
        Status::Buffering => "Buffering",
    }
}

/// The status text of the player.
pub fn get_status(state: Status) -> (s: &'static str)
    ensures
        s == status_text(state),
{
    match state {
        Status::Playing => "Playing \u{23f5}",
        Status::Paused => "Paused \u{23f8}",
        Status::Buffering => "Buffering",
    }
}

/// Length of a text in bytes of UTF-8, as `str::len` counts it.
pub open spec fn byte_len(s: &str) -> nat {
    s.len() as nat
}

/// The longest byte length among the texts (0 for none).
pub open spec fn max_byte_len(tabs: Seq<&str>) -> nat
    decreases tabs.len(),
{
    if tabs.len() == 0 {
        0
    } else {
        let m = max_byte_len(tabs.drop_last());
        let l = byte_len(tabs.last());
        if l > m { l } else { m }
    }
}

/// The width of a sidebar: its longest label (0 when that is longer than
/// a `u16` holds) plus 3 for the border and padding, saturating.
pub open spec fn spec_sidebar_width(tabs: Seq<&str>) -> u16 {
    let m = max_byte_len(tabs);
    let w: int = if m <= u16::MAX { m as int } else { 0 };
    if w + 3 > u16::MAX { u16::MAX } else { (w + 3) as u16 }
}

/// The width of a sidebar with the given labels.
pub fn sidebar_width(tabs: &Vec<&str>) -> (w: u16)
    ensures
        w == spec_sidebar_width(tabs@),
{
    let mut m: usize = 0;
    let mut i: usize = 0;
    while i < tabs.len()
        invariant
            i <= tabs.len(),
            m == max_byte_len(tabs@.take(i as int)),
        decreases tabs.len() - i,
    {
        assert(tabs@.take(i + 1).drop_last() =~= tabs@.take(i as int));
        assert(tabs@.take(i + 1).last() == tabs@[i as int]);
        let l = tabs[i].len();
        if l > m {
            m = l;
        }
        i = i + 1;
    }
    assert(tabs@.take(tabs.len() as int) =~= tabs@);
    let w: u16 = if m <= u16::MAX as usize { m as u16 } else { 0 };
    w.saturating_add(3)
}

/// A mark shown after a title.
#[derive(Debug, Clone, Copy, PartialEq, Eq, Structural)]
pub enum Marker {
    Favorite,
    Explicit,
    HiRes,
    Owned,
}

/// The symbol of a mark (a Nerd Font glyph): a heart, an explicit sign,
/// a hi-res sign or a person.
pub open spec fn marker_glyph(m: Marker) -> &'static str {
    match m {
        Marker::Favorite => "\u{f004}",
        Marker::Explicit => "\u{f0b0c}",
        Marker::HiRes => "\u{f0435}",
        Marker::Owned => "\u{f007}",
    }
}

impl Marker {
    /// The symbol of the mark (a Nerd Font glyph).
    pub fn glyph(&self) -> (g: &'static str)
        ensures
            g == marker_glyph(*self),
    {
        match self {
            Marker::Favorite => "\u{f004}",
            Marker::Explicit => "\u{f0b0c}",
            Marker::HiRes => "\u{f0435}",
            Marker::Owned => "\u{f007}",
        }
    }
}

/// The marks after a title: favorite, explicit, hi-res, each when it
/// applies, in that order.
pub open spec fn spec_title_markers(explicit: bool, hires_available: bool, is_favorite: bool) -> Seq<Marker> {
    let a: Seq<Marker> = if is_favorite { seq![Marker::Favorite] } else { seq![] };
    let b: Seq<Marker> = if explicit { a.push(Marker::Explicit) } else { a };
    if hires_available { b.push(Marker::HiRes) } else { b }
}

/// The marks after a title.
pub fn title_markers(explicit: bool, hires_available: bool, is_favorite: bool) -> (v: Vec<Marker>)
    ensures
        v@ == spec_title_markers(explicit, hires_available, is_favorite),
{
    let mut v: Vec<Marker> = Vec::new();
    if is_favorite {
        v.push(Marker::Favorite);
    }
    if explicit {
        v.push(Marker::Explicit);
    }
    if hires_available {
        v.push(Marker::HiRes);
    }
    assert(v@ =~= spec_title_markers(explicit, hires_available, is_favorite));
    v
}

/// The metadata line of an album page: the release year when known, the
/// number of tracks, the duration and the number of awards when there
/// are any, joined by ` · `.
pub open spec fn spec_album_metadata(release_year: u32, total_tracks: u32, duration_seconds: u32, award_count: usize) -> Seq<char> {
    let year: Seq<Seq<char>> = if release_year > 0 { seq![decimal(release_year as nat)] } else { seq![] };
    let awards: Seq<Seq<char>> = if award_count > 0 {
        seq![decimal(award_count as nat) + " award"@ + (if award_count == 1 { seq![] } else { seq!['s'] })]
    } else {
        seq![]
    };
    join_dotted(year + seq![decimal(total_tracks as nat) + " tracks"@, spec_format_seconds(duration_seconds)] + awards)
}

/// The metadata line of an album page.
pub fn album_metadata(release_year: u32, total_tracks: u32, duration_seconds: u32, award_count: usize) -> (s: String)
    ensures
        s@ == spec_album_metadata(release_year, total_tracks, duration_seconds, award_count),
{
    let mut v: Vec<char> = Vec::new();
    let ghost mut parts: Seq<Seq<char>> = seq![];
    if release_year > 0 {
        push_decimal(&mut v, release_year as u64);
        proof { parts = seq![decimal(release_year as nat)]; }
        assert(v@ =~= join_dotted(parts));
    }
    let mut tracks: Vec<char> = Vec::new();
    push_decimal(&mut tracks, total_tracks as u64);
    push_str(&mut tracks, " tracks");
    assert(tracks@ =~= decimal(total_tracks as nat) + " tracks"@);
    if release_year > 0 {
        push_str(&mut v, " \u{b7} ");
        proof {
            reveal_strlit(" \u{b7} ");
            assert(" \u{b7} "@ =~= dot_separator());
        }
    }
    push_chars(&mut v, &tracks);
    proof {
        let p = parts.push(tracks@);
        assert(p.drop_last() =~= parts);
        if parts.len() > 0 {
            assert(v@ =~= join_dotted(p.drop_last()) + dot_separator() + p.last());
        } else {
            assert(v@ =~= p[0]);
        }
        parts = p;
    }
    let d = format_seconds(duration_seconds);
    push_str(&mut v, " \u{b7} ");
    proof {
            reveal_strlit(" \u{b7} ");
            assert(" \u{b7} "@ =~= dot_separator());
        }
    let dc = chars_of(d.as_str());
    push_chars(&mut v, &dc);
    proof {
        let p = parts.push(dc@);
        assert(p.drop_last() =~= parts);
        assert(v@ =~= join_dotted(p.drop_last()) + dot_separator() + p.last());
        parts = p;
    }
    if award_count > 0 {
        let mut a: Vec<char> = Vec::new();
        push_decimal(&mut a, award_count as u64);
        push_str(&mut a, " award");
        if award_count != 1 {
            a.push('s');
        }
        assert(a@ =~= decimal(award_count as nat) + " award"@ + (if award_count == 1 { seq![] } else { seq!['s'] }));
        push_str(&mut v, " \u{b7} ");
        proof {
            reveal_strlit(" \u{b7} ");
            assert(" \u{b7} "@ =~= dot_separator());
        }
        push_chars(&mut v, &a);
        proof {
            let p = parts.push(a@);
            assert(p.drop_last() =~= parts);
            assert(v@ =~= join_dotted(p.drop_last()) + dot_separator() + p.last());
            parts = p;
        }
    }
    proof {
        let year: Seq<Seq<char>> = if release_year > 0 { seq![decimal(release_year as nat)] } else { seq![] };
        let awards: Seq<Seq<char>> = if award_count > 0 {
            seq![decimal(award_count as nat) + " award"@ + (if award_count == 1 { seq![] } else { seq!['s'] })]
        } else {
            seq![]
        };
        assert(parts =~= year + seq![decimal(total_tracks as nat) + " tracks"@, spec_format_seconds(duration_seconds)] + awards);
    }
    string_from(&v)
}

/// A rectangle of terminal cells.
#[derive(Debug, Clone, Copy, PartialEq, Eq, Structural)]
pub struct Area {
    pub x: u16,
    pub y: u16,
    pub width: u16,
    pub height: u16,
}

/// `a + b` saturating at `u16::MAX`.
pub open spec fn sat_add16(a: int, b: int) -> u16 {
    if a + b > u16::MAX { u16::MAX } else { (a + b) as u16 }
}

/// Width of a notification box: 60 cells, or the whole area when narrower.
pub open spec fn notification_box_width(area: Area) -> u16 {
    if area.width < 60 { area.width } else { 60 }
}

/// Width of the text inside a notification box (1 at least).
pub open spec fn notification_inner_width(area: Area) -> u16 {
    let w = notification_box_width(area);
    if w <= 2 { 1 } else { (w - 2) as u16 }
}

/// Height of the box of a message of `len` characters: its lines at the
/// inner width plus the two borders (a message longer than a `u16` holds
/// counts as empty).
pub open spec fn notification_box_height(area: Area, len: usize) -> u16 {
    let mw: int = if len <= u16::MAX { len as int } else { 0 };
    let inner = notification_inner_width(area) as int;
    sat_add16((mw + inner - 1) / inner, 2)
}

/// The boxes of the notifications from the `k`-th newest on, stacked
/// downwards from row `y` at the right edge of `area`, as long as they fit
/// above its bottom.
pub open spec fn notification_stack(area: Area, lens: Seq<usize>, k: nat, y: u16) -> Seq<Area>
    decreases lens.len() - k,
{
    if k >= lens.len() {
        seq![]
    } else {
        let h = notification_box_height(area, lens[lens.len() - 1 - k]);
        let bottom = sat_add16(area.y as int, area.height as int);
        if y + h > u16::MAX || y + h > bottom {
            seq![]
        } else {
            let w = notification_box_width(area);
            let x = sat_add16(area.x as int, area.width - w);
            seq![Area { x, y, width: w, height: h }] + notification_stack(area, lens, k + 1, (y + h) as u16)
        }
    }
}

/// Where the notifications go, for messages of the given lengths in
/// characters (oldest first): the newest at the top right of `area`, each
/// older one below the previous, until one would reach past the bottom.
pub fn notification_layout(area: Area, message_lengths: &Vec<usize>) -> (r: Vec<Area>)
    ensures
        r@ == notification_stack(area, message_lengths@, 0, area.y),
{
    let box_width: u16 = if area.width < 60 { area.width } else { 60 };
    let inner_width: u16 = if box_width <= 2 { 1 } else { box_width - 2 };
    let bottom = area.y.saturating_add(area.height);
    let x = area.x.saturating_add(area.width - box_width);
    let mut y = area.y;
    let mut r: Vec<Area> = Vec::new();
    let n = message_lengths.len();
    let mut k: usize = 0;
    let mut stopped = false;
    while k < n && !stopped
        invariant
            n == message_lengths.len(),
            k <= n,
            stopped ==> notification_stack(area, message_lengths@, k as nat, y) == Seq::<Area>::empty(),
            box_width == notification_box_width(area),
            inner_width == notification_inner_width(area),
            inner_width >= 1,
            bottom == sat_add16(area.y as int, area.height as int),
            x == sat_add16(area.x as int, area.width - box_width),
            r@ + notification_stack(area, message_lengths@, k as nat, y) == notification_stack(area, message_lengths@, 0, area.y),
        decreases n - k + (if stopped { 0int } else { 1int }),
    {
        let len = message_lengths[n - 1 - k];
        let mw: u16 = if len <= u16::MAX as usize { len as u16 } else { 0 };
        let lines: u16 = if mw == 0 { 0 } else { (mw - 1) / inner_width + 1 };
        assert(lines as int == (mw + inner_width - 1) / (inner_width as int)) by (nonlinear_arith)
            requires
                inner_width >= 1,
                lines == (if mw == 0 { 0 } else { (mw - 1) / (inner_width as int) + 1 }),
        ;
        let h = lines.saturating_add(2);
        assert(h == notification_box_height(area, message_lengths@[n - 1 - k]));
        if y > u16::MAX - h || y + h > bottom {
            stopped = true;
        } else {
            let next_y = y + h;
            let ghost before = r@;
            r.push(Area { x, y, width: box_width, height: h });
            assert(before + notification_stack(area, message_lengths@, k as nat, y) =~= r@ + notification_stack(area, message_lengths@, (k + 1) as nat, next_y));
            y = next_y;
            k = k + 1;
        }
    }
    assert(r@ =~= notification_stack(area, message_lengths@, 0, area.y));
    r
}

/// Title of the Connect device list.
pub open spec fn connect_title_len() -> nat {
    28
}

/// The longest device line in bytes, with ` (active)` after the active device.
pub open spec fn max_device_width(devices: Seq<String>, active: Seq<char>) -> nat
    decreases devices.len(),
{
    if devices.len() == 0 {
        0
    } else {
        let m = max_device_width(devices.drop_last(), active);
        let d = devices.last();
        let bytes = (vstd::utf8::encode_utf8(d@).len() as usize) as nat;
        let w = bytes + (if d@ == active { 9nat } else { 0nat });
        let w2: nat = if w > usize::MAX { usize::MAX as nat } else { w as nat };
        if w2 > m { w2 } else { m }
    }
}

/// The size of the Connect device list: six cells more than the widest
/// of its title and its lines, two more than the number of devices, each
/// capped by the area.
pub open spec fn spec_connect_popup_size(devices: Seq<String>, active: Seq<char>, area_width: u16, area_height: u16) -> (u16, u16) {
    let content = max_device_width(devices, active);
    let wide = if content > connect_title_len() { content } else { connect_title_len() };
    let w: int = if wide + 6 > usize::MAX { usize::MAX as int } else { (wide + 6) as int };
    let w16: int = if w > u16::MAX { u16::MAX as int } else { w };
    let h: int = if devices.len() + 2 > usize::MAX { usize::MAX as int } else { (devices.len() + 2) as int };
    let h16: int = if h > u16::MAX { u16::MAX as int } else { h };
    (
        (if w16 < area_width { w16 } else { area_width as int }) as u16,
        (if h16 < area_height { h16 } else { area_height as int }) as u16,
    )
}

/// The size of the Connect device list in an area of the given size.
pub fn connect_popup_size(devices: &Vec<String>, active: &str, area_width: u16, area_height: u16) -> (r: (u16, u16))
    ensures
        r == spec_connect_popup_size(devices@, active@, area_width, area_height),
{
    let mut content: usize = 0;
    let mut i: usize = 0;
    while i < devices.len()
        invariant
            i <= devices.len(),
            content == max_device_width(devices@.take(i as int), active@),
        decreases devices.len() - i,
    {
        assert(devices@.take(i + 1).drop_last() =~= devices@.take(i as int));
        assert(devices@.take(i + 1).last() == devices@[i as int]);
        let d = devices[i].as_str();
        let extra: usize = if str_eq(d, active) { 9 } else { 0 };
        let w = d.len().saturating_add(extra);
        if w > content {
            content = w;
        }
        i = i + 1;
    }
    assert(devices@.take(devices.len() as int) =~= devices@);
    let wide = if content > 28 { content } else { 28 };
    let w = wide.saturating_add(6);
    let h = devices.len().saturating_add(2);
    let w16: u16 = if w > u16::MAX as usize { u16::MAX } else { w as u16 };
    let h16: u16 = if h > u16::MAX as usize { u16::MAX } else { h as u16 };
    (if w16 < area_width { w16 } else { area_width }, if h16 < area_height { h16 } else { area_height })
}

/// The big-text layout of the focus screen in an area of `width` by
/// `height` cells.
pub struct FocusPlan {
    /// The lines of the list's title (album, playlist or artist).
    pub entity_lines: Vec<String>,
    /// The lines of the track title.
    pub title_lines: Vec<String>,
    /// Rows taken by the list's title.
    pub entity_height: u16,
    /// Rows taken by the track title.
    pub title_height: u16,
    /// Empty rows above the track title.
    pub top_spacer: u16,
}

/// `a - b`, or 0 when `b` is larger.
pub open spec fn sat_sub16(a: int, b: int) -> u16 {
    if a < b { 0 } else { (a - b) as u16 }
}

/// Rows taken by `n` lines of big text (saturating; 0 for more lines than
/// a `u16` counts).
pub open spec fn big_text_height(n: nat) -> u16 {
    let m: int = if n <= u16::MAX { n as int } else { 0 };
    if m * 2 > u16::MAX { u16::MAX } else { (m * 2) as u16 }
}

fn lines_height(n: usize) -> (h: u16)
    ensures
        h == big_text_height(n as nat),
{
    let m: u16 = if n <= u16::MAX as usize { n as u16 } else { 0 };
    if m > u16::MAX / CHAR_HEIGHT { u16::MAX } else { m * CHAR_HEIGHT }
}

/// The focus screen layout: the list's title fitted in a quarter of the
/// height; the track title fitted in what is left after it and seven
/// rows; and the space above the track title that centers the two.
pub fn focus_plan(entity: Option<&str>, title: &str, width: u16, height: u16) -> (p: FocusPlan)
    ensures
        ({
            let el = match entity { Some(e) => spec_fit_big_text(e@, width, height / 4), None => seq![] };
            let eh = big_text_height(el.len());
            let tl = spec_fit_big_text(title@, width, sat_sub16(height as int, sat_add16(eh as int, 7) as int));
            let th = big_text_height(tl.len());
            &&& p.entity_lines@.len() == el.len()
            &&& forall|i: int| 0 <= i < el.len() ==> #[trigger] p.entity_lines@[i]@ == el[i]
            &&& p.title_lines@.len() == tl.len()
            &&& forall|i: int| 0 <= i < tl.len() ==> #[trigger] p.title_lines@[i]@ == tl[i]
            &&& p.entity_height == eh
            &&& p.title_height == th
            &&& p.top_spacer == sat_sub16(sat_sub16((height / 2) as int, sat_add16(eh as int, 3) as int) as int, (th / 2) as int)
        }),
{
    let entity_lines = match entity {
        Some(e) => fit_big_text(e, width, height / 4),
        None => Vec::new(),
    };
    let entity_height = lines_height(entity_lines.len());
    let title_budget = height.saturating_sub(entity_height.saturating_add(7));
    let title_lines = fit_big_text(title, width, title_budget);
    let title_height = lines_height(title_lines.len());
    let top_spacer = (height / 2).saturating_sub(entity_height.saturating_add(3)).saturating_sub(title_height / 2);
    FocusPlan { entity_lines, title_lines, entity_height, title_height, top_spacer }
}

/// The width of a block of big-text lines: its longest line times the
/// width of a big character (saturating), at most `max_width`.
pub open spec fn spec_big_text_width(lines: Seq<Seq<char>>, max_width: u16) -> u16
    decreases lines.len(),
{
    let l: int = max_line_len(lines) as int;
    let w: int = if l * 4 > u16::MAX { u16::MAX as int } else { l * 4 };
    (if w < max_width { w } else { max_width as int }) as u16
}

/// The length of a line as a `u16`, 0 where it does not fit one.
pub open spec fn line_len_u16(line: Seq<char>) -> nat {
    if line.len() <= u16::MAX { line.len() } else { 0 }
}

/// The largest of the lines' lengths, each taken by [`line_len_u16`] (0 for
/// no lines).
pub open spec fn max_line_len(lines: Seq<Seq<char>>) -> nat
    decreases lines.len(),
{
    if lines.len() == 0 {
        0
    } else {
        let m = max_line_len(lines.drop_last());
        if line_len_u16(lines.last()) > m { line_len_u16(lines.last()) } else { m }
    }
}

/// The width of a block of big-text lines, at most `max_width`.
pub fn big_text_width(lines: &Vec<String>, max_width: u16) -> (w: u16)
    ensures
        w == spec_big_text_width(lines@.map_values(|l: String| l@), max_width),
{
    let ghost ls = lines@.map_values(|l: String| l@);
    let mut m: u16 = 0;
    let mut i: usize = 0;
    while i < lines.len()
        invariant
            i <= lines.len(),
            ls == lines@.map_values(|l: String| l@),
            m == max_line_len(ls.take(i as int)),
        decreases lines.len() - i,
    {
        assert(ls.take(i + 1).drop_last() =~= ls.take(i as int));
        let n = chars_of(lines[i].as_str()).len();
        let n16: u16 = if n <= u16::MAX as usize { n as u16 } else { 0 };
        if n16 > m {
            m = n16;
        }
        i = i + 1;
    }
    assert(ls.take(lines.len() as int) =~= ls);
    let l: u16 = m;
    let w: u16 = if l > u16::MAX / CHAR_WIDTH { u16::MAX } else { l * CHAR_WIDTH };
    if w < max_width { w } else { max_width }
}

/// `<position + 1> of <length>`, the place of the playing track in its
/// list (the position counts from 0; the sum saturates).
pub open spec fn spec_position_text(position: usize, length: usize) -> Seq<char> {
    let shown: nat = if position == usize::MAX { usize::MAX as nat } else { (position + 1) as nat };
    decimal(shown) + " of "@ + decimal(length as nat)
}

/// The place of the playing track in its list.
pub fn position_text(position: usize, length: usize) -> (s: String)
    ensures
        s@ == spec_position_text(position, length),
{
    let shown = position.saturating_add(1);
    let mut v: Vec<char> = Vec::new();
    push_decimal(&mut v, shown as u64);
    push_str(&mut v, " of ");
    push_decimal(&mut v, length as u64);
    assert(v@ =~= spec_position_text(position, length));
    string_from(&v)
}

} // verus!
