//! Where downloaded tracks are kept: the audio cache directory and the file
//! name of each track in it.

use vstd::prelude::*;
use crate::models::Track;
use vstd::utf8::encode_utf8;
use crate::text::{chars_of, contains_chars, decimal, is_cc, is_control, push_chars, push_decimal, string_from};

verus! {

/// Longest file name component, in characters.
pub const MAX_NAME_CHARS: usize = 100;

/// `"unknown"`, the name used for a missing or empty value.
pub open spec fn unknown_name() -> Seq<char> {
    seq!['u', 'n', 'k', 'n', 'o', 'w', 'n']
}

fn push_unknown(out: &mut Vec<char>)
    ensures
        final(out)@ == old(out)@ + unknown_name(),
{
    out.push('u');
    out.push('n');
    out.push('k');
    out.push('n');
    out.push('o');
    out.push('w');
    out.push('n');
    assert(final(out)@ =~= old(out)@ + unknown_name());
}

/// Characters that cannot stand in a file name on common file systems.
pub open spec fn is_reserved(c: char) -> bool {
    c == '/' || c == '\\' || c == ':' || c == '*' || c == '?' || c == '"' || c == '<' || c == '>'
        || c == '|' || c == '\0'
}

/// A reserved or control character becomes `_`; any other stays.
pub open spec fn replace_unsafe(c: char) -> char {
    if is_reserved(c) || is_cc(c) { '_' } else { c }
}

/// Characters trimmed from both ends of a name.
pub open spec fn is_trimmed(c: char) -> bool {
    c == ' ' || c == '.'
}

/// `s` without its leading spaces and dots.
pub open spec fn trim_start(s: Seq<char>) -> Seq<char>
    decreases s.len(),
{
    if s.len() > 0 && is_trimmed(s[0]) { trim_start(s.drop_first()) } else { s }
}

/// `s` without its trailing spaces and dots.
pub open spec fn trim_end(s: Seq<char>) -> Seq<char>
    decreases s.len(),
{
    if s.len() > 0 && is_trimmed(s.last()) { trim_end(s.drop_last()) } else { s }
}

/// Spaces become `_`, and each run of `_` shrinks to one.
pub open spec fn collapse_underscores(s: Seq<char>) -> Seq<char>
    decreases s.len(),
{
    if s.len() == 0 {
        seq![]
    } else {
        let r = collapse_underscores(s.drop_last());
        let c = if s.last() == ' ' { '_' } else { s.last() };
        if c == '_' && r.len() > 0 && r.last() == '_' { r } else { r.push(c) }
    }
}

/// A name made safe for use as one component of a path: reserved and
/// control characters replaced by `_`, spaces and dots trimmed from both
/// ends, spaces turned into `_` and runs of `_` collapsed, `"unknown"`
/// when nothing is left, and at most 100 characters kept.
pub open spec fn spec_sanitize_name(input: Seq<char>) -> Seq<char> {
    let replaced = input.map_values(|c: char| replace_unsafe(c));
    let collapsed = collapse_underscores(trim_end(trim_start(replaced)));
    if collapsed.len() == 0 {
        unknown_name()
    } else if collapsed.len() > MAX_NAME_CHARS {
        collapsed.take(MAX_NAME_CHARS as int)
    } else {
        collapsed
    }
}

fn sanitize_chars(input: &Vec<char>) -> (r: Vec<char>)
    ensures
        r@ == spec_sanitize_name(input@),
{
    // replace reserved and control characters
    let mut replaced: Vec<char> = Vec::new();
    let mut i: usize = 0;
    while i < input.len()
        invariant
            i <= input.len(),
            replaced@ == input@.take(i as int).map_values(|c: char| replace_unsafe(c)),
        decreases input.len() - i,
    {
        let c = input[i];
        let c2 = if c == '/' || c == '\\' || c == ':' || c == '*' || c == '?' || c == '"' || c
            == '<' || c == '>' || c == '|' || c == '\0' || is_control(c) {
            '_'
        } else {
            c
        };
        replaced.push(c2);
        i = i + 1;
        assert(replaced@ =~= input@.take(i as int).map_values(|c: char| replace_unsafe(c)));
    }
    assert(input@.take(input.len() as int) =~= input@);
    // trim spaces and dots at both ends
    let mut lo: usize = 0;
    assert(replaced@.subrange(0, replaced.len() as int) =~= replaced@);
    while lo < replaced.len() && (replaced[lo] == ' ' || replaced[lo] == '.')
        invariant
            lo <= replaced.len(),
            trim_start(replaced@.subrange(lo as int, replaced.len() as int)) == trim_start(replaced@),
        decreases replaced.len() - lo,
    {
        assert(replaced@.subrange(lo as int, replaced.len() as int).drop_first()
            =~= replaced@.subrange(lo + 1, replaced.len() as int));
        lo = lo + 1;
    }
    assert(replaced@.subrange(0, replaced.len() as int) =~= replaced@);
    let ghost started = replaced@.subrange(lo as int, replaced.len() as int);
    assert(trim_start(started) == started);
    let mut hi: usize = replaced.len();
    while hi > lo && (replaced[hi - 1] == ' ' || replaced[hi - 1] == '.')
        invariant
            lo <= hi <= replaced.len(),
            started == replaced@.subrange(lo as int, replaced.len() as int),
            trim_end(replaced@.subrange(lo as int, hi as int)) == trim_end(started),
        decreases hi,
    {
        assert(replaced@.subrange(lo as int, hi as int).drop_last() =~= replaced@.subrange(
            lo as int,
            hi - 1,
        ));
        hi = hi - 1;
    }
    let ghost trimmed = replaced@.subrange(lo as int, hi as int);
    assert(trim_end(trimmed) == trimmed);
    // collapse runs of underscores
    let mut out: Vec<char> = Vec::new();
    let mut prev_underscore = false;
    let mut j: usize = lo;
    while j < hi
        invariant
            lo <= j <= hi <= replaced.len(),
            trimmed == replaced@.subrange(lo as int, hi as int),
            out@ == collapse_underscores(trimmed.take(j - lo)),
            prev_underscore == (out@.len() > 0 && out@.last() == '_'),
        decreases hi - j,
    {
        let ch = replaced[j];
        assert(trimmed.take(j + 1 - lo).drop_last() =~= trimmed.take(j - lo));
        assert(trimmed.take(j + 1 - lo).last() == ch);
        let ch2 = if ch == ' ' { '_' } else { ch };
        if ch2 == '_' {
            if !prev_underscore {
                prev_underscore = true;
                out.push(ch2);
            }
        } else {
            prev_underscore = false;
            out.push(ch2);
        }
        j = j + 1;
    }
    assert(trimmed.take(hi - lo) =~= trimmed);
    if out.len() == 0 {
        let mut u: Vec<char> = Vec::new();
        push_unknown(&mut u);
        assert(u@ =~= unknown_name());
        return u;
    }
    if out.len() > MAX_NAME_CHARS {
        out.truncate(MAX_NAME_CHARS);
    }
    out
}

/// A name made safe for use as one component of a path.
pub fn sanitize_name(input: &str) -> (r: String)
    ensures
        r@ == spec_sanitize_name(input@),
{
    let cs = chars_of(input);
    let r = sanitize_chars(&cs);
    string_from(&r)
}

/// Whether `c` may stand in a sanitized name: it is not reserved, not a
/// control character and not a space.
pub open spec fn name_safe(c: char) -> bool {
    !is_reserved(c) && !is_cc(c) && c != ' '
}

proof fn lemma_collapse_safe(s: Seq<char>)
    requires
        forall|i: int| 0 <= i < s.len() ==> !is_reserved(#[trigger] s[i]) && !is_cc(s[i]),
    ensures
        forall|i: int| 0 <= i < collapse_underscores(s).len() ==> name_safe(#[trigger] collapse_underscores(s)[i]),
        forall|i: int| 0 <= i < collapse_underscores(s).len() - 1 ==> !(#[trigger] collapse_underscores(s)[i] == '_' && collapse_underscores(s)[i + 1] == '_'),
        s.len() > 0 ==> collapse_underscores(s).len() > 0,
    decreases s.len(),
{
    if s.len() > 0 {
        let r = collapse_underscores(s.drop_last());
        assert forall|i: int| 0 <= i < s.drop_last().len() implies !is_reserved(#[trigger] s.drop_last()[i]) && !is_cc(s.drop_last()[i]) by {
            assert(s.drop_last()[i] == s[i]);
        }
        lemma_collapse_safe(s.drop_last());
        assert(!is_reserved(s[s.len() - 1]) && !is_cc(s[s.len() - 1]));
        let c = if s.last() == ' ' { '_' } else { s.last() };
        let out = collapse_underscores(s);
        if !(c == '_' && r.len() > 0 && r.last() == '_') {
            assert(out == r.push(c));
            assert forall|i: int| 0 <= i < out.len() implies name_safe(#[trigger] out[i]) by {
                if i < r.len() {
                    assert(out[i] == r[i]);
                }
            }
            assert forall|i: int| 0 <= i < out.len() - 1 implies !(#[trigger] out[i] == '_' && out[i + 1] == '_') by {
                if i < r.len() - 1 {
                    assert(out[i] == r[i] && out[i + 1] == r[i + 1]);
                } else {
                    assert(out[i] == r[i]);
                }
            }
        }
    }
}

proof fn lemma_trim_start_sub(s: Seq<char>)
    ensures
        exists|k: int| 0 <= k <= s.len() && trim_start(s) == s.subrange(k, s.len() as int),
    decreases s.len(),
{
    if s.len() > 0 && is_trimmed(s[0]) {
        lemma_trim_start_sub(s.drop_first());
        let k = choose|k: int| 0 <= k <= s.drop_first().len() && trim_start(s.drop_first()) == s.drop_first().subrange(k, s.drop_first().len() as int);
        assert(s.drop_first().subrange(k, s.drop_first().len() as int) =~= s.subrange(k + 1, s.len() as int));
    } else {
        assert(s.subrange(0, s.len() as int) =~= s);
    }
}

proof fn lemma_trim_end_sub(s: Seq<char>)
    ensures
        exists|k: int| 0 <= k <= s.len() && trim_end(s) == s.subrange(0, k),
    decreases s.len(),
{
    if s.len() > 0 && is_trimmed(s.last()) {
        lemma_trim_end_sub(s.drop_last());
        let k = choose|k: int| 0 <= k <= s.drop_last().len() && trim_end(s.drop_last()) == s.drop_last().subrange(0, k);
        assert(s.drop_last().subrange(0, k) =~= s.subrange(0, k));
    } else {
        assert(s.subrange(0, s.len() as int) =~= s);
    }
}

/// A sanitized name is never empty, has at most 100 characters, holds no
/// reserved or control character and no space, and never two `_` in a row.
pub proof fn lemma_sanitized_name_is_safe(input: Seq<char>)
    ensures
        0 < spec_sanitize_name(input).len() <= MAX_NAME_CHARS,
        forall|i: int| 0 <= i < spec_sanitize_name(input).len() ==> name_safe(#[trigger] spec_sanitize_name(input)[i]),
        forall|i: int| 0 <= i < spec_sanitize_name(input).len() - 1 ==> !(#[trigger] spec_sanitize_name(input)[i] == '_' && spec_sanitize_name(input)[i + 1] == '_'),
{
    let replaced = input.map_values(|c: char| replace_unsafe(c));
    lemma_trim_start_sub(replaced);
    let ts = trim_start(replaced);
    lemma_trim_end_sub(ts);
    let t = trim_end(ts);
    assert forall|i: int| 0 <= i < t.len() implies !is_reserved(#[trigger] t[i]) && !is_cc(t[i]) by {
        let k1 = choose|k: int| 0 <= k <= replaced.len() && ts == replaced.subrange(k, replaced.len() as int);
        let k2 = choose|k: int| 0 <= k <= ts.len() && t == ts.subrange(0, k);
        assert(t[i] == ts[i]);
        assert(ts[i] == replaced[k1 + i]);
    }
    lemma_collapse_safe(t);
    let c = collapse_underscores(t);
    let r = spec_sanitize_name(input);
    if c.len() == 0 {
        assert(r == unknown_name());
    } else if c.len() > MAX_NAME_CHARS {
        assert(r == c.take(MAX_NAME_CHARS as int));
        assert forall|i: int| 0 <= i < r.len() implies name_safe(#[trigger] r[i]) by {
            assert(r[i] == c[i]);
        }
        assert forall|i: int| 0 <= i < r.len() - 1 implies !(#[trigger] r[i] == '_' && r[i + 1] == '_') by {
            assert(r[i] == c[i] && r[i + 1] == c[i + 1]);
        }
    }
}

proof fn lemma_trim_start_head(s: Seq<char>)
    ensures
        trim_start(s).len() > 0 ==> !is_trimmed(trim_start(s)[0]),
    decreases s.len(),
{
    if s.len() > 0 && is_trimmed(s[0]) {
        lemma_trim_start_head(s.drop_first());
    }
}

proof fn lemma_collapse_head(s: Seq<char>)
    requires
        s.len() > 0,
    ensures
        collapse_underscores(s).len() > 0,
        collapse_underscores(s)[0] == (if s[0] == ' ' { '_' } else { s[0] }),
    decreases s.len(),
{
    if s.len() > 1 {
        lemma_collapse_head(s.drop_last());
        assert(s.drop_last()[0] == s[0]);
        let r = collapse_underscores(s.drop_last());
        let c = if s.last() == ' ' { '_' } else { s.last() };
        if !(c == '_' && r.len() > 0 && r.last() == '_') {
            assert(r.push(c)[0] == r[0]);
        }
    } else {
        assert(s.drop_last() =~= Seq::<char>::empty());
        assert(collapse_underscores(s.drop_last()) == Seq::<char>::empty());
    }
}

proof fn lemma_collapse_fixed(s: Seq<char>)
    requires
        forall|i: int| 0 <= i < s.len() ==> #[trigger] s[i] != ' ',
        forall|i: int| 0 <= i < s.len() - 1 ==> !(#[trigger] s[i] == '_' && s[i + 1] == '_'),
    ensures
        collapse_underscores(s) == s,
    decreases s.len(),
{
    if s.len() > 0 {
        let d = s.drop_last();
        assert forall|i: int| 0 <= i < d.len() implies #[trigger] d[i] != ' ' by {
            assert(d[i] == s[i]);
        }
        assert forall|i: int| 0 <= i < d.len() - 1 implies !(#[trigger] d[i] == '_' && d[i + 1] == '_') by {
            assert(d[i] == s[i] && d[i + 1] == s[i + 1]);
        }
        lemma_collapse_fixed(d);
        if d.len() > 0 {
            assert(d.last() == s[s.len() - 2]);
            assert(!(s[s.len() - 2] == '_' && s[s.len() - 1] == '_'));
        }
        assert(d.push(s.last()) =~= s);
    }
}

/// Sanitizing a sanitized name gives the same name back, except where the
/// cut to 100 characters left a dot at its end.
pub proof fn lemma_sanitize_idempotent(input: Seq<char>)
    requires
        spec_sanitize_name(input).last() != '.',
    ensures
        spec_sanitize_name(spec_sanitize_name(input)) == spec_sanitize_name(input),
{
    let r = spec_sanitize_name(input);
    lemma_sanitized_name_is_safe(input);
    // the first character is neither a space nor a dot
    let replaced = input.map_values(|c: char| replace_unsafe(c));
    let ts = trim_start(replaced);
    let t = trim_end(ts);
    let c = collapse_underscores(t);
    if c.len() > 0 {
        lemma_trim_end_sub(ts);
        let k = choose|k: int| 0 <= k <= ts.len() && t == ts.subrange(0, k);
        assert(t.len() > 0) by {
            if t.len() == 0 {
                assert(t =~= seq![]);
                assert(collapse_underscores(t) == Seq::<char>::empty());
            }
        }
        assert(t[0] == ts[0]);
        lemma_trim_start_head(replaced);
        lemma_collapse_head(t);
        assert(r[0] == c[0]);
        assert(!is_trimmed(r[0]));
    } else {
        assert(r == unknown_name());
        assert(r[0] == 'u');
    }
    // every step of sanitizing leaves `r` as it is
    let m = r.map_values(|ch: char| replace_unsafe(ch));
    assert forall|i: int| 0 <= i < r.len() implies #[trigger] m[i] == r[i] by {
        assert(name_safe(r[i]));
    }
    assert(m =~= r);
    assert(trim_start(r) == r);
    assert(name_safe(r[r.len() - 1]));
    assert(trim_end(r) == r);
    assert forall|i: int| 0 <= i < r.len() implies #[trigger] r[i] != ' ' by {
        assert(name_safe(r[i]));
    }
    lemma_collapse_fixed(r);
}

/// No character of `s` is a path separator.
pub open spec fn no_slash(s: Seq<char>) -> bool {
    forall|i: int| 0 <= i < s.len() ==> #[trigger] s[i] != '/'
}

proof fn lemma_no_slash_concat(a: Seq<char>, b: Seq<char>)
    requires
        no_slash(a),
        no_slash(b),
    ensures
        no_slash(a + b),
{
    assert forall|i: int| 0 <= i < (a + b).len() implies #[trigger] (a + b)[i] != '/' by {
        if i < a.len() {
            assert((a + b)[i] == a[i]);
        } else {
            assert((a + b)[i] == b[i - a.len()]);
        }
    }
}

proof fn lemma_sanitized_no_slash(input: Seq<char>)
    ensures
        no_slash(spec_sanitize_name(input)),
        spec_sanitize_name(input).len() > 0,
        spec_sanitize_name(input)[0] != '/',
{
    lemma_sanitized_name_is_safe(input);
    assert forall|i: int| 0 <= i < spec_sanitize_name(input).len() implies #[trigger] spec_sanitize_name(input)[i] != '/' by {
        assert(name_safe(spec_sanitize_name(input)[i]));
    }
}

proof fn lemma_decimal_no_slash(n: nat)
    ensures
        decimal(n).len() > 0,
        no_slash(decimal(n)),
    decreases n,
{
    if n >= 10 {
        lemma_decimal_no_slash(n / 10);
        let d = decimal(n / 10);
        assert forall|i: int| 0 <= i < decimal(n).len() implies #[trigger] decimal(n)[i] != '/' by {
            if i < d.len() {
                assert(decimal(n)[i] == d[i]);
            }
        }
    }
}

proof fn lemma_artist_dir_shape(track: Track)
    ensures
        no_slash(spec_artist_dir(track)),
        spec_artist_dir(track).len() > 0,
        spec_artist_dir(track)[0] != '/',
        spec_artist_dir(track).last() != '/',
{
    let artist_name = match track.artist_name { Some(n) => n@, None => unknown_name() };
    let artist_id = match track.artist_id { Some(id) => decimal(id as nat), None => unknown_name() };
    let x = spec_sanitize_name(artist_name);
    let y = spec_sanitize_name(artist_id);
    lemma_sanitized_no_slash(artist_name);
    lemma_sanitized_no_slash(artist_id);
    lemma_no_slash_concat(x, seq![' ', '(']);
    lemma_no_slash_concat(x + seq![' ', '('], y);
    lemma_no_slash_concat(x + seq![' ', '('] + y, seq![')']);
    assert(spec_artist_dir(track)[0] == x[0]);
}

proof fn lemma_album_dir_shape(track: Track)
    ensures
        no_slash(spec_album_dir(track)),
        spec_album_dir(track).len() > 0,
        spec_album_dir(track)[0] != '/',
        spec_album_dir(track).last() != '/',
{
    let album_title = match track.album_title { Some(t) => t@, None => unknown_name() };
    let album_id = match track.album_id { Some(x) => x@, None => unknown_name() };
    let x = spec_sanitize_name(album_title);
    let y = spec_sanitize_name(album_id);
    lemma_sanitized_no_slash(album_title);
    lemma_sanitized_no_slash(album_id);
    lemma_no_slash_concat(x, seq![' ', '(']);
    lemma_no_slash_concat(x + seq![' ', '('], y);
    lemma_no_slash_concat(x + seq![' ', '('] + y, seq![')']);
    assert(spec_album_dir(track)[0] == x[0]);
}

proof fn lemma_extension_no_slash(mime: Seq<char>)
    ensures
        no_slash(spec_guess_extension(mime)),
{
    let e = spec_guess_extension(mime);
    assert forall|i: int| 0 <= i < e.len() implies #[trigger] e[i] != '/' by {
        if e == seq!['f', 'l', 'a', 'c'] {
        } else if e == seq!['m', 'p', '3'] {
        } else {
            assert(e == unknown_name());
        }
    }
}

proof fn lemma_track_file_shape(track: Track, mime: Seq<char>, sample_rate: Option<u32>)
    ensures
        no_slash(spec_track_file(track, mime, sample_rate)),
        spec_track_file(track, mime, sample_rate)[0] != '/',
        spec_track_file(track, mime, sample_rate).len() > spec_guess_extension(mime).len(),
        ({
            let f = spec_track_file(track, mime, sample_rate);
            let e = spec_guess_extension(mime);
            f.subrange(f.len() - e.len() - 1, f.len() as int) == seq!['.'] + e
        }),
{
    lemma_decimal_no_slash(track.number as nat);
    let rate = match sample_rate { Some(sr) => seq!['_'] + decimal(sr as nat), None => seq![] };
    assert(no_slash(rate)) by {
        if let Some(sr) = sample_rate {
            lemma_decimal_no_slash(sr as nat);
            lemma_no_slash_concat(seq!['_'], decimal(sr as nat));
        }
    }
    let e = spec_guess_extension(mime);
    lemma_extension_no_slash(mime);
    let t = spec_sanitize_name(track.title@);
    lemma_sanitized_no_slash(track.title@);
    let num = decimal(track.number as nat);
    lemma_no_slash_concat(num, seq!['_']);
    lemma_no_slash_concat(num + seq!['_'], t);
    lemma_no_slash_concat(num + seq!['_'] + t, rate);
    lemma_no_slash_concat(num + seq!['_'] + t + rate, seq!['.']);
    lemma_no_slash_concat(num + seq!['_'] + t + rate + seq!['.'], e);
    let f = spec_track_file(track, mime, sample_rate);
    assert(f == num + seq!['_'] + t + rate + seq!['.'] + e);
    assert(f[0] == num[0]);
    assert(f.subrange(f.len() - e.len() - 1, f.len() as int) =~= seq!['.'] + e);
}

/// The cache path of a track lies below the cache directory: it is the
/// directory, then the artist's directory, the album's directory and the
/// track's file, each after one `/` and none holding a `/`; the file name
/// ends with a dot and the extension of the MIME type.
pub proof fn lemma_cache_path_below_dir(track: Track, mime: Seq<char>, sample_rate: Option<u32>, dir: Seq<char>)
    requires
        dir.len() > 0,
        dir.last() != '/',
    ensures
        spec_cache_path(track, mime, sample_rate, dir) == dir.push('/') + spec_artist_dir(track) + seq!['/']
            + spec_album_dir(track) + seq!['/'] + spec_track_file(track, mime, sample_rate),
        spec_cache_path(track, mime, sample_rate, dir).len() > dir.len(),
        spec_cache_path(track, mime, sample_rate, dir).subrange(0, dir.len() as int) == dir,
        spec_cache_path(track, mime, sample_rate, dir)[dir.len() as int] == '/',
        no_slash(spec_artist_dir(track)),
        no_slash(spec_album_dir(track)),
        no_slash(spec_track_file(track, mime, sample_rate)),
        spec_track_file(track, mime, sample_rate).len() > spec_guess_extension(mime).len(),
        ({
            let f = spec_track_file(track, mime, sample_rate);
            let e = spec_guess_extension(mime);
            f.subrange(f.len() - e.len() - 1, f.len() as int) == seq!['.'] + e
        }),
{
    lemma_artist_dir_shape(track);
    lemma_album_dir_shape(track);
    lemma_track_file_shape(track, mime, sample_rate);
    let artist_dir = spec_artist_dir(track);
    let album_dir = spec_album_dir(track);
    let track_file = spec_track_file(track, mime, sample_rate);
    let a = spec_path_join(dir, artist_dir);
    assert(a == dir.push('/') + artist_dir);
    let b = spec_path_join(a, album_dir);
    assert(a.last() == artist_dir.last());
    assert(b == a.push('/') + album_dir);
    let full = spec_path_join(b, track_file);
    assert(b.last() == album_dir.last());
    assert(full == b.push('/') + track_file);
    assert(full =~= dir.push('/') + artist_dir + seq!['/'] + album_dir + seq!['/'] + track_file);
    assert(full.subrange(0, dir.len() as int) =~= dir);
    assert(full[dir.len() as int] == '/');
}

/// The file extension for a MIME type: `flac` when it mentions flac, `mp3`
/// when it mentions mpeg or mp3, `unknown` otherwise.
pub open spec fn spec_guess_extension(mime: Seq<char>) -> Seq<char> {
    if crate::text::contains_seq(mime, seq!['f', 'l', 'a', 'c']) {
        seq!['f', 'l', 'a', 'c']
    } else if crate::text::contains_seq(mime, seq!['m', 'p', 'e', 'g'])
        || crate::text::contains_seq(mime, seq!['m', 'p', '3']) {
        seq!['m', 'p', '3']
    } else {
        unknown_name()
    }
}

fn extension_chars(mime: &Vec<char>) -> (r: Vec<char>)
    ensures
        r@ == spec_guess_extension(mime@),
{
    let flac = vec!['f', 'l', 'a', 'c'];
    let mpeg = vec!['m', 'p', 'e', 'g'];
    let mp3 = vec!['m', 'p', '3'];
    assert(flac@ =~= seq!['f', 'l', 'a', 'c']);
    assert(mpeg@ =~= seq!['m', 'p', 'e', 'g']);
    assert(mp3@ =~= seq!['m', 'p', '3']);
    if contains_chars(mime, &flac) {
        flac
    } else if contains_chars(mime, &mpeg) || contains_chars(mime, &mp3) {
        mp3
    } else {
        let mut u: Vec<char> = Vec::new();
        push_unknown(&mut u);
        assert(u@ =~= unknown_name());
        u
    }
}

/// The file extension for a MIME type.
pub fn guess_extension(mime: &str) -> (r: String)
    ensures
        r@ == spec_guess_extension(mime@),
{
    let cs = chars_of(mime);
    let r = extension_chars(&cs);
    string_from(&r)
}

/// `base` with `comp` appended as a path component, as `Path::join` does
/// on Unix: an absolute `comp` replaces `base`; otherwise a `/` is put
/// between them unless `base` is empty or already ends in one.
pub open spec fn spec_path_join(base: Seq<char>, comp: Seq<char>) -> Seq<char> {
    if comp.len() > 0 && comp[0] == '/' {
        comp
    } else if base.len() == 0 || base.last() == '/' {
        base + comp
    } else {
        base.push('/') + comp
    }
}

fn join_into(base: &mut Vec<char>, comp: &Vec<char>)
    ensures
        final(base)@ == spec_path_join(old(base)@, comp@),
{
    if comp.len() > 0 && comp[0] == '/' {
        base.clear();
        push_chars(base, comp);
        assert(final(base)@ =~= comp@);
    } else {
        if base.len() > 0 && base[base.len() - 1] != '/' {
            base.push('/');
        }
        push_chars(base, comp);
    }
}

/// `s` with every leading `~/` removed.
pub open spec fn strip_home_prefix(s: Seq<char>) -> Seq<char>
    decreases s.len(),
{
    if s.len() >= 2 && s[0] == '~' && s[1] == '/' {
        strip_home_prefix(s.subrange(2, s.len() as int))
    } else {
        s
    }
}

/// Whether a path starts at the home directory: it is `~` or starts with `~/`.
pub open spec fn is_home_relative(path: Seq<char>) -> bool {
    path == seq!['~'] || (path.len() >= 2 && path[0] == '~' && path[1] == '/')
}

/// The path separator, as a byte.
pub open spec fn slash_byte() -> u8 {
    0x2f
}

/// [`spec_path_join`] on the raw bytes of paths.
pub open spec fn spec_join_bytes(base: Seq<u8>, comp: Seq<u8>) -> Seq<u8> {
    if comp.len() > 0 && comp[0] == slash_byte() {
        comp
    } else if base.len() == 0 || base.last() == slash_byte() {
        base + comp
    } else {
        base.push(slash_byte()) + comp
    }
}

fn push_bytes(v: &mut Vec<u8>, b: &[u8])
    ensures
        final(v)@ == old(v)@ + b@,
{
    let mut i: usize = 0;
    while i < b.len()
        invariant
            i <= b.len(),
            v@ == old(v)@ + b@.take(i as int),
        decreases b.len() - i,
    {
        v.push(b[i]);
        i = i + 1;
        assert(v@ =~= old(v)@ + b@.take(i as int));
    }
    assert(b@.take(b.len() as int) =~= b@);
}

fn join_bytes_into(base: &mut Vec<u8>, comp: &[u8])
    ensures
        final(base)@ == spec_join_bytes(old(base)@, comp@),
{
    if comp.len() > 0 && comp[0] == 0x2f {
        base.clear();
        push_bytes(base, comp);
        assert(final(base)@ =~= comp@);
    } else {
        if base.len() > 0 && base[base.len() - 1] != 0x2f {
            base.push(0x2f);
        }
        push_bytes(base, comp);
    }
}

/// The UTF-8 bytes of a text.
fn text_bytes(s: &str) -> (r: Vec<u8>)
    ensures
        r@ == encode_utf8(s@),
{
    let mut r: Vec<u8> = Vec::new();
    push_bytes(&mut r, s.as_bytes());
    assert(r@ =~= encode_utf8(s@));
    r
}

/// A path with `~` expanded to the home directory `home` (raw bytes): a
/// path that is `~` or starts with `~/` becomes `home` joined with what
/// remains after its leading `~/` prefixes (when the home directory is
/// known); any other path stays as it is.
pub open spec fn spec_expand_tilde(path: Seq<char>, home: Option<Seq<u8>>) -> Seq<u8> {
    if is_home_relative(path) && home is Some {
        spec_join_bytes(home->0, encode_utf8(strip_home_prefix(path)))
    } else {
        encode_utf8(path)
    }
}

/// A path with `~` expanded, given the home directory as raw bytes.
pub fn expand_tilde_with(path: &str, home: Option<&[u8]>) -> (r: Vec<u8>)
    ensures
        r@ == spec_expand_tilde(path@, match home { Some(h) => Some(h@), None => None }),
{
    let p = chars_of(path);
    let home_relative = (p.len() == 1 && p[0] == '~') || (p.len() >= 2 && p[0] == '~' && p[1]
        == '/');
    assert(home_relative == is_home_relative(p@)) by {
        if p.len() == 1 && p[0] == '~' {
            assert(p@ =~= seq!['~']);
        }
    }
    match home {
        Some(h) => {
            if home_relative {
                let mut start: usize = 0;
                assert(p@.subrange(0, p.len() as int) =~= p@);
                while p.len() - start >= 2 && p[start] == '~' && p[start + 1] == '/'
                    invariant
                        start <= p.len(),
                        strip_home_prefix(p@.subrange(start as int, p.len() as int))
                            == strip_home_prefix(p@),
                    decreases p.len() - start,
                {
                    assert(p@.subrange(start as int, p.len() as int).subrange(
                        2,
                        (p.len() - start) as int,
                    ) =~= p@.subrange(start + 2, p.len() as int));
                    start = start + 2;
                }
                assert(p@.subrange(0, p.len() as int) =~= p@);
                let mut rest: Vec<char> = Vec::new();
                let mut k: usize = start;
                while k < p.len()
                    invariant
                        start <= k <= p.len(),
                        rest@ == p@.subrange(start as int, k as int),
                    decreases p.len() - k,
                {
                    rest.push(p[k]);
                    k = k + 1;
                    assert(rest@ =~= p@.subrange(start as int, k as int));
                }
                let rest_text = string_from(&rest);
                let rest_bytes = text_bytes(rest_text.as_str());
                let mut out: Vec<u8> = Vec::new();
                push_bytes(&mut out, h);
                assert(out@ =~= h@);
                join_bytes_into(&mut out, rest_bytes.as_slice());
                out
            } else {
                text_bytes(path)
            }
        },
        None => text_bytes(path),
    }
}

/// The home directory of the current user, as the raw bytes of its path
/// (`dirs::home_dir`). It depends on the environment, so nothing is
/// stated of it.
#[verifier::external_body]
fn home_dir() -> Option<Vec<u8>> {
    match dirs::home_dir() {
        Some(p) => Some(p.into_os_string().into_encoded_bytes()),
        None => None,
    }
}

/// A path with `~` expanded to the home directory of the current user.
pub fn expand_tilde(path: &str) -> (r: Vec<u8>)
    ensures
        !is_home_relative(path@) ==> r@ == encode_utf8(path@),
        exists|home: Option<Seq<u8>>| r@ == spec_expand_tilde(path@, home),
{
    let home = home_dir();
    let r = match &home {
        Some(h) => expand_tilde_with(path, Some(h.as_slice())),
        None => expand_tilde_with(path, None),
    };
    proof {
        let hs: Option<Seq<u8>> = match home { Some(h) => Some(h@), None => None };
        assert(r@ == spec_expand_tilde(path@, hs));
    }
    r
}

/// The cache path of a track below `audio_cache_dir`:
/// `<artist> (<artist id>)/<album> (<album id>)/<number>_<title>[_<rate>].<ext>`,
/// each part sanitized, `unknown` for a missing value.
pub open spec fn spec_cache_path(
    track: Track,
    mime: Seq<char>,
    sample_rate: Option<u32>,
    audio_cache_dir: Seq<char>,
) -> Seq<char> {
    spec_path_join(
        spec_path_join(spec_path_join(audio_cache_dir, spec_artist_dir(track)), spec_album_dir(track)),
        spec_track_file(track, mime, sample_rate),
    )
}

/// The directory of a track's artist: `name (id)`, both sanitized.
pub open spec fn spec_artist_dir(track: Track) -> Seq<char> {
    let artist_name = match track.artist_name { Some(n) => n@, None => unknown_name() };
    let artist_id = match track.artist_id { Some(id) => decimal(id as nat), None => unknown_name() };
    spec_sanitize_name(artist_name) + seq![' ', '('] + spec_sanitize_name(artist_id) + seq![')']
}

/// The directory of a track's album: `title (id)`, both sanitized.
pub open spec fn spec_album_dir(track: Track) -> Seq<char> {
    let album_title = match track.album_title { Some(t) => t@, None => unknown_name() };
    let album_id = match track.album_id { Some(a) => a@, None => unknown_name() };
    spec_sanitize_name(album_title) + seq![' ', '('] + spec_sanitize_name(album_id) + seq![')']
}

/// The file name of a track: `number_title`, `_rate` when the sample rate
/// is known, then the extension of its MIME type.
pub open spec fn spec_track_file(track: Track, mime: Seq<char>, sample_rate: Option<u32>) -> Seq<char> {
    let rate = match sample_rate { Some(sr) => seq!['_'] + decimal(sr as nat), None => seq![] };
    decimal(track.number as nat) + seq!['_'] + spec_sanitize_name(track.title@) + rate + seq!['.']
        + spec_guess_extension(mime)
}

fn name_or_unknown(s: &Option<String>) -> (r: Vec<char>)
    ensures
        r@ == match *s { Some(n) => n@, None => unknown_name() },
{
    match s {
        Some(n) => chars_of(n.as_str()),
        None => {
            let mut u: Vec<char> = Vec::new();
            push_unknown(&mut u);
            assert(u@ =~= unknown_name());
            u
        },
    }
}

fn dir_name(name: &Vec<char>, id: &Vec<char>) -> (r: Vec<char>)
    ensures
        r@ == spec_sanitize_name(name@) + seq![' ', '('] + spec_sanitize_name(id@) + seq![')'],
{
    let mut r = sanitize_chars(name);
    r.push(' ');
    r.push('(');
    let i = sanitize_chars(id);
    push_chars(&mut r, &i);
    r.push(')');
    assert(r@ =~= spec_sanitize_name(name@) + seq![' ', '('] + spec_sanitize_name(id@) + seq![')']);
    r
}

/// The cache path of a track below `audio_cache_dir`.
pub fn cache_path(track: &Track, mime: &str, sample_rate: Option<u32>, audio_cache_dir: &str) -> (r:
    String)
    ensures
        r@ == spec_cache_path(*track, mime@, sample_rate, audio_cache_dir@),
{
    let artist_name = name_or_unknown(&track.artist_name);
    let artist_id: Vec<char> = match track.artist_id {
        Some(id) => {
            let mut v: Vec<char> = Vec::new();
            push_decimal(&mut v, id as u64);
            assert(v@ =~= decimal(id as nat));
            v
        },
        None => {
            let mut u: Vec<char> = Vec::new();
            push_unknown(&mut u);
            assert(u@ =~= unknown_name());
            u
        },
    };
    let album_title = name_or_unknown(&track.album_title);
    let album_id = name_or_unknown(&track.album_id);
    let artist_dir = dir_name(&artist_name, &artist_id);
    let album_dir = dir_name(&album_title, &album_id);
    let mut file: Vec<char> = Vec::new();
    push_decimal(&mut file, track.number as u64);
    file.push('_');
    let title = chars_of(track.title.as_str());
    let t = sanitize_chars(&title);
    push_chars(&mut file, &t);
    let ghost before_rate = file@;
    match sample_rate {
        Some(sr) => {
            file.push('_');
            push_decimal(&mut file, sr as u64);
        },
        None => {},
    }
    let ghost rate = match sample_rate { Some(sr) => seq!['_'] + decimal(sr as nat), None => seq![] };
    assert(file@ =~= before_rate + rate);
    file.push('.');
    let mime_chars = chars_of(mime);
    let ext = extension_chars(&mime_chars);
    push_chars(&mut file, &ext);
    assert(file@ =~= decimal(track.number as nat) + seq!['_'] + spec_sanitize_name(track.title@)
        + rate + seq!['.'] + spec_guess_extension(mime@));
    let mut out = chars_of(audio_cache_dir);
    join_into(&mut out, &artist_dir);
    join_into(&mut out, &album_dir);
    join_into(&mut out, &file);
    string_from(&out)
}

/// The cache path of a track below the directory `dir` (raw bytes): the
/// directory joined with the UTF-8 text `<artist dir>/<album dir>/<track
/// file>`. This is what joining the three parts one after the other gives,
/// since none of them starts with or holds a `/` (see
/// [`lemma_relative_cache_path`]).
pub open spec fn spec_cache_path_bytes(track: Track, mime: Seq<char>, sample_rate: Option<u32>, dir: Seq<u8>) -> Seq<u8> {
    spec_join_bytes(dir, encode_utf8(spec_cache_path(track, mime, sample_rate, seq![])))
}

/// Below no directory, the cache path of a track is its artist's
/// directory, its album's directory and its file, separated by `/`; none
/// of the three starts with or holds a `/`.
pub proof fn lemma_relative_cache_path(track: Track, mime: Seq<char>, sample_rate: Option<u32>)
    ensures
        spec_cache_path(track, mime, sample_rate, seq![]) == spec_artist_dir(track) + seq!['/']
            + spec_album_dir(track) + seq!['/'] + spec_track_file(track, mime, sample_rate),
        no_slash(spec_artist_dir(track)),
        no_slash(spec_album_dir(track)),
        no_slash(spec_track_file(track, mime, sample_rate)),
        spec_artist_dir(track).len() > 0,
        spec_artist_dir(track)[0] != '/',
{
    lemma_artist_dir_shape(track);
    lemma_album_dir_shape(track);
    lemma_track_file_shape(track, mime, sample_rate);
    let a = spec_artist_dir(track);
    let b = spec_album_dir(track);
    let f = spec_track_file(track, mime, sample_rate);
    let e: Seq<char> = seq![];
    assert(spec_path_join(e, a) =~= a);
    assert(spec_path_join(a, b) == a.push('/') + b);
    assert((a.push('/') + b).last() == b.last());
    assert(spec_path_join(a.push('/') + b, f) == (a.push('/') + b).push('/') + f);
    assert((a.push('/') + b).push('/') + f =~= a + seq!['/'] + b + seq!['/'] + f);
}

/// Finds and keeps downloaded tracks below an audio cache directory, held
/// as the raw bytes of its path.
pub struct Downloader {
    audio_cache_directory: Vec<u8>,
}

impl Downloader {
    /// A downloader that keeps its files below `audio_cache_directory`, with
    /// a leading `~` expanded to the home directory.
    pub fn new(audio_cache_directory: &str) -> (d: Self)
        ensures
            !is_home_relative(audio_cache_directory@) ==> d.audio_cache_dir() == encode_utf8(audio_cache_directory@),
            exists|home: Option<Seq<u8>>|
                d.audio_cache_dir() == spec_expand_tilde(audio_cache_directory@, home),
    {
        let dir = expand_tilde(audio_cache_directory);
        Self { audio_cache_directory: dir }
    }

    /// The directory below which the files are kept.
    pub closed spec fn audio_cache_dir(&self) -> Seq<u8> {
        self.audio_cache_directory@
    }

    /// The directory below which the files are kept.
    pub fn audio_cache_directory(&self) -> (r: &[u8])
        ensures
            r@ == self.audio_cache_dir(),
    {
        self.audio_cache_directory.as_slice()
    }

    /// Moves the cache to `new_directory` (taken as it is, without expansion).
    pub fn set_audio_cache_dir(&mut self, new_directory: Vec<u8>)
        ensures
            final(self).audio_cache_dir() == new_directory@,
    {
        self.audio_cache_directory = new_directory;
    }

    /// The cache path of `track` in this downloader's directory.
    pub fn track_cache_path(&self, track: &Track, mime: &str, sample_rate: Option<u32>) -> (r: Vec<u8>)
        ensures
            r@ == spec_cache_path_bytes(*track, mime@, sample_rate, self.audio_cache_dir()),
    {
        let relative = cache_path(track, mime, sample_rate, "");
        assert(""@ =~= Seq::<char>::empty()) by {
            reveal_strlit("");
        }
        let bytes = text_bytes(relative.as_str());
        let mut out: Vec<u8> = Vec::new();
        push_bytes(&mut out, self.audio_cache_directory.as_slice());
        assert(out@ =~= self.audio_cache_directory@);
        join_bytes_into(&mut out, bytes.as_slice());
        out
    }
}

/// A copy of raw bytes.
fn copy_bytes(b: &Vec<u8>) -> (r: Vec<u8>)
    ensures
        r@ == b@,
{
    let mut r: Vec<u8> = Vec::new();
    push_bytes(&mut r, b.as_slice());
    assert(r@ =~= b@);
    r
}

/// Where fetching a track for playback stands.
#[derive(Debug, PartialEq, Eq)]
pub enum DownloadPhase {
    /// Nothing asked yet.
    Start,
    /// Waiting to learn whether the service hands out files by URL.
    AwaitMode,
    /// Waiting for the track's streaming information (by URL or not).
    AwaitInfo { file_based: bool },
    /// Waiting for the cache entry of `path` to be recorded; `url` is the
    /// file's URL when the service hands out files by URL.
    AwaitRecord { path: Vec<u8>, url: Option<String> },
    /// Waiting to learn whether `path` exists.
    AwaitExists { path: Vec<u8>, url: Option<String> },
    /// Finished.
    Done,
}

/// What came back of the last action.
pub enum DownloadEvent {
    /// The fetch is to begin.
    Begin,
    /// Whether the service hands out files by URL.
    Mode { file_based: bool },
    /// The streaming information of the track.
    StreamingInfo { mime_type: String, sampling_rate: Option<u32> },
    /// The file's URL and its format, the sample rate in hertz.
    FileInfo { url: String, mime_type: String, sampling_rate: Option<u32> },
    /// The cache entry was recorded.
    Recorded,
    /// Whether the cache file exists.
    Exists(bool),
    /// The last action failed with this message.
    Failed(String),
}

/// What to do next to fetch a track.
#[derive(Debug, PartialEq, Eq)]
pub enum DownloadAction {
    AskStreamingMode,
    FetchStreamingInfo { track_id: u32 },
    FetchFileInfo { track_id: u32 },
    RecordCacheEntry { path: Vec<u8> },
    CheckExists { path: Vec<u8> },
    /// Play the cached file.
    PlayCached { path: Vec<u8> },
    /// Stream the track with the streaming information, saving it to `path`.
    Stream { path: Vec<u8> },
    /// Stream the file at `url`, saving it to `path`.
    StreamFromUrl { url: String, path: Vec<u8> },
    /// Give up with this message.
    Fail(String),
    /// Nothing to do for this event.
    Wait,
}

impl Downloader {
    /// One step of fetching `track` for playback: ask whether the service
    /// hands out files by URL, fetch the matching streaming information,
    /// record the cache entry of the track's cache path, then play the
    /// cached file when it exists and stream the track to it otherwise (by
    /// URL where files are handed out so). A failure ends the fetch with
    /// its message; an event that does not answer the phase changes
    /// nothing.
    pub fn download_step(&self, track: &Track, phase: DownloadPhase, event: DownloadEvent) -> (r: (
        DownloadPhase,
        DownloadAction,
    ))
        ensures
            match (phase, event) {
                (DownloadPhase::Done, _) => r.0 == phase && r.1 == DownloadAction::Wait,
                (_, DownloadEvent::Failed(m)) => r.0 == DownloadPhase::Done && r.1 == DownloadAction::Fail(m),
                (DownloadPhase::Start, DownloadEvent::Begin) => r.0 == DownloadPhase::AwaitMode
                    && r.1 == DownloadAction::AskStreamingMode,
                (DownloadPhase::AwaitMode, DownloadEvent::Mode { file_based }) => {
                    &&& r.0 == (DownloadPhase::AwaitInfo { file_based })
                    &&& r.1 == if file_based {
                        DownloadAction::FetchFileInfo { track_id: track.id }
                    } else {
                        DownloadAction::FetchStreamingInfo { track_id: track.id }
                    }
                },
                (DownloadPhase::AwaitInfo { file_based: false }, DownloadEvent::StreamingInfo { mime_type, sampling_rate }) => {
                    let path = spec_cache_path_bytes(*track, mime_type@, sampling_rate, self.audio_cache_dir());
                    &&& r.0 matches DownloadPhase::AwaitRecord { path: p, url: None } && p@ == path
                    &&& r.1 matches DownloadAction::RecordCacheEntry { path: q } && q@ == path
                },
                (DownloadPhase::AwaitInfo { file_based: true }, DownloadEvent::FileInfo { url, mime_type, sampling_rate }) => {
                    let path = spec_cache_path_bytes(*track, mime_type@, sampling_rate, self.audio_cache_dir());
                    &&& r.0 matches DownloadPhase::AwaitRecord { path: p, url: Some(u) } && p@ == path && u == url
                    &&& r.1 matches DownloadAction::RecordCacheEntry { path: q } && q@ == path
                },
                (DownloadPhase::AwaitRecord { path, url }, DownloadEvent::Recorded) => {
                    &&& r.0 == (DownloadPhase::AwaitExists { path, url })
                    &&& r.1 matches DownloadAction::CheckExists { path: q } && q@ == path@
                },
                (DownloadPhase::AwaitExists { path, url }, DownloadEvent::Exists(exists)) => {
                    &&& r.0 == DownloadPhase::Done
                    &&& r.1 == if exists {
                        DownloadAction::PlayCached { path }
                    } else {
                        match url {
                            Some(u) => DownloadAction::StreamFromUrl { url: u, path },
                            None => DownloadAction::Stream { path },
                        }
                    }
                },
                _ => r.0 == phase && r.1 == DownloadAction::Wait,
            },
    {
        match phase {
            DownloadPhase::Done => (DownloadPhase::Done, DownloadAction::Wait),
            _ => match event {
                DownloadEvent::Failed(m) => (DownloadPhase::Done, DownloadAction::Fail(m)),
                DownloadEvent::Begin => match phase {
                    DownloadPhase::Start => (DownloadPhase::AwaitMode, DownloadAction::AskStreamingMode),
                    other => (other, DownloadAction::Wait),
                },
                DownloadEvent::Mode { file_based } => match phase {
                    DownloadPhase::AwaitMode => {
                        let a = if file_based {
                            DownloadAction::FetchFileInfo { track_id: track.id }
                        } else {
                            DownloadAction::FetchStreamingInfo { track_id: track.id }
                        };
                        (DownloadPhase::AwaitInfo { file_based }, a)
                    },
                    other => (other, DownloadAction::Wait),
                },
                DownloadEvent::StreamingInfo { mime_type, sampling_rate } => match phase {
                    DownloadPhase::AwaitInfo { file_based: false } => {
                        let path = self.track_cache_path(track, mime_type.as_str(), sampling_rate);
                        let q = copy_bytes(&path);
                        (DownloadPhase::AwaitRecord { path, url: None }, DownloadAction::RecordCacheEntry { path: q })
                    },
                    other => (other, DownloadAction::Wait),
                },
                DownloadEvent::FileInfo { url, mime_type, sampling_rate } => match phase {
                    DownloadPhase::AwaitInfo { file_based: true } => {
                        let path = self.track_cache_path(track, mime_type.as_str(), sampling_rate);
                        let q = copy_bytes(&path);
                        (DownloadPhase::AwaitRecord { path, url: Some(url) }, DownloadAction::RecordCacheEntry { path: q })
                    },
                    other => (other, DownloadAction::Wait),
                },
                DownloadEvent::Recorded => match phase {
                    DownloadPhase::AwaitRecord { path, url } => {
                        let q = copy_bytes(&path);
                        (DownloadPhase::AwaitExists { path, url }, DownloadAction::CheckExists { path: q })
                    },
                    other => (other, DownloadAction::Wait),
                },
                DownloadEvent::Exists(exists) => match phase {
                    DownloadPhase::AwaitExists { path, url } => {
                        let a = if exists {
                            DownloadAction::PlayCached { path }
                        } else {
                            match url {
                                Some(u) => DownloadAction::StreamFromUrl { url: u, path },
                                None => DownloadAction::Stream { path },
                            }
                        };
                        (DownloadPhase::Done, a)
                    },
                    other => (other, DownloadAction::Wait),
                },
            },
        }
    }
}

} // verus!
