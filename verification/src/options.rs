//! The quality menus offered for a video.

use vstd::prelude::*;
use crate::formats;
use crate::formats::{capped_format, Format, VideoInfo};
use crate::text;
use crate::text::{push_decimal, push_str};

verus! {

/// Labels and values, as text.
pub open spec fn pairs_view(v: Seq<(String, String)>) -> Seq<(Seq<char>, Seq<char>)> {
    v.map_values(|p: (String, String)| (p.0@, p.1@))
}

/// The option for the videos of height `h`: its class and the size of the
/// first such format, and the format selection capped at `h`.
pub open spec fn height_option(fs: Seq<Format>, h: u32) -> (Seq<char>, Seq<char>) {
    (
        "🎥 "@ + formats::resolution_label(h as nat) + " ("@ + formats::format_size_text(
            formats::height_group(fs, h)[0],
        ) + ")"@,
        formats::capped_format_text(h as nat),
    )
}

/// One option per video height, tallest first.
pub open spec fn height_options(fs: Seq<Format>) -> Seq<(Seq<char>, Seq<char>)> {
    formats::heights_desc(fs).map_values(|h: u32| height_option(fs, h))
}

/// The format has a known bitrate.
pub open spec fn has_bitrate(f: Format) -> bool {
    f.abr_milli is Some
}

/// The whole kbps of a format's bitrate, rendered.
pub open spec fn kbps_text(f: Format) -> Seq<char> {
    text::decimal(formats::kbps_of(f.abr_milli->0) as nat)
}

/// The option for an audio bitrate: in the audio screen, the bitrate itself;
/// in the video screen, the best audio up to that bitrate.
pub open spec fn bitrate_option(f: Format, video_menu: bool) -> (Seq<char>, Seq<char>) {
    if video_menu {
        ("🎵 Audio "@ + kbps_text(f) + "kbps"@, "bestaudio[abr<="@ + kbps_text(f) + "]/bestaudio"@)
    } else {
        ("🔊 "@ + kbps_text(f) + "kbps"@, kbps_text(f))
    }
}

/// The bitrate options of the first `limit` formats of `fs` that have a bitrate.
pub open spec fn bitrate_options_of(fs: Seq<Format>, limit: nat, video_menu: bool) -> Seq<(Seq<char>, Seq<char>)> {
    fs.take(if limit < fs.len() { limit as int } else { fs.len() as int }).filter(
        |f: Format| has_bitrate(f),
    ).map_values(|f: Format| bitrate_option(f, video_menu))
}

fn push_pair(v: &mut Vec<(String, String)>, a: String, b: String)
    ensures
        pairs_view(final(v)@) == pairs_view(old(v)@).push((a@, b@)),
{
    v.push((a, b));
    assert(pairs_view(v@) =~= pairs_view(old(v)@).push((a@, b@)));
}

fn bitrate_pair(f: &Format, video_menu: bool) -> (r: (String, String))
    requires
        has_bitrate(*f),
    ensures
        (r.0@, r.1@) == bitrate_option(*f, video_menu),
{
    let k = match f.get_audio_bitrate() {
        Some(k) => k,
        None => 0,
    };
    let mut d = String::new();
    push_decimal(&mut d, k as u64);
    if video_menu {
        let mut a = text::concat("🎵 Audio ", d.as_str());
        push_str(&mut a, "kbps");
        let mut b = text::concat("bestaudio[abr<=", d.as_str());
        push_str(&mut b, "]/bestaudio");
        (a, b)
    } else {
        let mut a = text::concat("🔊 ", d.as_str());
        push_str(&mut a, "kbps");
        (a, d)
    }
}

/// Appends the bitrate options of the first `limit` of `fmts` that have a bitrate.
pub fn push_bitrate_options(out: &mut Vec<(String, String)>, fmts: &Vec<&Format>, limit: usize, video_menu: bool)
    ensures
        pairs_view(final(out)@) == pairs_view(old(out)@) + bitrate_options_of(
            fmts@.unref(),
            limit as nat,
            video_menu,
        ),
{
    let n = if limit < fmts.len() {
        limit
    } else {
        fmts.len()
    };
    let ghost s = fmts@.unref();
    let ghost p = |f: Format| has_bitrate(f);
    let ghost m = |f: Format| bitrate_option(f, video_menu);
    let mut i: usize = 0;
    assert(s.take(0).filter(p) =~= seq![]) by {
        reveal(Seq::filter);
    }
    assert(pairs_view(out@) =~= pairs_view(old(out)@) + s.take(0).filter(p).map_values(m));
    while i < n
        invariant
            n <= fmts@.len(),
            s == fmts@.unref(),
            p == (|f: Format| has_bitrate(f)),
            m == (|f: Format| bitrate_option(f, video_menu)),
            i <= n,
            pairs_view(out@) == pairs_view(old(out)@) + s.take(i as int).filter(p).map_values(m),
        decreases n - i,
    {
        let f = fmts[i];
        proof {
            assert(s.take(i + 1) =~= s.take(i as int).push(s[i as int]));
            s.take(i as int).lemma_filter_push(s[i as int], p);
            assert(*f == s[i as int]);
        }
        let ghost prev = s.take(i as int).filter(p);
        if f.abr_milli.is_some() {
            assert(p(*f));
            assert(s.take(i + 1).filter(p) == prev.push(*f));
            let (a, b) = bitrate_pair(f, video_menu);
            let ghost before = pairs_view(out@);
            push_pair(out, a, b);
            assert(prev.push(*f).map_values(m) =~= prev.map_values(m).push(m(*f)));
            assert((a@, b@) == m(*f));
            assert(pairs_view(out@) =~= pairs_view(old(out)@) + s.take(i + 1).filter(p).map_values(
                m,
            ));
        } else {
            assert(!p(*f));
            assert(s.take(i + 1).filter(p) == prev);
        }
        i = i + 1;
    }
}

/// Appends one option per video height of `info`, tallest first.
pub fn push_height_options(out: &mut Vec<(String, String)>, info: &VideoInfo)
    ensures
        pairs_view(final(out)@) == pairs_view(old(out)@) + height_options(info.formats@),
{
    let groups = info.get_video_formats();
    let ghost fs = info.formats@;
    let ghost hs = formats::heights_desc(fs);
    let ghost m = |h: u32| height_option(fs, h);
    let mut i: usize = 0;
    assert(pairs_view(out@) =~= pairs_view(old(out)@) + hs.take(0).map_values(m));
    while i < groups.len()
        invariant
            fs == info.formats@,
            hs == formats::heights_desc(fs),
            m == (|h: u32| height_option(fs, h)),
            groups@.len() == hs.len(),
            forall|j: int|
                0 <= j < groups@.len() ==> formats::group_height(#[trigger] groups@[j]) == hs[j],
            forall|j: int|
                0 <= j < groups@.len() ==> {
                    &&& (#[trigger] groups@[j]).1@.len() > 0
                    &&& groups@[j].1@.unref() == formats::height_group(
                        fs,
                        formats::group_height(groups@[j]),
                    )
                    &&& groups@[j].0@ == formats::resolution_label(
                        formats::group_height(groups@[j]) as nat,
                    )
                },
            i <= groups@.len(),
            pairs_view(out@) == pairs_view(old(out)@) + hs.take(i as int).map_values(m),
        decreases groups@.len() - i,
    {
        let (label, fmts) = &groups[i];
        let fmt = fmts[0];
        let ghost h = hs[i as int];
        proof {
            assert(groups@[i as int].1@.unref()[0] == *fmt);
            let p = |f: Format| formats::video_at(f, h);
            fs.lemma_filter_pred(p, 0);
        }
        let size = fmt.get_size_str();
        let mut a = text::concat("🎥 ", label.as_str());
        push_str(&mut a, " (");
        push_str(&mut a, size.as_str());
        push_str(&mut a, ")");
        let height = match fmt.height {
            Some(x) => x,
            None => 1080,
        };
        let b = capped_format(height);
        proof {
            let g = formats::height_group(fs, h);
            assert(g[0] == *fmt);
            assert(formats::video_at(g[0], h));
            assert(height == h);
            assert(label@ == formats::resolution_label(h as nat));
            assert((a@, b@) == m(h));
        }
        push_pair(out, a, b);
        assert(hs.take(i + 1) =~= hs.take(i as int).push(h));
        assert(hs.take(i + 1).map_values(m) =~= hs.take(i as int).map_values(m).push(m(h)));
        assert(pairs_view(out@) =~= pairs_view(old(out)@) + hs.take(i + 1).map_values(m));
        i = i + 1;
    }
    assert(hs.take(hs.len() as int) =~= hs);
}

/// The options that a search result offers: one per video height, then a
/// separator and MP3.
pub open spec fn search_options(fs: Seq<Format>) -> Seq<(Seq<char>, Seq<char>)> {
    height_options(fs) + seq![("───────────────"@, "separator"@), ("🎵 MP3 (Best Quality)"@, "mp3"@)]
}

/// The quality options offered for a video found by a search.
pub fn build_quality_options(info: &VideoInfo) -> (r: Vec<(String, String)>)
    ensures
        pairs_view(r@) == search_options(info.formats@),
{
    let mut out: Vec<(String, String)> = Vec::new();
    push_height_options(&mut out, info);
    push_pair(&mut out, "───────────────".to_owned(), "separator".to_owned());
    push_pair(&mut out, "🎵 MP3 (Best Quality)".to_owned(), "mp3".to_owned());
    assert(pairs_view(out@) =~= search_options(info.formats@));
    out
}

/// The options of the video screen: one per video height; then, if there
/// is audio-only, a separator and the best audio up to each of the three
/// highest bitrates; then MP3.
pub open spec fn video_options(fs: Seq<Format>) -> Seq<(Seq<char>, Seq<char>)> {
    let audio = formats::audio_by_bitrate(fs);
    height_options(fs) + (if audio.len() > 0 {
        seq![("───────────────"@, "separator"@)] + bitrate_options_of(audio, 3, true)
    } else {
        seq![]
    }) + seq![("🎵 MP3 (Best Quality)"@, "mp3"@)]
}

/// The options of the audio screen: the best available, then one per
/// bitrate, highest first.
pub open spec fn audio_options(fs: Seq<Format>) -> Seq<(Seq<char>, Seq<char>)> {
    let audio = formats::audio_by_bitrate(fs);
    seq![("⭐ Best Available"@, "best"@)] + bitrate_options_of(audio, audio.len(), false)
}

/// The quality options of the video screen for `info`.
pub fn video_quality_options(info: &VideoInfo) -> (r: Vec<(String, String)>)
    ensures
        pairs_view(r@) == video_options(info.formats@),
{
    let mut out: Vec<(String, String)> = Vec::new();
    push_height_options(&mut out, info);
    let ghost mid = pairs_view(out@);
    let audio = info.get_audio_formats();
    if audio.len() > 0 {
        push_pair(&mut out, "───────────────".to_owned(), "separator".to_owned());
        push_bitrate_options(&mut out, &audio, 3, true);
    }
    push_pair(&mut out, "🎵 MP3 (Best Quality)".to_owned(), "mp3".to_owned());
    assert(pairs_view(out@) =~= video_options(info.formats@));
    out
}

/// The quality options of the audio screen for `info`.
pub fn audio_quality_options(info: &VideoInfo) -> (r: Vec<(String, String)>)
    ensures
        pairs_view(r@) == audio_options(info.formats@),
{
    let mut out: Vec<(String, String)> = Vec::new();
    push_pair(&mut out, "⭐ Best Available".to_owned(), "best".to_owned());
    let audio = info.get_audio_formats();
    push_bitrate_options(&mut out, &audio, audio.len(), false);
    assert(pairs_view(out@) =~= audio_options(info.formats@));
    out
}

} // verus!
