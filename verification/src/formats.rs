//! Video formats, video information and download presets, as yt-dlp
//! describes them.

use vstd::prelude::*;
use crate::text;
use crate::text::{div_round_even_u128, push_decimal, push_decimal2, push_str, push_tenths, str_eq};

verus! {

/// One format that yt-dlp offers for a video.
///
/// The audio bitrate is held in thousandths of a kbps, so that formats can be
/// ordered by it without floating point.
pub struct Format {
    pub format_id: String,
    pub format_note: Option<String>,
    pub ext: Option<String>,
    pub resolution: Option<String>,
    pub height: Option<u32>,
    pub width: Option<u32>,
    pub vcodec: Option<String>,
    pub acodec: Option<String>,
    pub abr_milli: Option<u64>,
    pub filesize: Option<u64>,
    pub filesize_approx: Option<u64>,
}

/// A codec field names a codec, not "none".
pub open spec fn codec_present(c: Option<String>) -> bool {
    c matches Some(v) && v@ != "none"@
}

pub open spec fn spec_has_video(f: Format) -> bool {
    codec_present(f.vcodec)
}

pub open spec fn spec_has_audio(f: Format) -> bool {
    codec_present(f.acodec)
}

pub open spec fn spec_is_audio_only(f: Format) -> bool {
    !spec_has_video(f) && spec_has_audio(f)
}

/// The label of a video height ("1080p", "4K", ...).
pub open spec fn resolution_label(h: nat) -> Seq<char> {
    if h >= 4320 {
        "8K"@
    } else if h >= 2160 {
        "4K"@
    } else if h >= 1440 {
        "2K"@
    } else if h >= 1080 {
        "1080p"@
    } else if h >= 720 {
        "720p"@
    } else if h >= 480 {
        "480p"@
    } else if h >= 360 {
        "360p"@
    } else if h >= 240 {
        "240p"@
    } else {
        text::decimal(h) + "p"@
    }
}

/// Whole kbps of a bitrate held in thousandths of a kbps, as `f64 as u32` gives it.
pub open spec fn kbps_of(milli: u64) -> u32 {
    if milli / 1000 > u32::MAX {
        u32::MAX
    } else {
        (milli / 1000) as u32
    }
}

/// The exact or approximate size of a format, rendered; "~" when unknown.
pub open spec fn format_size_text(f: Format) -> Seq<char> {
    match f.filesize {
        Some(s) => size_text(s as nat),
        None => match f.filesize_approx {
            Some(s) => size_text(s as nat),
            None => "~"@,
        },
    }
}

/// A byte count as the format list shows it.
pub open spec fn size_text(s: nat) -> Seq<char> {
    if s >= 1073741824 {
        text::tenths_text(text::div_round_even(s * 10, 1073741824)) + " GB"@
    } else if s >= 1048576 {
        text::tenths_text(text::div_round_even(s * 10, 1048576)) + " MB"@
    } else if s >= 1024 {
        text::tenths_text(text::div_round_even(s * 10, 1024)) + " KB"@
    } else {
        text::decimal(s) + " B"@
    }
}

fn codec_is_present(c: &Option<String>) -> (r: bool)
    ensures
        r == codec_present(*c),
{
    match c {
        Some(v) => !str_eq(v.as_str(), "none"),
        None => false,
    }
}

/// The label for a video height.
pub fn height_label(h: u32) -> (r: String)
    ensures
        r@ == resolution_label(h as nat),
{
    if h >= 4320 {
        "8K".to_owned()
    } else if h >= 2160 {
        "4K".to_owned()
    } else if h >= 1440 {
        "2K".to_owned()
    } else if h >= 1080 {
        "1080p".to_owned()
    } else if h >= 720 {
        "720p".to_owned()
    } else if h >= 480 {
        "480p".to_owned()
    } else if h >= 360 {
        "360p".to_owned()
    } else if h >= 240 {
        "240p".to_owned()
    } else {
        let mut s = String::new();
        push_decimal(&mut s, h as u64);
        push_str(&mut s, "p");
        s
    }
}

/// `s` bytes, rendered as the format list shows sizes.
pub fn size_label(s: u64) -> (r: String)
    ensures
        r@ == size_text(s as nat),
{
    let mut out = String::new();
    if s >= 1024 {
        let unit: u128 = if s >= 1073741824 {
            1073741824
        } else if s >= 1048576 {
            1048576
        } else {
            1024
        };
        let a: u128 = s as u128 * 10;
        let t = div_round_even_u128(a, unit);
        assert(t <= u64::MAX) by {
            assert(a / unit <= a / 1024) by (nonlinear_arith)
                requires
                    unit >= 1024,
            ;
        }
        push_tenths(&mut out, t as u64);
        if s >= 1073741824 {
            push_str(&mut out, " GB");
        } else if s >= 1048576 {
            push_str(&mut out, " MB");
        } else {
            push_str(&mut out, " KB");
        }
    } else {
        push_decimal(&mut out, s);
        push_str(&mut out, " B");
    }
    out
}

impl Format {
    /// The format carries video.
    pub fn has_video(&self) -> (r: bool)
        ensures
            r == spec_has_video(*self),
    {
        codec_is_present(&self.vcodec)
    }

    /// The format carries audio.
    pub fn has_audio(&self) -> (r: bool)
        ensures
            r == spec_has_audio(*self),
    {
        codec_is_present(&self.acodec)
    }

    /// The format carries video and no audio.
    pub fn is_video_only(&self) -> (r: bool)
        ensures
            r == (spec_has_video(*self) && !spec_has_audio(*self)),
    {
        self.has_video() && !self.has_audio()
    }

    /// The format carries audio and no video.
    pub fn is_audio_only(&self) -> (r: bool)
        ensures
            r == spec_is_audio_only(*self),
    {
        !self.has_video() && self.has_audio()
    }

    /// A short label: the height class, the audio bitrate, or the resolution text.
    pub fn get_resolution_label(&self) -> (r: String)
        ensures
            r@ == (match self.height {
                Some(h) => resolution_label(h as nat),
                None => if spec_is_audio_only(*self) {
                    match self.abr_milli {
                        Some(a) => text::decimal(kbps_of(a) as nat) + "kbps"@,
                        None => "Audio"@,
                    }
                } else {
                    match self.resolution {
                        Some(res) => res@,
                        None => "Unknown"@,
                    }
                },
            }),
    {
        match self.height {
            Some(h) => height_label(h),
            None => {
                if self.is_audio_only() {
                    match self.abr_milli {
                        Some(a) => {
                            let mut s = String::new();
                            push_decimal(&mut s, kbps(a) as u64);
                            push_str(&mut s, "kbps");
                            s
                        },
                        None => "Audio".to_owned(),
                    }
                } else {
                    match &self.resolution {
                        Some(res) => res.clone(),
                        None => "Unknown".to_owned(),
                    }
                }
            },
        }
    }

    /// The audio bitrate in whole kbps.
    pub fn get_audio_bitrate(&self) -> (r: Option<u32>)
        ensures
            r == (match self.abr_milli {
                Some(a) => Some(kbps_of(a)),
                None => None,
            }),
    {
        match self.abr_milli {
            Some(a) => Some(kbps(a)),
            None => None,
        }
    }

    /// The exact or approximate file size, rendered; "~" when unknown.
    pub fn get_size_str(&self) -> (r: String)
        ensures
            r@ == format_size_text(*self),
    {
        match self.filesize {
            Some(s) => size_label(s),
            None => match self.filesize_approx {
                Some(s) => size_label(s),
                None => "~".to_owned(),
            },
        }
    }
}

fn kbps(milli: u64) -> (r: u32)
    ensures
        r == kbps_of(milli),
{
    let k = milli / 1000;
    if k > u32::MAX as u64 {
        u32::MAX
    } else {
        k as u32
    }
}

} // verus!

verus! {

/// What yt-dlp reports of a video.
///
/// The duration is held in whole seconds (the fraction of a second never
/// shows in any rendering of it).
pub struct VideoInfo {
    pub id: String,
    pub title: String,
    pub duration_secs: Option<u64>,
    pub duration_string: Option<String>,
    pub channel: Option<String>,
    pub uploader: Option<String>,
    pub thumbnail: Option<String>,
    pub formats: Vec<Format>,
    pub description: Option<String>,
}

/// A number of seconds as a clock reading: `m:ss`, or `h:mm:ss` from an hour on.
pub open spec fn clock_text(secs: nat) -> Seq<char> {
    let h = secs / 3600;
    let m = (secs % 3600) / 60;
    let s = secs % 60;
    if h > 0 {
        text::decimal(h) + ":"@ + text::decimal2(m) + ":"@ + text::decimal2(s)
    } else {
        text::decimal(m) + ":"@ + text::decimal2(s)
    }
}

/// The channel, else the uploader, else "Unknown".
pub open spec fn channel_text(channel: Option<String>, uploader: Option<String>) -> Seq<char> {
    match channel {
        Some(c) => c@,
        None => match uploader {
            Some(u) => u@,
            None => "Unknown"@,
        },
    }
}

/// `secs` as a clock reading (`h:mm:ss` or `m:ss`).
pub fn format_duration(secs: u64) -> (r: String)
    ensures
        r@ == clock_text(secs as nat),
{
    let h = secs / 3600;
    let m = (secs % 3600) / 60;
    let s = secs % 60;
    let mut out = String::new();
    if h > 0 {
        push_decimal(&mut out, h);
        push_str(&mut out, ":");
        push_decimal2(&mut out, m);
    } else {
        push_decimal(&mut out, m);
    }
    push_str(&mut out, ":");
    push_decimal2(&mut out, s);
    out
}

/// The channel, else the uploader, else "Unknown".
pub fn channel_or_uploader(channel: &Option<String>, uploader: &Option<String>) -> (r: String)
    ensures
        r@ == channel_text(*channel, *uploader),
{
    match channel {
        Some(c) => c.clone(),
        None => match uploader {
            Some(u) => u.clone(),
            None => "Unknown".to_owned(),
        },
    }
}

} // verus!

verus! {

/// The format carries video of height `h`.
pub open spec fn video_at(f: Format, h: u32) -> bool {
    spec_has_video(f) && f.height == Some(h)
}

/// Some format of `fs` carries video of height `h`.
pub open spec fn present_height(fs: Seq<Format>, h: u32) -> bool {
    exists|i: int| 0 <= i < fs.len() && video_at(fs[i], h)
}

/// The formats of `fs` that carry video of height `h`, in their order.
pub open spec fn height_group(fs: Seq<Format>, h: u32) -> Seq<Format> {
    fs.filter(|f: Format| video_at(f, h))
}

/// `h` lies below the bound, if there is one.
pub open spec fn below(h: u32, bound: Option<u32>) -> bool {
    match bound {
        None => true,
        Some(b) => h < b,
    }
}

/// The height that a group of formats shares.
pub open spec fn group_height<'a>(g: (String, Vec<&'a Format>)) -> u32 {
    g.1@[0].height->0
}

fn is_video_at(f: &Format, h: u32) -> (r: bool)
    ensures
        r == video_at(*f, h),
{
    f.has_video() && match f.height {
        Some(x) => x == h,
        None => false,
    }
}

/// `h` is the greatest video height in `fs` below the bound.
pub open spec fn is_tallest_below(fs: Seq<Format>, bound: Option<u32>, h: u32) -> bool {
    &&& present_height(fs, h)
    &&& below(h, bound)
    &&& forall|h2: u32| present_height(fs, h2) && below(h2, bound) ==> h2 <= h
}

/// The greatest video height in `fs` below the bound, if there is one.
pub open spec fn tallest_below(fs: Seq<Format>, bound: Option<u32>) -> Option<u32> {
    if exists|h: u32| is_tallest_below(fs, bound, h) {
        Some(choose|h: u32| is_tallest_below(fs, bound, h))
    } else {
        None
    }
}

/// A measure of a height bound that falls as the bound falls.
pub open spec fn height_measure(bound: Option<u32>) -> int {
    match bound {
        None => 0x1_0000_0000int,
        Some(b) => b as int,
    }
}

/// The video heights in `fs` below the bound, each once, tallest first.
pub open spec fn heights_desc_from(fs: Seq<Format>, bound: Option<u32>) -> Seq<u32>
    decreases height_measure(bound),
{
    match tallest_below(fs, bound) {
        Some(h) => {
            proof {
                let c = choose|h: u32| is_tallest_below(fs, bound, h);
                assert(is_tallest_below(fs, bound, c));
            }
            seq![h] + heights_desc_from(fs, Some(h))
        },
        None => seq![],
    }
}

/// The video heights in `fs`, each once, tallest first.
pub open spec fn heights_desc(fs: Seq<Format>) -> Seq<u32> {
    heights_desc_from(fs, None)
}

proof fn lemma_tallest_below_is(fs: Seq<Format>, bound: Option<u32>, r: Option<u32>)
    requires
        r matches Some(h) ==> is_tallest_below(fs, bound, h),
        r is None ==> forall|h2: u32| present_height(fs, h2) ==> !below(h2, bound),
    ensures
        tallest_below(fs, bound) == r,
{
    match r {
        Some(h) => {
            let c = choose|x: u32| is_tallest_below(fs, bound, x);
            assert(is_tallest_below(fs, bound, c));
            assert(c <= h && h <= c);
        },
        None => {
            if exists|x: u32| is_tallest_below(fs, bound, x) {
                let c = choose|x: u32| is_tallest_below(fs, bound, x);
                assert(is_tallest_below(fs, bound, c));
            }
        },
    }
}

/// The formats of `fs` that carry video of height `h`.
fn collect_height_group<'a>(fs: &'a Vec<Format>, h: u32) -> (g: Vec<&'a Format>)
    ensures
        g@.unref() == height_group(fs@, h),
{
    let mut g: Vec<&'a Format> = Vec::new();
    let mut i: usize = 0;
    while i < fs.len()
        invariant
            i <= fs@.len(),
            g@.unref() == fs@.take(i as int).filter(|f: Format| video_at(f, h)),
        decreases fs@.len() - i,
    {
        let f = &fs[i];
        proof {
            assert(fs@.take(i + 1) =~= fs@.take(i as int).push(fs@[i as int]));
            fs@.take(i as int).lemma_filter_push(fs@[i as int], |f: Format| video_at(f, h));
        }
        if is_video_at(f, h) {
            let ghost old_g = g@;
            g.push(f);
            assert(g@.unref() =~= old_g.unref().push(*f));
        }
        i = i + 1;
    }
    assert(fs@.take(fs@.len() as int) =~= fs@);
    g
}

/// The greatest video height in `fs` below `bound`.
fn max_height_below(fs: &Vec<Format>, bound: Option<u32>) -> (r: Option<u32>)
    ensures
        r matches Some(h) ==> present_height(fs@, h) && below(h, bound) && forall|h2: u32|
            present_height(fs@, h2) && below(h2, bound) ==> h2 <= h,
        r is None ==> forall|h2: u32| present_height(fs@, h2) ==> !below(h2, bound),
{
    let mut best: Option<u32> = None;
    let mut i: usize = 0;
    while i < fs.len()
        invariant
            i <= fs@.len(),
            best matches Some(h) ==> present_height(fs@, h) && below(h, bound),
            forall|k: int, h2: u32|
                0 <= k < i && video_at(fs@[k], h2) && below(h2, bound) ==> (best matches Some(
                    b,
                ) && h2 <= b),
        decreases fs@.len() - i,
    {
        let f = &fs[i];
        if f.has_video() {
            match f.height {
                Some(h) => {
                    let ok = match bound {
                        None => true,
                        Some(b) => h < b,
                    };
                    if ok {
                        match best {
                            None => {
                                best = Some(h);
                            },
                            Some(b) => {
                                if h > b {
                                    best = Some(h);
                                }
                            },
                        }
                        assert(video_at(fs@[i as int], h));
                    }
                },
                None => {},
            }
        }
        i = i + 1;
    }
    best
}

impl VideoInfo {
    /// The channel, else the uploader, else "Unknown".
    pub fn get_channel(&self) -> (r: String)
        ensures
            r@ == channel_text(self.channel, self.uploader),
    {
        channel_or_uploader(&self.channel, &self.uploader)
    }

    /// The duration as yt-dlp wrote it, else as a clock reading, else "?:??".
    pub fn get_duration(&self) -> (r: String)
        ensures
            r@ == (match self.duration_string {
                Some(d) => d@,
                None => match self.duration_secs {
                    Some(s) => clock_text(s as nat),
                    None => "?:??"@,
                },
            }),
    {
        match &self.duration_string {
            Some(d) => d.clone(),
            None => match self.duration_secs {
                Some(s) => format_duration(s),
                None => "?:??".to_owned(),
            },
        }
    }

    /// The video formats grouped by height, tallest first; each group is
    /// labelled with its height class and keeps the formats in their order.
    pub fn get_video_formats(&self) -> (r: Vec<(String, Vec<&Format>)>)
        ensures
            forall|i: int|
                0 <= i < r@.len() ==> {
                    &&& r@[i].1@.len() > 0
                    &&& (#[trigger] r@[i]).1@.unref() == height_group(
                        self.formats@,
                        group_height(r@[i]),
                    )
                    &&& r@[i].0@ == resolution_label(group_height(r@[i]) as nat)
                },
            forall|i: int, j: int|
                0 <= i < j < r@.len() ==> group_height(r@[i]) > group_height(r@[j]),
            forall|h: u32|
                present_height(self.formats@, h) ==> exists|i: int|
                    0 <= i < r@.len() && group_height(r@[i]) == h,
            r@.len() == heights_desc(self.formats@).len(),
            forall|i: int|
                0 <= i < r@.len() ==> group_height(#[trigger] r@[i]) == heights_desc(
                    self.formats@,
                )[i],
    {
        let mut out: Vec<(String, Vec<&Format>)> = Vec::new();
        let ghost mut hs: Seq<u32> = seq![];
        let mut bound: Option<u32> = None;
        loop
            invariant
                forall|i: int|
                    0 <= i < out@.len() ==> {
                        &&& out@[i].1@.len() > 0
                        &&& (#[trigger] out@[i]).1@.unref() == height_group(
                            self.formats@,
                            group_height(out@[i]),
                        )
                        &&& out@[i].0@ == resolution_label(group_height(out@[i]) as nat)
                    },
                forall|i: int, j: int|
                    0 <= i < j < out@.len() ==> group_height(out@[i]) > group_height(out@[j]),
                bound is None <==> out@.len() == 0,
                bound matches Some(b) ==> b == group_height(out@.last()),
                forall|h: u32|
                    present_height(self.formats@, h) && !below(h, bound) ==> exists|i: int|
                        0 <= i < out@.len() && group_height(out@[i]) == h,
                hs.len() == out@.len(),
                forall|i: int| 0 <= i < out@.len() ==> group_height(#[trigger] out@[i]) == hs[i],
                heights_desc(self.formats@) == hs + heights_desc_from(self.formats@, bound),
            ensures
                forall|i: int|
                    0 <= i < out@.len() ==> {
                        &&& out@[i].1@.len() > 0
                        &&& (#[trigger] out@[i]).1@.unref() == height_group(
                            self.formats@,
                            group_height(out@[i]),
                        )
                        &&& out@[i].0@ == resolution_label(group_height(out@[i]) as nat)
                    },
                forall|i: int, j: int|
                    0 <= i < j < out@.len() ==> group_height(out@[i]) > group_height(out@[j]),
                forall|h: u32|
                    present_height(self.formats@, h) ==> exists|i: int|
                        0 <= i < out@.len() && group_height(out@[i]) == h,
                out@.len() == heights_desc(self.formats@).len(),
                forall|i: int|
                    0 <= i < out@.len() ==> group_height(#[trigger] out@[i]) == heights_desc(
                        self.formats@,
                    )[i],
            decreases height_measure(bound),
        {
            let next = max_height_below(&self.formats, bound);
            proof {
                lemma_tallest_below_is(self.formats@, bound, next);
            }
            match next {
                None => {
                    assert(heights_desc_from(self.formats@, bound) =~= seq![]);
                    assert(hs + seq![] =~= hs);
                    assert forall|h: u32| present_height(self.formats@, h) implies exists|i: int|
                        0 <= i < out@.len() && group_height(out@[i]) == h by {
                        assert(!below(h, bound));
                    }
                    break;
                },
                Some(h) => {
                    let group = collect_height_group(&self.formats, h);
                    proof {
                        let k = choose|k: int|
                            0 <= k < self.formats@.len() && video_at(self.formats@[k], h);
                        let p = |f: Format| video_at(f, h);
                        self.formats@.lemma_filter_contains(p, k);
                        let g = height_group(self.formats@, h);
                        assert(g.len() > 0);
                        self.formats@.lemma_filter_pred(p, 0);
                        assert(group@[0].height == g[0].height);
                    }
                    let ghost old_out = out@;
                    let label = height_label(h);
                    out.push((label, group));
                    proof {
                        assert(out@[out@.len() - 1] == (label, group));
                        assert(group_height(out@.last()) == h);
                        assert forall|i: int| 0 <= i < old_out.len() implies #[trigger] out@[i]
                            == old_out[i] by {}
                        assert forall|hh: u32|
                            present_height(self.formats@, hh) && !below(hh, Some(h)) implies exists|
                            i: int,
                        | 0 <= i < out@.len() && group_height(out@[i]) == hh by {
                            if hh == h {
                                assert(group_height(out@[out@.len() - 1]) == hh);
                            } else {
                                assert(!below(hh, bound));
                                let i = choose|i: int|
                                    0 <= i < old_out.len() && group_height(old_out[i]) == hh;
                                assert(out@[i] == old_out[i]);
                            }
                        }
                    }
                    proof {
                        assert(heights_desc_from(self.formats@, bound) == seq![h]
                            + heights_desc_from(self.formats@, Some(h)));
                        assert(hs + (seq![h] + heights_desc_from(self.formats@, Some(h)))
                            =~= hs.push(h) + heights_desc_from(self.formats@, Some(h)));
                        hs = hs.push(h);
                    }
                    bound = Some(h);
                },
            }
        }
        out
    }
}

} // verus!

verus! {

/// The key by which audio formats are ordered: the bitrate, 0 when unknown.
pub open spec fn abr_key(f: Format) -> u64 {
    match f.abr_milli {
        Some(a) => a,
        None => 0,
    }
}

/// The audio-only formats of `fs` whose bitrate key is `k`, in their order.
pub open spec fn audio_group(fs: Seq<Format>, k: u64) -> Seq<Format> {
    fs.filter(|f: Format| spec_is_audio_only(f) && abr_key(f) == k)
}

/// The formats of `s` whose bitrate key is `k`.
pub open spec fn by_key(s: Seq<Format>, k: u64) -> Seq<Format> {
    s.filter(|f: Format| abr_key(f) == k)
}

/// Some audio-only format of `fs` has the bitrate key `k`.
pub open spec fn present_key(fs: Seq<Format>, k: u64) -> bool {
    exists|i: int| 0 <= i < fs.len() && spec_is_audio_only(fs[i]) && abr_key(fs[i]) == k
}

pub open spec fn below_key(k: u64, bound: Option<u64>) -> bool {
    match bound {
        None => true,
        Some(b) => k < b,
    }
}

proof fn lemma_filter_keeps_all<A>(s: Seq<A>, p: spec_fn(A) -> bool)
    requires
        forall|i: int| 0 <= i < s.len() ==> p(#[trigger] s[i]),
    ensures
        s.filter(p) == s,
    decreases s.len(),
{
    reveal(Seq::filter);
    if s.len() > 0 {
        lemma_filter_keeps_all(s.drop_last(), p);
        assert(s.drop_last().push(s.last()) =~= s);
    }
}

proof fn lemma_filter_drops_all<A>(s: Seq<A>, p: spec_fn(A) -> bool)
    requires
        forall|i: int| 0 <= i < s.len() ==> !p(#[trigger] s[i]),
    ensures
        s.filter(p) == Seq::<A>::empty(),
    decreases s.len(),
{
    reveal(Seq::filter);
    if s.len() > 0 {
        lemma_filter_drops_all(s.drop_last(), p);
    }
}

proof fn lemma_audio_group_by_key(fs: Seq<Format>, h: u64, k: u64)
    ensures
        by_key(audio_group(fs, h), k) == (if k == h {
            audio_group(fs, h)
        } else {
            Seq::<Format>::empty()
        }),
{
    let q = |f: Format| spec_is_audio_only(f) && abr_key(f) == h;
    let g = audio_group(fs, h);
    assert forall|i: int| 0 <= i < g.len() implies abr_key(#[trigger] g[i]) == h by {
        fs.lemma_filter_pred(q, i);
    }
    if k == h {
        lemma_filter_keeps_all(g, |f: Format| abr_key(f) == k);
    } else {
        lemma_filter_drops_all(g, |f: Format| abr_key(f) == k);
    }
}

proof fn lemma_absent_key(fs: Seq<Format>, k: u64)
    requires
        !present_key(fs, k),
    ensures
        audio_group(fs, k) == Seq::<Format>::empty(),
{
    lemma_filter_drops_all(fs, |f: Format| spec_is_audio_only(f) && abr_key(f) == k);
}

fn key_of(f: &Format) -> (r: u64)
    ensures
        r == abr_key(*f),
{
    match f.abr_milli {
        Some(a) => a,
        None => 0,
    }
}

/// `k` is the greatest bitrate key of an audio-only format of `fs` below the bound.
pub open spec fn is_top_key_below(fs: Seq<Format>, bound: Option<u64>, k: u64) -> bool {
    &&& present_key(fs, k)
    &&& below_key(k, bound)
    &&& forall|k2: u64| present_key(fs, k2) && below_key(k2, bound) ==> k2 <= k
}

/// The greatest bitrate key of an audio-only format of `fs` below the bound.
pub open spec fn top_key_below(fs: Seq<Format>, bound: Option<u64>) -> Option<u64> {
    if exists|k: u64| is_top_key_below(fs, bound, k) {
        Some(choose|k: u64| is_top_key_below(fs, bound, k))
    } else {
        None
    }
}

/// A measure of a key bound that falls as the bound falls.
pub open spec fn key_measure(bound: Option<u64>) -> int {
    match bound {
        None => 0x1_0000_0000_0000_0000int,
        Some(b) => b as int,
    }
}

/// The bitrate keys of the audio-only formats of `fs` below the bound, each
/// once, greatest first.
pub open spec fn keys_desc_from(fs: Seq<Format>, bound: Option<u64>) -> Seq<u64>
    decreases key_measure(bound),
{
    match top_key_below(fs, bound) {
        Some(k) => {
            proof {
                let c = choose|k: u64| is_top_key_below(fs, bound, k);
                assert(is_top_key_below(fs, bound, c));
            }
            seq![k] + keys_desc_from(fs, Some(k))
        },
        None => seq![],
    }
}

/// The audio-only formats of `fs` whose keys are `ks`, key by key.
pub open spec fn groups_concat(fs: Seq<Format>, ks: Seq<u64>) -> Seq<Format>
    decreases ks.len(),
{
    if ks.len() == 0 {
        seq![]
    } else {
        groups_concat(fs, ks.drop_last()) + audio_group(fs, ks.last())
    }
}

/// The audio-only formats of `fs`, highest bitrate first, formats of equal
/// bitrate in their order.
pub open spec fn audio_by_bitrate(fs: Seq<Format>) -> Seq<Format> {
    groups_concat(fs, keys_desc_from(fs, None))
}

proof fn lemma_top_key_below_is(fs: Seq<Format>, bound: Option<u64>, r: Option<u64>)
    requires
        r matches Some(h) ==> is_top_key_below(fs, bound, h),
        r is None ==> forall|h2: u64| present_key(fs, h2) ==> !below_key(h2, bound),
    ensures
        top_key_below(fs, bound) == r,
{
    match r {
        Some(h) => {
            let c = choose|x: u64| is_top_key_below(fs, bound, x);
            assert(is_top_key_below(fs, bound, c));
            assert(c <= h && h <= c);
        },
        None => {
            if exists|x: u64| is_top_key_below(fs, bound, x) {
                let c = choose|x: u64| is_top_key_below(fs, bound, x);
                assert(is_top_key_below(fs, bound, c));
            }
        },
    }
}

/// The greatest bitrate key of an audio-only format of `fs` below `bound`.
fn max_key_below(fs: &Vec<Format>, bound: Option<u64>) -> (r: Option<u64>)
    ensures
        r matches Some(h) ==> present_key(fs@, h) && below_key(h, bound) && forall|h2: u64|
            present_key(fs@, h2) && below_key(h2, bound) ==> h2 <= h,
        r is None ==> forall|h2: u64| present_key(fs@, h2) ==> !below_key(h2, bound),
{
    let mut best: Option<u64> = None;
    let mut i: usize = 0;
    while i < fs.len()
        invariant
            i <= fs@.len(),
            best matches Some(h) ==> present_key(fs@, h) && below_key(h, bound),
            forall|m: int|
                0 <= m < i && spec_is_audio_only(#[trigger] fs@[m]) && below_key(
                    abr_key(fs@[m]),
                    bound,
                ) ==> (best matches Some(b) && abr_key(fs@[m]) <= b),
        decreases fs@.len() - i,
    {
        let f = &fs[i];
        if f.is_audio_only() {
            let h = key_of(f);
            let ok = match bound {
                None => true,
                Some(b) => h < b,
            };
            if ok {
                match best {
                    None => {
                        best = Some(h);
                    },
                    Some(b) => {
                        if h > b {
                            best = Some(h);
                        }
                    },
                }
            }
        }
        i = i + 1;
    }
    proof {
        assert forall|h2: u64| present_key(fs@, h2) && below_key(h2, bound) implies (best matches Some(
            b,
        ) && h2 <= b) by {
            let m = choose|m: int|
                0 <= m < fs@.len() && spec_is_audio_only(fs@[m]) && abr_key(fs@[m]) == h2;
            assert(spec_is_audio_only(fs@[m]));
        }
    }
    best
}

/// The audio-only formats of `fs` whose bitrate key is `k`.
fn collect_audio_group<'a>(fs: &'a Vec<Format>, k: u64) -> (g: Vec<&'a Format>)
    ensures
        g@.unref() == audio_group(fs@, k),
{
    let mut g: Vec<&'a Format> = Vec::new();
    let mut i: usize = 0;
    while i < fs.len()
        invariant
            i <= fs@.len(),
            g@.unref() == fs@.take(i as int).filter(
                |f: Format| spec_is_audio_only(f) && abr_key(f) == k,
            ),
        decreases fs@.len() - i,
    {
        let f = &fs[i];
        proof {
            assert(fs@.take(i + 1) =~= fs@.take(i as int).push(fs@[i as int]));
            fs@.take(i as int).lemma_filter_push(
                fs@[i as int],
                |f: Format| spec_is_audio_only(f) && abr_key(f) == k,
            );
        }
        if f.is_audio_only() && key_of(f) == k {
            let ghost old_g = g@;
            g.push(f);
            assert(g@.unref() =~= old_g.unref().push(*f));
        }
        i = i + 1;
    }
    assert(fs@.take(fs@.len() as int) =~= fs@);
    g
}

impl VideoInfo {
    /// The audio-only formats, highest bitrate first; formats of equal
    /// bitrate keep their order.
    pub fn get_audio_formats(&self) -> (r: Vec<&Format>)
        ensures
            forall|i: int, j: int|
                0 <= i < j < r@.len() ==> abr_key(*r@[i]) >= abr_key(*r@[j]),
            forall|k: u64|
                #[trigger] by_key(r@.unref(), k) == audio_group(
                    self.formats@,
                    k,
                ),
            r@.unref() == audio_by_bitrate(self.formats@),
    {
        let fs = &self.formats;
        let mut out: Vec<&Format> = Vec::new();
        let mut bound: Option<u64> = None;
        let ghost mut ks: Seq<u64> = seq![];
        assert(ks + keys_desc_from(fs@, None) =~= keys_desc_from(fs@, None));
        assert(out@.unref() =~= groups_concat(fs@, ks));
        loop
            invariant
                fs == &self.formats,
                forall|i: int, j: int|
                    0 <= i < j < out@.len() ==> abr_key(*out@[i]) >= abr_key(*out@[j]),
                bound is None ==> out@.len() == 0,
                bound matches Some(b) ==> forall|i: int|
                    0 <= i < out@.len() ==> abr_key(*#[trigger] out@[i]) >= b,
                forall|k: u64|
                    #[trigger] by_key(out@.unref(), k) == (if below_key(
                        k,
                        bound,
                    ) {
                        Seq::<Format>::empty()
                    } else {
                        audio_group(fs@, k)
                    }),
                keys_desc_from(fs@, None) == ks + keys_desc_from(fs@, bound),
                out@.unref() == groups_concat(fs@, ks),
            ensures
                forall|i: int, j: int|
                    0 <= i < j < out@.len() ==> abr_key(*out@[i]) >= abr_key(*out@[j]),
                forall|k: u64|
                    #[trigger] by_key(out@.unref(), k) == audio_group(
                        fs@,
                        k,
                    ),
                out@.unref() == audio_by_bitrate(fs@),
            decreases key_measure(bound),
        {
            let next = max_key_below(fs, bound);
            proof {
                lemma_top_key_below_is(fs@, bound, next);
            }
            match next {
                None => {
                    assert(ks + keys_desc_from(fs@, bound) =~= ks);
                    assert forall|k: u64|
                        #[trigger] by_key(out@.unref(), k) == audio_group(
                            fs@,
                            k,
                        ) by {
                        if below_key(k, bound) {
                            lemma_absent_key(fs@, k);
                        }
                    }
                    break;
                },
                Some(h) => {
                    let group = collect_audio_group(fs, h);
                    let ghost old_out = out@;
                    let ghost g = audio_group(fs@, h);
                    proof {
                        assert forall|i: int| 0 <= i < g.len() implies abr_key(#[trigger] g[i])
                            == h by {
                            fs@.lemma_filter_pred(
                                |f: Format| spec_is_audio_only(f) && abr_key(f) == h,
                                i,
                            );
                        }
                    }
                    let mut j: usize = 0;
                    while j < group.len()
                        invariant
                            j <= group@.len(),
                            group@.unref() == g,
                            out@ == old_out + group@.take(j as int),
                        decreases group@.len() - j,
                    {
                        out.push(group[j]);
                        assert(group@.take(j + 1) =~= group@.take(j as int).push(group@[j as int]));
                        j = j + 1;
                    }
                    proof {
                        assert(group@.take(group@.len() as int) =~= group@);
                        assert(out@.unref() =~= old_out.unref() + g);
                        assert forall|i: int, jj: int|
                            0 <= i < jj < out@.len() implies abr_key(*out@[i]) >= abr_key(
                                *out@[jj],
                            ) by {
                            if jj >= old_out.len() {
                                assert(*out@[jj] == g[jj - old_out.len()]);
                                if i >= old_out.len() {
                                    assert(*out@[i] == g[i - old_out.len()]);
                                } else {
                                    assert(out@[i] == old_out[i]);
                                }
                            } else {
                                assert(out@[i] == old_out[i]);
                                assert(out@[jj] == old_out[jj]);
                            }
                        }
                        assert forall|i: int| 0 <= i < out@.len() implies abr_key(
                            *#[trigger] out@[i],
                        ) >= h by {
                            if i >= old_out.len() {
                                assert(*out@[i] == g[i - old_out.len()]);
                            } else {
                                assert(out@[i] == old_out[i]);
                            }
                        }
                        assert forall|k: u64|
                            #[trigger] by_key(out@.unref(), k) == (if below_key(
                                k,
                                Some(h),
                            ) {
                                Seq::<Format>::empty()
                            } else {
                                audio_group(fs@, k)
                            }) by {
                            let p = |f: Format| abr_key(f) == k;
                            Seq::filter_distributes_over_add(old_out.unref(), g, p);
                            lemma_audio_group_by_key(fs@, h, k);
                            assert(by_key(old_out.unref(), k) == (if below_key(k, bound) {
                                Seq::<Format>::empty()
                            } else {
                                audio_group(fs@, k)
                            }));
                            if k != h && !below_key(k, Some(h)) && below_key(k, bound) {
                                lemma_absent_key(fs@, k);
                            }
                            if k == h {
                                assert(old_out.unref().filter(p) =~= Seq::<Format>::empty());
                                assert(Seq::<Format>::empty() + g =~= g);
                            } else {
                                assert(old_out.unref().filter(p) + Seq::<Format>::empty()
                                    =~= old_out.unref().filter(p));
                            }
                        }
                        assert(keys_desc_from(fs@, bound) == seq![h] + keys_desc_from(fs@, Some(h)));
                        assert(ks + (seq![h] + keys_desc_from(fs@, Some(h))) =~= ks.push(h)
                            + keys_desc_from(fs@, Some(h)));
                        assert(ks.push(h).drop_last() =~= ks);
                        assert(groups_concat(fs@, ks.push(h)) == groups_concat(fs@, ks) + g);
                        ks = ks.push(h);
                    }
                    bound = Some(h);
                },
            }
        }
        out
    }
}

} // verus!

verus! {

/// `h` fits under the height cap, if there is one.
pub open spec fn fits(h: u32, max: Option<u32>) -> bool {
    match max {
        None => true,
        Some(m) => h <= m,
    }
}

/// `h` is the greatest video height in `fs` that fits under the cap.
pub open spec fn is_best_height(fs: Seq<Format>, max: Option<u32>, h: u32) -> bool {
    &&& present_height(fs, h)
    &&& fits(h, max)
    &&& forall|h2: u32| present_height(fs, h2) && fits(h2, max) ==> h2 <= h
}

/// The greatest video height in `fs` that fits under the cap, if any fits.
pub open spec fn best_height(fs: Seq<Format>, max: Option<u32>) -> Option<u32> {
    if exists|h: u32| is_best_height(fs, max, h) {
        Some(choose|h: u32| is_best_height(fs, max, h))
    } else {
        None
    }
}

/// The yt-dlp format selection for the best video up to height `h`, with the best audio.
pub open spec fn capped_format_text(h: nat) -> Seq<char> {
    "bestvideo[height<="@ + text::decimal(h) + "]+bestaudio/best"@
}

/// The format selection for video up to height `h`.
pub fn capped_format(h: u32) -> (r: String)
    ensures
        r@ == capped_format_text(h as nat),
{
    let mut s = String::new();
    push_str(&mut s, "bestvideo[height<=");
    push_decimal(&mut s, h as u64);
    push_str(&mut s, "]+bestaudio/best");
    assert(s@ =~= capped_format_text(h as nat));
    s
}

impl VideoInfo {
    /// The format selection for the tallest video that fits under the cap.
    pub fn get_best_format_for_resolution(&self, max_height: Option<u32>) -> (r: Option<String>)
        ensures
            r is Some <==> best_height(self.formats@, max_height) is Some,
            r matches Some(s) ==> s@ == capped_format_text(
                best_height(self.formats@, max_height)->0 as nat,
            ),
    {
        let fs = &self.formats;
        let mut best: Option<u32> = None;
        let mut i: usize = 0;
        while i < fs.len()
            invariant
                fs == &self.formats,
                i <= fs@.len(),
                best matches Some(h) ==> present_height(fs@, h) && fits(h, max_height),
                forall|m: int, h2: u32|
                    0 <= m < i && #[trigger] video_at(fs@[m], h2) && fits(h2, max_height) ==> (
                    best matches Some(b) && h2 <= b),
            decreases fs@.len() - i,
        {
            let f = &fs[i];
            if f.has_video() {
                match f.height {
                    Some(h) => {
                        let ok = match max_height {
                            None => true,
                            Some(m) => h <= m,
                        };
                        if ok {
                            assert(video_at(fs@[i as int], h));
                            match best {
                                None => {
                                    best = Some(h);
                                },
                                Some(b) => {
                                    if h > b {
                                        best = Some(h);
                                    }
                                },
                            }
                        }
                    },
                    None => {},
                }
            }
            i = i + 1;
        }
        match best {
            None => {
                proof {
                    if exists|h: u32| is_best_height(fs@, max_height, h) {
                        let h = choose|h: u32| is_best_height(fs@, max_height, h);
                        let m = choose|m: int| 0 <= m < fs@.len() && video_at(fs@[m], h);
                        assert(video_at(fs@[m], h));
                    }
                }
                None
            },
            Some(b) => {
                proof {
                    assert forall|h2: u32| present_height(fs@, h2) && fits(h2, max_height) implies h2
                        <= b by {
                        let m = choose|m: int| 0 <= m < fs@.len() && video_at(fs@[m], h2);
                        assert(video_at(fs@[m], h2));
                    }
                    assert(is_best_height(fs@, max_height, b));
                    let c = choose|h: u32| is_best_height(fs@, max_height, h);
                    assert(c == b);
                }
                Some(capped_format(b))
            },
        }
    }
}

/// An entry of a playlist.
pub struct PlaylistEntry {
    pub id: String,
    pub title: String,
    pub duration_secs: Option<u64>,
    pub url: Option<String>,
}

/// A playlist: its title and entries.
pub struct PlaylistInfo {
    pub id: Option<String>,
    pub title: String,
    pub entries: Vec<PlaylistEntry>,
    pub playlist_count: Option<u32>,
}

/// The quality presets for playlist downloads.
#[derive(Debug, Clone, Copy, PartialEq, Eq, Structural)]
pub enum QualityPreset {
    God,
    Ultra,
    Pro,
    High,
    Medium,
    Low,
}

/// The yt-dlp format selection of each preset.
pub open spec fn preset_format_text(p: QualityPreset) -> Seq<char> {
    match p {
        QualityPreset::God => "bestvideo+bestaudio/best"@,
        QualityPreset::Ultra => "bestvideo[height<=2160]+bestaudio/best[height<=2160]"@,
        QualityPreset::Pro => "bestvideo[height<=1440]+bestaudio/best[height<=1440]"@,
        QualityPreset::High => "bestvideo[height<=1080]+bestaudio/best[height<=1080]"@,
        QualityPreset::Medium => "bestvideo[height<=720]+bestaudio/best[height<=720]"@,
        QualityPreset::Low => "bestvideo[height<=480]+bestaudio/best[height<=480]"@,
    }
}

/// The label of each preset.
pub open spec fn preset_label_text(p: QualityPreset) -> Seq<char> {
    match p {
        QualityPreset::God => "👑 GOD (Maximum Quality)"@,
        QualityPreset::Ultra => "🔥 Ultra (4K)"@,
        QualityPreset::Pro => "💎 PRO (2K)"@,
        QualityPreset::High => "⭐ High (1080p)"@,
        QualityPreset::Medium => "📺 Medium (720p)"@,
        QualityPreset::Low => "📱 Low (480p)"@,
    }
}

impl QualityPreset {
    /// The yt-dlp format selection of this preset.
    pub fn get_format_string(&self) -> (r: String)
        ensures
            r@ == preset_format_text(*self),
    {
        match self {
            QualityPreset::God => "bestvideo+bestaudio/best".to_owned(),
            QualityPreset::Ultra => "bestvideo[height<=2160]+bestaudio/best[height<=2160]".to_owned(),
            QualityPreset::Pro => "bestvideo[height<=1440]+bestaudio/best[height<=1440]".to_owned(),
            QualityPreset::High => "bestvideo[height<=1080]+bestaudio/best[height<=1080]".to_owned(),
            QualityPreset::Medium => "bestvideo[height<=720]+bestaudio/best[height<=720]".to_owned(),
            QualityPreset::Low => "bestvideo[height<=480]+bestaudio/best[height<=480]".to_owned(),
        }
    }

    /// The label of this preset.
    pub fn label(&self) -> (r: &'static str)
        ensures
            r@ == preset_label_text(*self),
    {
        match self {
            QualityPreset::God => "👑 GOD (Maximum Quality)",
            QualityPreset::Ultra => "🔥 Ultra (4K)",
            QualityPreset::Pro => "💎 PRO (2K)",
            QualityPreset::High => "⭐ High (1080p)",
            QualityPreset::Medium => "📺 Medium (720p)",
            QualityPreset::Low => "📱 Low (480p)",
        }
    }
}

/// The audio formats that downloads can convert to.
#[derive(Debug, Clone, Copy, PartialEq, Eq, Structural)]
pub enum AudioFormat {
    Mp3,
    Wav,
    Ogg,
    Flac,
    M4a,
    Opus,
}

/// The file extension of each audio format.
pub open spec fn extension_text(f: AudioFormat) -> Seq<char> {
    match f {
        AudioFormat::Mp3 => "mp3"@,
        AudioFormat::Wav => "wav"@,
        AudioFormat::Ogg => "ogg"@,
        AudioFormat::Flac => "flac"@,
        AudioFormat::M4a => "m4a"@,
        AudioFormat::Opus => "opus"@,
    }
}

impl AudioFormat {
    /// The file extension of this format.
    pub fn extension(&self) -> (r: &'static str)
        ensures
            r@ == extension_text(*self),
    {
        match self {
            AudioFormat::Mp3 => "mp3",
            AudioFormat::Wav => "wav",
            AudioFormat::Ogg => "ogg",
            AudioFormat::Flac => "flac",
            AudioFormat::M4a => "m4a",
            AudioFormat::Opus => "opus",
        }
    }

    /// All formats, in the order the menus offer them.
    pub fn all() -> (r: Vec<AudioFormat>)
        ensures
            r@ == seq![
                AudioFormat::Mp3,
                AudioFormat::M4a,
                AudioFormat::Ogg,
                AudioFormat::Flac,
                AudioFormat::Wav,
                AudioFormat::Opus,
            ],
    {
        let mut v = Vec::new();
        v.push(AudioFormat::Mp3);
        v.push(AudioFormat::M4a);
        v.push(AudioFormat::Ogg);
        v.push(AudioFormat::Flac);
        v.push(AudioFormat::Wav);
        v.push(AudioFormat::Opus);
        assert(v@ =~= seq![
            AudioFormat::Mp3,
            AudioFormat::M4a,
            AudioFormat::Ogg,
            AudioFormat::Flac,
            AudioFormat::Wav,
            AudioFormat::Opus,
        ]);
        v
    }
}

} // verus!

verus! {

/// The title of a playlist, as the first line of yt-dlp's flat listing
/// gives it; "Playlist" when it does not.
pub open spec fn playlist_title_of(first_line: Option<Seq<char>>) -> Seq<char> {
    match first_line {
        Some(l) => match crate::json::json_str_field(l, "playlist_title"@) {
            Some(Some(t)) => t,
            _ => "Playlist"@,
        },
        None => "Playlist"@,
    }
}

/// The playlist made of `entries`, titled by the first line of yt-dlp's listing.
pub fn playlist_from(entries: Vec<PlaylistEntry>, first_line: Option<&str>) -> (r: PlaylistInfo)
    ensures
        r.id is None,
        r.title@ == playlist_title_of(
            match first_line {
                Some(l) => Some(l@),
                None => None,
            },
        ),
        r.entries@ == entries@,
        r.playlist_count is None,
{
    let field = match first_line {
        Some(l) => Some(crate::json::str_field(l, "playlist_title")),
        None => None,
    };
    PlaylistInfo { id: None, title: playlist_title(field), entries, playlist_count: None }
}

/// The title of a playlist, given what the first line of the listing says
/// under "playlist_title" (none when there is no line): that string, else
/// "Playlist".
pub fn playlist_title(field: Option<Result<Option<String>, crate::json::JsonError>>) -> (r: String)
    ensures
        r@ == (match field {
            Some(Ok(Some(t))) => t@,
            _ => "Playlist"@,
        }),
{
    match field {
        Some(Ok(Some(t))) => t,
        _ => "Playlist".to_owned(),
    }
}


/// A format selection that takes the best video no taller than `h` (its
/// digits) with the best audio, else the best single file no taller than `h`.
pub open spec fn capped_selection(h: Seq<char>) -> Seq<char> {
    "bestvideo[height<="@ + h + "]+bestaudio/best[height<="@ + h + "]"@
}

/// The height that a preset's label names: 4K, 2K, 1080p, 720p, 480p; none
/// for the uncapped preset.
pub open spec fn preset_cap(p: QualityPreset) -> nat {
    match p {
        QualityPreset::God => 0,
        QualityPreset::Ultra => 2160,
        QualityPreset::Pro => 1440,
        QualityPreset::High => 1080,
        QualityPreset::Medium => 720,
        QualityPreset::Low => 480,
    }
}

/// `s` ends with `t`.
pub open spec fn ends_with(s: Seq<char>, t: Seq<char>) -> bool {
    s.len() >= t.len() && s.subrange(s.len() - t.len(), s.len() as int) == t
}

/// Each capped preset selects formats no taller than the height its label
/// names: the label ends with that height's resolution class in brackets,
/// and the selection caps video and fallback at that height's digits. The
/// caps fall strictly from Ultra to Low, and the uncapped preset takes the
/// best video and audio.
pub proof fn law_preset_caps_match_labels(p: QualityPreset)
    ensures
        p != QualityPreset::God ==> preset_format_text(p) == capped_selection(
            text::decimal(preset_cap(p)),
        ),
        p != QualityPreset::God ==> ends_with(
            preset_label_text(p),
            "("@ + resolution_label(preset_cap(p)) + ")"@,
        ),
        p == QualityPreset::God ==> preset_format_text(p) == "bestvideo+bestaudio/best"@,
        preset_cap(QualityPreset::Ultra) > preset_cap(QualityPreset::Pro) > preset_cap(
            QualityPreset::High,
        ) > preset_cap(QualityPreset::Medium) > preset_cap(QualityPreset::Low),
{
    reveal_with_fuel(text::decimal, 5);
    let d = text::decimal(preset_cap(p));
    let f = preset_format_text(p);
    let l = preset_label_text(p);
    let tail = "("@ + resolution_label(preset_cap(p)) + ")"@;
    reveal_strlit("bestvideo[height<=");
    reveal_strlit("]+bestaudio/best[height<=");
    reveal_strlit("]");
    reveal_strlit("(");
    reveal_strlit(")");
    match p {
        QualityPreset::God => {},
        QualityPreset::Ultra => {
            reveal_strlit("bestvideo[height<=2160]+bestaudio/best[height<=2160]");
            reveal_strlit("🔥 Ultra (4K)");
            reveal_strlit("4K");
            assert(d =~= seq!['2', '1', '6', '0']);
            assert(f =~= capped_selection(d));
            assert(l.subrange(l.len() - tail.len(), l.len() as int) =~= tail);
        },
        QualityPreset::Pro => {
            reveal_strlit("bestvideo[height<=1440]+bestaudio/best[height<=1440]");
            reveal_strlit("💎 PRO (2K)");
            reveal_strlit("2K");
            assert(d =~= seq!['1', '4', '4', '0']);
            assert(f =~= capped_selection(d));
            assert(l.subrange(l.len() - tail.len(), l.len() as int) =~= tail);
        },
        QualityPreset::High => {
            reveal_strlit("bestvideo[height<=1080]+bestaudio/best[height<=1080]");
            reveal_strlit("⭐ High (1080p)");
            reveal_strlit("1080p");
            assert(d =~= seq!['1', '0', '8', '0']);
            assert(f =~= capped_selection(d));
            assert(l.subrange(l.len() - tail.len(), l.len() as int) =~= tail);
        },
        QualityPreset::Medium => {
            reveal_strlit("bestvideo[height<=720]+bestaudio/best[height<=720]");
            reveal_strlit("📺 Medium (720p)");
            reveal_strlit("720p");
            assert(d =~= seq!['7', '2', '0']);
            assert(f =~= capped_selection(d));
            assert(l.subrange(l.len() - tail.len(), l.len() as int) =~= tail);
        },
        QualityPreset::Low => {
            reveal_strlit("bestvideo[height<=480]+bestaudio/best[height<=480]");
            reveal_strlit("📱 Low (480p)");
            reveal_strlit("480p");
            assert(d =~= seq!['4', '8', '0']);
            assert(f =~= capped_selection(d));
            assert(l.subrange(l.len() - tail.len(), l.len() as int) =~= tail);
        },
    }
}

/// A height's resolution class goes by fixed thresholds: 8K from 4320, 4K
/// from 2160, 2K from 1440, then 1080p, 720p, 480p, 360p and 240p; below
/// 240 the height's own digits and "p". Heights in different classes get
/// different labels.
pub proof fn law_resolution_classes(h: nat, k: nat)
    ensures
        h >= 4320 ==> resolution_label(h) == "8K"@,
        2160 <= h < 4320 ==> resolution_label(h) == "4K"@,
        1440 <= h < 2160 ==> resolution_label(h) == "2K"@,
        1080 <= h < 1440 ==> resolution_label(h) == "1080p"@,
        720 <= h < 1080 ==> resolution_label(h) == "720p"@,
        480 <= h < 720 ==> resolution_label(h) == "480p"@,
        360 <= h < 480 ==> resolution_label(h) == "360p"@,
        240 <= h < 360 ==> resolution_label(h) == "240p"@,
        h < 240 ==> resolution_label(h) == text::decimal(h) + "p"@,
        resolution_label(4320) != resolution_label(2160),
        resolution_label(2160) != resolution_label(1440),
        resolution_label(1440) != resolution_label(1080),
{
    reveal_strlit("8K");
    reveal_strlit("4K");
    reveal_strlit("2K");
    reveal_strlit("1080p");
    assert(resolution_label(2160)[0] != resolution_label(1440)[0]);
    assert(resolution_label(4320)[0] != resolution_label(2160)[0]);
    assert(resolution_label(1440).len() != resolution_label(1080).len());
}

} // verus!
