//! The logic of the web interface: how sizes and options are shown, which
//! names a request may give, and the table of downloads that the browser
//! polls.

use vstd::prelude::*;
use crate::formats::{channel_text, AudioFormat, Format, QualityPreset, VideoInfo};
use crate::paths::joined_path;
use crate::search::{result_url, SearchResult};
use crate::text;
use crate::text::{div_round_even_u128, matches_at, opt_view, push_decimal, push_str, push_tenths};

verus! {

/// A byte count as the web interface shows it: GB and MB to one decimal,
/// KB whole, ties to even.
pub open spec fn web_size_text(s: nat) -> Seq<char> {
    if s >= 1073741824 {
        text::tenths_text(text::div_round_even(s * 10, 1073741824)) + " GB"@
    } else if s >= 1048576 {
        text::tenths_text(text::div_round_even(s * 10, 1048576)) + " MB"@
    } else if s >= 1024 {
        text::decimal(text::div_round_even(s, 1024)) + " KB"@
    } else {
        text::decimal(s) + " B"@
    }
}

/// `bytes` as the web interface shows sizes.
pub fn format_size(bytes: u64) -> (r: String)
    ensures
        r@ == web_size_text(bytes as nat),
{
    let mut out = String::new();
    if bytes >= 1048576 {
        let unit: u128 = if bytes >= 1073741824 {
            1073741824
        } else {
            1048576
        };
        let a: u128 = bytes as u128 * 10;
        let t = div_round_even_u128(a, unit);
        assert(t <= u64::MAX) by {
            assert(a / unit <= a / 1048576) by (nonlinear_arith)
                requires
                    unit >= 1048576,
            ;
        }
        push_tenths(&mut out, t as u64);
        if bytes >= 1073741824 {
            push_str(&mut out, " GB");
        } else {
            push_str(&mut out, " MB");
        }
    } else if bytes >= 1024 {
        let t = div_round_even_u128(bytes as u128, 1024);
        assert(t <= u64::MAX) by {
            assert((bytes as u128) / 1024 <= bytes as u128);
        }
        push_decimal(&mut out, t as u64);
        push_str(&mut out, " KB");
    } else {
        push_decimal(&mut out, bytes);
        push_str(&mut out, " B");
    }
    out
}

/// Where the web interface saves files: an "ONYX" folder in the user's
/// download folder, else in "Downloads" under the home folder, else in the
/// current directory.
pub open spec fn web_download_path(download: Option<Seq<char>>, home: Option<Seq<char>>) -> Seq<char> {
    let base = match download {
        Some(d) => d,
        None => match home {
            Some(h) => joined_path(h, "Downloads"@),
            None => "."@,
        },
    };
    joined_path(base, "ONYX"@)
}

/// The save folder, given the download and home folders where known.
pub fn download_path_in(download: Option<String>, home: Option<String>) -> (r: String)
    ensures
        r@ == web_download_path(opt_view(download), opt_view(home)),
{
    let base = match download {
        Some(d) => d,
        None => match home {
            Some(h) => crate::paths::path_join(h.as_str(), "Downloads"),
            None => ".".to_owned(),
        },
    };
    proof {
        reveal_strlit(".");
    }
    crate::paths::path_join(base.as_str(), "ONYX")
}

/// The save folder of the web interface, from the user's folders; what
/// they are depends on the environment.
pub fn get_download_path() -> (r: String)
    ensures
        exists|d: Option<Seq<char>>, h: Option<Seq<char>>| r@ == web_download_path(d, h),
{
    let d = crate::paths::download_dir();
    let h = crate::paths::home_dir();
    let r = download_path_in(d, h);
    assert(r@ == web_download_path(opt_view(d), opt_view(h)));
    r
}

/// The text of `s` in upper case by `str::to_uppercase`.
pub uninterp spec fn uppercase_of(s: Seq<char>) -> Seq<char>;

/// `s.to_uppercase()`. The contract claims only that the result is the
/// one that `uppercase_of` names for `s`.
#[verifier::external_body]
pub(crate) fn to_uppercase(s: &str) -> (r: String)
    ensures
        r@ == uppercase_of(s@),
{
    s.to_uppercase()
}

/// A format offered by the web interface.
pub struct FormatOption {
    pub format_string: String,
    pub label: String,
    pub size: String,
}

/// A format can be offered on the web: it does not say it has no video,
/// and it has a height.
pub open spec fn web_offers(f: Format) -> bool {
    !(f.vcodec matches Some(v) && v@ == "none"@) && f.height is Some
}

/// The label of an offered format: its height and its container in
/// capitals ("MP4" when none is given).
pub open spec fn web_label(f: Format) -> Seq<char> {
    text::decimal(f.height->0 as nat) + "p "@ + uppercase_of(
        match f.ext {
            Some(e) => e@,
            None => "mp4"@,
        },
    )
}

/// The size shown for an offered format: exact, else approximate, else
/// "Unknown".
pub open spec fn web_format_size(f: Format) -> Seq<char> {
    match f.filesize {
        Some(s) => web_size_text(s as nat),
        None => match f.filesize_approx {
            Some(s) => web_size_text(s as nat),
            None => "Unknown"@,
        },
    }
}

/// How many formats the web interface offers at most.
pub open spec fn web_format_limit() -> nat {
    8
}

/// The offered formats among `fs`, in order, each height once (its first
/// format), before the limit is applied.
pub open spec fn web_kept(fs: Seq<Format>) -> Seq<Format>
    decreases fs.len(),
{
    if fs.len() == 0 {
        Seq::empty()
    } else {
        let k = web_kept(fs.drop_last());
        let f = fs.last();
        if web_offers(f) && !k.map_values(|g: Format| g.height).contains(f.height) {
            k.push(f)
        } else {
            k
        }
    }
}

/// The formats that the web interface offers for `fs`: the first eight
/// kept ones.
pub open spec fn web_formats(fs: Seq<Format>) -> Seq<Format> {
    let k = web_kept(fs);
    if k.len() <= web_format_limit() {
        k
    } else {
        k.take(web_format_limit() as int)
    }
}

/// An option as text: format id, label and size.
pub open spec fn option_view(o: FormatOption) -> (Seq<char>, Seq<char>, Seq<char>) {
    (o.format_string@, o.label@, o.size@)
}

/// The option of an offered format, as text.
pub open spec fn option_of(f: Format) -> (Seq<char>, Seq<char>, Seq<char>) {
    (f.format_id@, web_label(f), web_format_size(f))
}

fn web_option(f: &Format) -> (r: FormatOption)
    requires
        web_offers(*f),
    ensures
        option_view(r) == option_of(*f),
{
    let h = match f.height {
        Some(h) => h,
        None => 0,
    };
    let ext = match &f.ext {
        Some(e) => to_uppercase(e.as_str()),
        None => to_uppercase("mp4"),
    };
    let mut label = String::new();
    push_decimal(&mut label, h as u64);
    push_str(&mut label, "p ");
    push_str(&mut label, ext.as_str());
    let size = match f.filesize {
        Some(s) => format_size(s),
        None => match f.filesize_approx {
            Some(s) => format_size(s),
            None => "Unknown".to_owned(),
        },
    };
    FormatOption { format_string: f.format_id.clone(), label, size }
}

/// Whether `h` is among `v`.
fn has_height(v: &Vec<Option<u32>>, h: Option<u32>) -> (r: bool)
    ensures
        r == v@.contains(h),
{
    let mut i: usize = 0;
    while i < v.len()
        invariant
            i <= v@.len(),
            forall|k: int| 0 <= k < i ==> v@[k] != h,
        decreases v@.len() - i,
    {
        if v[i] == h {
            return true;
        }
        i = i + 1;
    }
    false
}

/// Once eight are kept, more formats keep the first eight as they were.
proof fn lemma_kept_prefix(fs: Seq<Format>, i: int)
    requires
        0 <= i <= fs.len(),
    ensures
        web_kept(fs.take(i)).len() <= web_kept(fs).len(),
        web_kept(fs).take(web_kept(fs.take(i)).len() as int) == web_kept(fs.take(i)),
    decreases fs.len() - i,
{
    if i < fs.len() {
        lemma_kept_prefix(fs, i + 1);
        assert(fs.take(i + 1).drop_last() =~= fs.take(i));
        let a = web_kept(fs.take(i));
        let b = web_kept(fs.take(i + 1));
        assert(b.take(a.len() as int) =~= a);
        assert(web_kept(fs).take(a.len() as int) =~= web_kept(fs).take(b.len() as int).take(
            a.len() as int,
        ));
    } else {
        assert(fs.take(i) =~= fs);
        assert(web_kept(fs).take(web_kept(fs).len() as int) =~= web_kept(fs));
    }
}

/// The formats that the web interface offers for a video: those that do
/// not say they have no video and have a height, one per height (the
/// first), at most eight, in the order given.
pub fn format_options(info: &VideoInfo) -> (r: Vec<FormatOption>)
    ensures
        r@.map_values(|o: FormatOption| option_view(o)) == web_formats(info.formats@).map_values(
            |f: Format| option_of(f),
        ),
{
    let fs = &info.formats;
    let ghost mut kept: Seq<Format> = Seq::empty();
    let mut heights: Vec<Option<u32>> = Vec::new();
    let mut out: Vec<FormatOption> = Vec::new();
    let mut i: usize = 0;
    proof {
        assert(fs@.take(0) =~= Seq::<Format>::empty());
    }
    while i < fs.len() && heights.len() < 8
        invariant
            i <= fs@.len(),
            kept == web_kept(fs@.take(i as int)),
            heights@ == kept.map_values(|g: Format| g.height),
            kept.len() <= 8,
            out@.map_values(|o: FormatOption| option_view(o)) == kept.map_values(
                |f: Format| option_of(f),
            ),
        decreases fs@.len() - i,
    {
        let f = &fs[i];
        proof {
            assert(fs@.take(i + 1).drop_last() =~= fs@.take(i as int));
            assert(fs@.take(i + 1).last() == fs@[i as int]);
            reveal_strlit("none");
        }
        let offered = match &f.vcodec {
            Some(v) => !text::str_eq(v.as_str(), "none"),
            None => true,
        } && f.height.is_some();
        if offered && !has_height(&heights, f.height) {
            let o = web_option(f);
            let ghost before = out@;
            let ghost before_kept = kept;
            assert(before.map_values(|o: FormatOption| option_view(o)).len() == before.len());
            assert(before_kept.map_values(|f: Format| option_of(f)).len() == before_kept.len());
            out.push(o);
            heights.push(f.height);
            proof {
                kept = kept.push(fs@[i as int]);
            }
            assert forall|k: int| 0 <= k < out@.len() implies option_view(out@[k]) == option_of(
                kept[k],
            ) by {
                assert(before.map_values(|o: FormatOption| option_view(o)).len() == before.len());
                assert(before_kept.map_values(|f: Format| option_of(f)).len() == before_kept.len());
                if k < before.len() {
                    assert(before.map_values(|o: FormatOption| option_view(o))[k]
                        == before_kept.map_values(|f: Format| option_of(f))[k]);
                }
            }
            assert(out@.map_values(|o: FormatOption| option_view(o)) =~= kept.map_values(
                |f: Format| option_of(f),
            ));
            assert(heights@ =~= kept.map_values(|g: Format| g.height));
        }
        i = i + 1;
    }
    proof {
        lemma_kept_prefix(fs@, i as int);
        if kept.len() < 8 {
            assert(fs@.take(i as int) =~= fs@);
        } else {
            assert(web_kept(fs@).take(8) == kept);
        }
        assert(web_formats(fs@) == kept);
    }
    out
}

/// A search result as the web interface sends it.
pub struct SearchItem {
    pub id: String,
    pub title: String,
    pub channel: String,
    pub duration: String,
    pub thumbnail: String,
    pub url: String,
}

/// How many results a web search asks for.
pub open spec fn web_search_count() -> u32 {
    20
}

/// The thumbnail shown for a result: as yt-dlp gave it, else YouTube's
/// "hqdefault" image of the id.
pub open spec fn result_thumbnail(r: SearchResult) -> Seq<char> {
    match r.thumbnail {
        Some(t) => t@,
        None => "https://i.ytimg.com/vi/"@ + r.id@ + "/hqdefault.jpg"@,
    }
}

/// The duration shown for a result: as yt-dlp wrote it, else as a clock
/// reading of whole minutes and seconds, else "?:??".
pub open spec fn result_duration(r: SearchResult) -> Seq<char> {
    match r.duration_string {
        Some(d) => d@,
        None => match r.duration_secs {
            Some(s) => crate::search::minutes_text(s as nat),
            None => "?:??"@,
        },
    }
}

/// A search result as the web interface sends it.
pub fn search_item(r: &SearchResult) -> (out: SearchItem)
    ensures
        out.id@ == r.id@,
        out.title@ == r.title@,
        out.channel@ == channel_text(r.channel, r.uploader),
        out.duration@ == result_duration(*r),
        out.thumbnail@ == result_thumbnail(*r),
        out.url@ == result_url(*r),
{
    let thumbnail = match &r.thumbnail {
        Some(t) => t.clone(),
        None => {
            let mut t = text::concat("https://i.ytimg.com/vi/", r.id.as_str());
            push_str(&mut t, "/hqdefault.jpg");
            t
        },
    };
    SearchItem {
        id: r.id.clone(),
        title: r.title.clone(),
        channel: r.get_channel(),
        duration: r.get_duration(),
        thumbnail,
        url: r.get_url(),
    }
}

/// The output format that a web request names: "mp3", "m4a", "flac" or
/// "wav"; anything else means MP3.
pub open spec fn named_audio_format(name: Seq<char>) -> AudioFormat {
    if name == "m4a"@ {
        AudioFormat::M4a
    } else if name == "flac"@ {
        AudioFormat::Flac
    } else if name == "wav"@ {
        AudioFormat::Wav
    } else {
        AudioFormat::Mp3
    }
}

/// The output format that a web request names.
pub fn audio_format_named(name: &str) -> (r: AudioFormat)
    ensures
        r == named_audio_format(name@),
{
    if text::str_eq(name, "m4a") {
        AudioFormat::M4a
    } else if text::str_eq(name, "flac") {
        AudioFormat::Flac
    } else if text::str_eq(name, "wav") {
        AudioFormat::Wav
    } else {
        AudioFormat::Mp3
    }
}

/// The preset that a web request names: "god", "ultra", "pro", "high" or
/// "medium"; anything else (also "low") means High.
pub open spec fn named_preset(name: Seq<char>) -> QualityPreset {
    if name == "god"@ {
        QualityPreset::God
    } else if name == "ultra"@ {
        QualityPreset::Ultra
    } else if name == "pro"@ {
        QualityPreset::Pro
    } else if name == "medium"@ {
        QualityPreset::Medium
    } else {
        QualityPreset::High
    }
}

/// The preset that a web request names.
pub fn preset_named(name: &str) -> (r: QualityPreset)
    ensures
        r == named_preset(name@),
{
    if text::str_eq(name, "god") {
        QualityPreset::God
    } else if text::str_eq(name, "ultra") {
        QualityPreset::Ultra
    } else if text::str_eq(name, "pro") {
        QualityPreset::Pro
    } else if text::str_eq(name, "medium") {
        QualityPreset::Medium
    } else {
        QualityPreset::High
    }
}

/// Whether a playlist request asks for audio only: its preset is "audio".
pub fn is_audio_preset(name: &str) -> (r: bool)
    ensures
        r == (name@ == "audio"@),
{
    text::str_eq(name, "audio")
}

/// A download that the web interface runs. The progress is held in
/// hundredths of a percent.
pub struct DownloadState {
    pub id: String,
    pub title: String,
    pub status: String,
    pub progress: u32,
    pub eta: Option<String>,
}

/// What a progress request is answered.
pub struct ProgressReply {
    pub status: String,
    pub progress: u32,
    pub eta: Option<String>,
}

/// A download as text: title, status, progress and remaining time.
pub open spec fn state_view(d: DownloadState) -> (Seq<char>, Seq<char>, u32, Option<Seq<char>>) {
    (d.title@, d.status@, d.progress, opt_view(d.eta))
}

/// The first position at or after `i` of the download `id`.
pub open spec fn entry_from(es: Seq<DownloadState>, id: Seq<char>, i: int) -> Option<int>
    decreases es.len() - i,
{
    if i < 0 || i >= es.len() {
        None
    } else if es[i].id@ == id {
        Some(i)
    } else {
        entry_from(es, id, i + 1)
    }
}

/// The position of the download `id`, the first where it occurs twice.
pub open spec fn entry_of(es: Seq<DownloadState>, id: Seq<char>) -> Option<int> {
    entry_from(es, id, 0)
}

/// `k` is the first position of `id` from `i` on.
proof fn lemma_entry_at(es: Seq<DownloadState>, id: Seq<char>, i: int, k: int)
    requires
        0 <= i <= k < es.len(),
        es[k].id@ == id,
        forall|j: int| i <= j < k ==> es[j].id@ != id,
    ensures
        entry_from(es, id, i) == Some(k),
    decreases k - i,
{
    if i < k {
        lemma_entry_at(es, id, i + 1, k);
    }
}

/// `id` does not occur from `i` on.
proof fn lemma_entry_none(es: Seq<DownloadState>, id: Seq<char>, i: int)
    requires
        0 <= i <= es.len(),
        forall|j: int| i <= j < es.len() ==> es[j].id@ != id,
    ensures
        entry_from(es, id, i) is None,
    decreases es.len() - i,
{
    if i < es.len() {
        lemma_entry_none(es, id, i + 1);
    }
}

/// What `entry_of` gives: the first position of `id`, or none.
proof fn lemma_entry_of(es: Seq<DownloadState>, id: Seq<char>)
    ensures
        entry_of(es, id) matches Some(k) ==> 0 <= k < es.len() && es[k].id@ == id && forall|
            j: int,
        |
            0 <= j < k ==> es[j].id@ != id,
        entry_of(es, id) is None ==> forall|j: int| 0 <= j < es.len() ==> es[j].id@ != id,
{
    if exists|k: int| 0 <= k < es.len() && es[k].id@ == id {
        let k = choose|k: int| 0 <= k < es.len() && es[k].id@ == id;
        lemma_first(es, id, k);
    } else {
        lemma_entry_none(es, id, 0);
    }
}

proof fn lemma_first(es: Seq<DownloadState>, id: Seq<char>, k: int)
    requires
        0 <= k < es.len(),
        es[k].id@ == id,
    ensures
        entry_of(es, id) matches Some(m) ==> 0 <= m < es.len() && es[m].id@ == id && forall|
            j: int,
        |
            0 <= j < m ==> es[j].id@ != id,
        entry_of(es, id) is Some,
    decreases k,
{
    if exists|j: int| 0 <= j < k && es[j].id@ == id {
        let j = choose|j: int| 0 <= j < k && es[j].id@ == id;
        lemma_first(es, id, j);
    } else {
        lemma_entry_at(es, id, 0, k);
    }
}

/// The downloads of the web interface, found by id.
pub struct DownloadTable {
    pub entries: Vec<DownloadState>,
}

/// The table after `insert(d)`: the download `d.id` replaced, else added.
pub open spec fn inserted(es: Seq<DownloadState>, d: DownloadState) -> Seq<DownloadState> {
    match entry_of(es, d.id@) {
        Some(k) => es.update(k, d),
        None => es.push(d),
    }
}

/// A status that ends a download for good.
pub open spec fn is_final_status(s: Seq<char>) -> bool {
    s == "Completed"@ || matches_at(s, "Error"@, 0)
}

/// The table after the download `id` finished: it is marked completed at
/// 100 %, unless `keep_final` and its status already ended it.
pub open spec fn completed(es: Seq<DownloadState>, id: Seq<char>, keep_final: bool) -> Seq<
    (Seq<char>, Seq<char>, u32, Option<Seq<char>>),
> {
    let v = es.map_values(|d: DownloadState| state_view(d));
    match entry_of(es, id) {
        Some(k) => if keep_final && is_final_status(es[k].status@) {
            v
        } else {
            v.update(k, (es[k].title@, "Completed"@, 10000, opt_view(es[k].eta)))
        },
        None => v,
    }
}

/// What a progress request for `id` is answered: the download's status,
/// progress and remaining time, else "Unknown" at 0.
pub open spec fn reply_for(es: Seq<DownloadState>, id: Seq<char>) -> (Seq<char>, u32, Option<Seq<char>>) {
    match entry_of(es, id) {
        Some(k) => (es[k].status@, es[k].progress, opt_view(es[k].eta)),
        None => ("Unknown"@, 0, None),
    }
}

impl DownloadTable {
    /// An empty table.
    pub fn new() -> (r: Self)
        ensures
            r.entries@.len() == 0,
    {
        DownloadTable { entries: Vec::new() }
    }

    /// The position of the download `id`.
    fn find(&self, id: &str) -> (r: Option<usize>)
        ensures
            r matches Some(k) ==> entry_of(self.entries@, id@) == Some(k as int) && k
                < self.entries@.len() && self.entries@[k as int].id@ == id@,
            r is None ==> entry_of(self.entries@, id@) is None,
    {
        let mut i: usize = 0;
        while i < self.entries.len()
            invariant
                i <= self.entries@.len(),
                forall|j: int| 0 <= j < i ==> self.entries@[j].id@ != id@,
            decreases self.entries@.len() - i,
        {
            if text::str_eq(self.entries[i].id.as_str(), id) {
                proof {
                    lemma_entry_at(self.entries@, id@, 0, i as int);
                }
                return Some(i);
            }
            i = i + 1;
        }
        proof {
            lemma_entry_none(self.entries@, id@, 0);
        }
        None
    }

    /// Records the download `d`, in place of one with the same id.
    pub fn insert(&mut self, d: DownloadState)
        ensures
            final(self).entries@ == inserted(old(self).entries@, d),
    {
        match self.find(d.id.as_str()) {
            Some(k) => {
                self.entries.set(k, d);
            },
            None => {
                self.entries.push(d);
            },
        }
    }

    /// The download `id` finished: it is marked completed at 100 %, unless
    /// `keep_final` and its status is already "Completed" or an error.
    pub fn complete(&mut self, id: &str, keep_final: bool)
        ensures
            final(self).entries@.len() == old(self).entries@.len(),
            final(self).entries@.map_values(|d: DownloadState| state_view(d)) == completed(
                old(self).entries@,
                id@,
                keep_final,
            ),
            forall|j: int|
                0 <= j < old(self).entries@.len() ==> (#[trigger] final(self).entries@[j]).id
                    == old(self).entries@[j].id,
    {
        let ghost es = self.entries@;
        let ghost v = es.map_values(|d: DownloadState| state_view(d));
        match self.find(id) {
            Some(k) => {
                let status = self.entries[k].status.as_str();
                proof {
                    reveal_strlit("Completed");
                    reveal_strlit("Error");
                }
                let done = text::str_eq(status, "Completed") || crate::settings::str_starts_with(
                    status,
                    "Error",
                );
                if keep_final && done {
                    return ;
                }
                let old_d = &self.entries[k];
                let d = DownloadState {
                    id: old_d.id.clone(),
                    title: old_d.title.clone(),
                    status: "Completed".to_owned(),
                    progress: 10000,
                    eta: old_d.eta.clone(),
                };
                self.entries.set(k, d);
                assert(self.entries@.map_values(|d: DownloadState| state_view(d)) =~= completed(
                    es,
                    id@,
                    keep_final,
                ));
            },
            None => {
                assert(self.entries@.map_values(|d: DownloadState| state_view(d)) =~= v);
            },
        }
    }

    /// What a progress request for `id` is answered.
    pub fn progress(&self, id: &str) -> (r: ProgressReply)
        ensures
            (r.status@, r.progress, opt_view(r.eta)) == reply_for(self.entries@, id@),
    {
        match self.find(id) {
            Some(k) => {
                let d = &self.entries[k];
                ProgressReply { status: d.status.clone(), progress: d.progress, eta: d.eta.clone() }
            },
            None => ProgressReply { status: "Unknown".to_owned(), progress: 0, eta: None },
        }
    }
}

/// `d` is a new download `id` titled `title`, with `status` at `progress`.
pub open spec fn new_download(d: DownloadState, id: String, title: Seq<char>, status: Seq<char>, progress: u32) -> bool {
    &&& d.id == id
    &&& d.title@ == title
    &&& d.status@ == status
    &&& d.progress == progress
    &&& d.eta is None
}

/// A new video download, titled as the video (else "Unknown"), starting.
pub fn video_download(id: String, title: Option<String>) -> (r: DownloadState)
    ensures
        new_download(r, id, text::text_or(title, "Unknown"@), "Starting"@, 0),
{
    let title = match title {
        Some(t) => t,
        None => "Unknown".to_owned(),
    };
    DownloadState { id, title, status: "Starting".to_owned(), progress: 0, eta: None }
}

/// A new audio download, titled as the video (else "Unknown") with
/// " (Audio)" after it, starting.
pub fn audio_download(id: String, title: Option<String>) -> (r: DownloadState)
    ensures
        new_download(r, id, text::text_or(title, "Unknown"@) + " (Audio)"@, "Starting"@, 0),
{
    let mut t = match title {
        Some(t) => t,
        None => "Unknown".to_owned(),
    };
    push_str(&mut t, " (Audio)");
    DownloadState { id, title: t, status: "Starting".to_owned(), progress: 0, eta: None }
}

/// A new thumbnail download, shown half done.
pub fn thumbnail_download(id: String) -> (r: DownloadState)
    ensures
        new_download(r, id, "Thumbnail"@, "Downloading"@, 5000),
{
    DownloadState {
        id,
        title: "Thumbnail".to_owned(),
        status: "Downloading".to_owned(),
        progress: 5000,
        eta: None,
    }
}

/// A new playlist download, titled as the playlist (else "Playlist"),
/// starting.
pub fn playlist_download(id: String, title: Option<String>) -> (r: DownloadState)
    ensures
        new_download(r, id, text::text_or(title, "Playlist"@), "Starting"@, 0),
{
    let title = match title {
        Some(t) => t,
        None => "Playlist".to_owned(),
    };
    DownloadState { id, title, status: "Starting".to_owned(), progress: 0, eta: None }
}

/// After the port `current` was found taken, the next to try when the
/// server was asked for `start`: up to ten above it, then none.
pub fn next_port(start: u16, current: u16) -> (r: Option<u16>)
    requires
        start + 10 <= u16::MAX,
    ensures
        r == (if current >= start + 10 {
            None::<u16>
        } else {
            Some((current + 1) as u16)
        }),
{
    if current >= start + 10 {
        None
    } else {
        Some(current + 1)
    }
}

/// Where the ids agree position by position, the same download is found.
proof fn lemma_entry_same_ids(es: Seq<DownloadState>, fs: Seq<DownloadState>, id: Seq<char>, i: int)
    requires
        es.len() == fs.len(),
        forall|j: int| 0 <= j < es.len() ==> (#[trigger] es[j]).id@ == fs[j].id@,
    ensures
        entry_from(es, id, i) == entry_from(fs, id, i),
    decreases es.len() - i,
{
    if 0 <= i < es.len() {
        assert(es[i].id@ == fs[i].id@);
        lemma_entry_same_ids(es, fs, id, i + 1);
    }
}

/// A progress request after a download was recorded is answered with what
/// was recorded; requests for other downloads are answered as before.
pub proof fn law_read_after_insert(es: Seq<DownloadState>, d: DownloadState, other: Seq<char>)
    requires
        other != d.id@,
    ensures
        reply_for(inserted(es, d), d.id@) == (d.status@, d.progress, opt_view(d.eta)),
        reply_for(inserted(es, d), other) == reply_for(es, other),
{
    lemma_entry_of(es, d.id@);
    lemma_entry_of(es, other);
    let fs = inserted(es, d);
    match entry_of(es, d.id@) {
        Some(k) => {
            lemma_entry_at(fs, d.id@, 0, k);
            assert forall|j: int| 0 <= j < es.len() implies (#[trigger] es[j]).id@ == other
                <==> fs[j].id@ == other by {}
            lemma_entry_same_ids_for(es, fs, other);
        },
        None => {
            lemma_entry_at(fs, d.id@, 0, es.len() as int);
            match entry_of(es, other) {
                Some(m) => {
                    lemma_entry_at(fs, other, 0, m);
                },
                None => {
                    lemma_entry_none(fs, other, 0);
                },
            }
        },
    }
}

/// Where the same positions hold `id`, `id` is found at the same place.
proof fn lemma_entry_same_ids_for(es: Seq<DownloadState>, fs: Seq<DownloadState>, id: Seq<char>)
    requires
        es.len() == fs.len(),
        forall|j: int| 0 <= j < es.len() ==> ((#[trigger] es[j]).id@ == id <==> fs[j].id@ == id),
    ensures
        entry_of(es, id) == entry_of(fs, id),
{
    lemma_entry_of(es, id);
    assert forall|j: int| 0 <= j < fs.len() implies (fs[j].id@ == id <==> (#[trigger] es[j]).id@
        == id) by {}
    match entry_of(es, id) {
        Some(k) => {
            assert forall|j: int| 0 <= j < k implies fs[j].id@ != id by {
                assert(es[j].id@ != id);
            }
            assert(es[k].id@ == id);
            lemma_entry_at(fs, id, 0, k);
        },
        None => {
            assert forall|j: int| 0 <= j < fs.len() implies fs[j].id@ != id by {
                assert(es[j].id@ != id);
            }
            lemma_entry_none(fs, id, 0);
        },
    }
}

/// Once a recorded download is marked finished, a progress request for it
/// is answered "Completed" at 100 %, unless it had already ended and was
/// to be kept so.
pub proof fn law_read_after_complete(
    es: Seq<DownloadState>,
    fs: Seq<DownloadState>,
    id: Seq<char>,
    keep_final: bool,
)
    requires
        fs.len() == es.len(),
        forall|j: int| 0 <= j < es.len() ==> (#[trigger] fs[j]).id == es[j].id,
        fs.map_values(|d: DownloadState| state_view(d)) == completed(es, id, keep_final),
        entry_of(es, id) is Some,
    ensures
        !(keep_final && is_final_status(es[entry_of(es, id)->0].status@)) ==> reply_for(fs, id)
            == ("Completed"@, 10000u32, opt_view(es[entry_of(es, id)->0].eta)),
{
    lemma_entry_of(es, id);
    assert forall|j: int| 0 <= j < es.len() implies (#[trigger] es[j]).id@ == fs[j].id@ by {
        assert(fs[j].id == es[j].id);
    }
    lemma_entry_same_ids(es, fs, id, 0);
    let k = entry_of(es, id)->0;
    assert(fs.map_values(|d: DownloadState| state_view(d))[k] == state_view(fs[k]));
}

/// The formats that the web interface offers are at most eight, each can
/// be offered, and no two have the same height.
pub proof fn law_web_formats_distinct(fs: Seq<Format>)
    ensures
        web_formats(fs).len() <= web_format_limit(),
        forall|i: int| 0 <= i < web_formats(fs).len() ==> web_offers(#[trigger] web_formats(fs)[i]),
        forall|i: int, j: int|
            0 <= i < j < web_formats(fs).len() ==> (#[trigger] web_formats(fs)[i]).height
                != (#[trigger] web_formats(fs)[j]).height,
{
    lemma_kept_distinct(fs);
}

proof fn lemma_kept_distinct(fs: Seq<Format>)
    ensures
        forall|i: int| 0 <= i < web_kept(fs).len() ==> web_offers(#[trigger] web_kept(fs)[i]),
        forall|i: int, j: int|
            0 <= i < j < web_kept(fs).len() ==> (#[trigger] web_kept(fs)[i]).height
                != (#[trigger] web_kept(fs)[j]).height,
    decreases fs.len(),
{
    if fs.len() > 0 {
        lemma_kept_distinct(fs.drop_last());
        let k = web_kept(fs.drop_last());
        let f = fs.last();
        if web_offers(f) && !k.map_values(|g: Format| g.height).contains(f.height) {
            assert forall|i: int| 0 <= i < k.len() implies k[i].height != f.height by {
                assert(k.map_values(|g: Format| g.height)[i] == k[i].height);
            }
        }
    }
}

} // verus!
