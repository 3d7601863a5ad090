//! Downloads: the command lines handed to yt-dlp and the reading of what it
//! prints while it works.

use vstd::prelude::*;
use crate::formats;
use crate::formats::{AudioFormat, QualityPreset};
use crate::json;
use crate::json::{str_field, JsonError};
use crate::paths;
use crate::paths::path_join;
use crate::text;
use crate::text::{
    chars_of, concat, contains_chars, first_word_ending_with, push_str, split_first_chars,
    split_second_chars, string_of, strip_both, strip_end_chars, trim_chars, Strip,
};

verus! {

/// The text between the first `a` in `s` and the first `b` after it.
pub open spec fn between(s: Seq<char>, a: Seq<char>, b: Seq<char>) -> Option<Seq<char>> {
    match text::after_first(s, a) {
        None => None,
        Some(rest) => match text::find(rest, b) {
            None => None,
            Some(j) => Some(rest.subrange(0, j)),
        },
    }
}

/// The text between the first `start` in `s` and the first `end` after it.
pub fn extract_between(s: &str, start: &str, end: &str) -> (r: Option<String>)
    ensures
        text::opt_view(r) == between(s@, start@, end@),
{
    let v = chars_of(s);
    let a = chars_of(start);
    let b = chars_of(end);
    match text::after_first_chars(&v, &a) {
        None => None,
        Some(rest) => match text::find_chars(&rest, &b) {
            None => None,
            Some(j) => {
                let seg = text::slice_chars(&rest, 0, j);
                Some(string_of(seg.as_slice()))
            },
        },
    }
}

/// The text after the first `marker` in `s`.
pub fn extract_after(s: &str, marker: &str) -> (r: Option<String>)
    ensures
        text::opt_view(r) == text::after_first(s@, marker@),
{
    let v = chars_of(s);
    let m = chars_of(marker);
    match text::after_first_chars(&v, &m) {
        None => None,
        Some(rest) => Some(string_of(rest.as_slice())),
    }
}

/// The character that stands for `c` in a file name.
pub open spec fn safe_char(c: char) -> char {
    if refused_char(c) {
        '_'
    } else {
        c
    }
}

/// The characters that file systems refuse in a name.
pub open spec fn refused_char(c: char) -> bool {
    c == '/' || c == '\\' || c == ':' || c == '*' || c == '?' || c == '"' || c == '<' || c == '>'
        || c == '|'
}

/// A file name made from `name`: characters that file systems refuse become
/// `_`, and surrounding whitespace goes.
pub open spec fn sanitized(name: Seq<char>) -> Seq<char> {
    text::trim(name.map_values(|c: char| safe_char(c)))
}

/// A sanitized name holds none of the characters that file systems refuse
/// and no whitespace at either end, and sanitizing it again changes
/// nothing.
pub proof fn law_sanitized_is_safe(name: Seq<char>)
    ensures
        forall|i: int| 0 <= i < sanitized(name).len() ==> !refused_char(#[trigger] sanitized(name)[i]),
        sanitized(name).len() > 0 ==> !text::is_ws(sanitized(name)[0]) && !text::is_ws(
            sanitized(name).last(),
        ),
        sanitized(sanitized(name)) == sanitized(name),
{
    let m = name.map_values(|c: char| safe_char(c));
    let t = sanitized(name);
    let (a, b) = text::lemma_trim(m);
    assert forall|i: int| 0 <= i < t.len() implies !refused_char(#[trigger] t[i]) by {
        assert(t[i] == m[a + i]);
    }
    assert(t.map_values(|c: char| safe_char(c)) =~= t);
}

/// `name` made fit for a file name.
pub fn sanitize_filename(name: &str) -> (r: String)
    ensures
        r@ == sanitized(name@),
{
    let v = chars_of(name);
    let mut m: Vec<char> = Vec::new();
    let mut i: usize = 0;
    while i < v.len()
        invariant
            i <= v@.len(),
            m@ == v@.take(i as int).map_values(|c: char| safe_char(c)),
        decreases v@.len() - i,
    {
        let c = v[i];
        let d = if c == '/' || c == '\\' || c == ':' || c == '*' || c == '?' || c == '"' || c
            == '<' || c == '>' || c == '|' {
            '_'
        } else {
            c
        };
        m.push(d);
        assert(v@.take(i + 1).map_values(|c: char| safe_char(c)) =~= v@.take(i as int).map_values(
            |c: char| safe_char(c),
        ).push(safe_char(c)));
        i = i + 1;
    }
    assert(v@.take(v@.len() as int) =~= v@);
    let t = trim_chars(&m);
    string_of(t.as_slice())
}

/// The fields of a progress line of yt-dlp: the percentage as printed, the
/// speed and the time left.
pub struct ProgressFields {
    pub percent: String,
    pub speed: String,
    pub eta: String,
}

/// What a progress line says: the first word that ends with `%` (without
/// its `%` signs), the text between "at" and "ETA", and the text after "ETA".
pub open spec fn progress_of(line: Seq<char>) -> Option<(Seq<char>, Seq<char>, Seq<char>)> {
    match text::first_ending_with(text::words(line), '%') {
        None => None,
        Some(w) => Some(
            (
                text::trim_end_percent(w),
                text::trim(text::or_empty(between(line, "at"@, "ETA"@))),
                text::trim(text::or_empty(text::after_first(line, "ETA"@))),
            ),
        ),
    }
}

/// Reads a progress line of yt-dlp such as
/// `[download]  45.2% of 123.45MiB at  5.67MiB/s ETA 00:15`.
pub fn parse_progress(line: &str) -> (r: Option<ProgressFields>)
    ensures
        r is Some <==> progress_of(line@) is Some,
        r matches Some(p) ==> progress_of(line@) == Some((p.percent@, p.speed@, p.eta@)),
{
    let v = chars_of(line);
    match first_word_ending_with(&v, '%') {
        None => None,
        Some(w) => {
            let pct = strip_end_chars(&w, Strip::Percent);
            assert(text::strip_pred(Strip::Percent) == (|c: char| c == '%'));
            let speed = match extract_between(line, "at", "ETA") {
                Some(s) => s,
                None => String::new(),
            };
            let eta = match extract_after(line, "ETA") {
                Some(s) => s,
                None => String::new(),
            };
            Some(
                ProgressFields {
                    percent: string_of(pct.as_slice()),
                    speed: text::trim_str(speed.as_str()),
                    eta: text::trim_str(eta.as_str()),
                },
            )
        },
    }
}

} // verus!

verus! {

/// What a download reports while it runs. The percentage is the text that
/// yt-dlp printed.
pub enum DownloadEvent {
    Starting(String),
    Downloading { percent: String, speed: String, eta: String },
    PostProcessing,
    Finished(String),
    Error(String),
}

/// How far a download has come, as the screens show it. The percentage
/// is held in hundredths of a percent.
pub enum DownloadProgress {
    Starting(String),
    Downloading { percent: u32, speed: String, eta: String },
    PostProcessing,
    Finished(String),
    Error(String),
}

/// A report, as text.
pub enum EventView {
    Starting(Seq<char>),
    Downloading(Seq<char>, Seq<char>, Seq<char>),
    PostProcessing,
    Finished(Seq<char>),
    Error(Seq<char>),
}

impl View for DownloadEvent {
    type V = EventView;

    open spec fn view(&self) -> EventView {
        match self {
            DownloadEvent::Starting(s) => EventView::Starting(s@),
            DownloadEvent::Downloading { percent, speed, eta } => EventView::Downloading(
                percent@,
                speed@,
                eta@,
            ),
            DownloadEvent::PostProcessing => EventView::PostProcessing,
            DownloadEvent::Finished(s) => EventView::Finished(s@),
            DownloadEvent::Error(s) => EventView::Error(s@),
        }
    }
}

/// An optional report, as text.
pub open spec fn opt_event_view(e: Option<DownloadEvent>) -> Option<EventView> {
    match e {
        Some(x) => Some(x@),
        None => None,
    }
}

/// A video download, or an audio download with conversion.
#[derive(Debug, Clone, Copy, PartialEq, Eq, Structural)]
pub enum DownloadKind {
    Video,
    Audio,
}

/// The report that a line of yt-dlp's output calls for: progress on a
/// `[download]` line that reads as progress, post-processing on a `[Merger]`
/// (video only) or `[ExtractAudio]` line.
pub open spec fn line_event(kind: DownloadKind, line: Seq<char>) -> Option<EventView> {
    if text::contains(line, "[download]"@) {
        match progress_of(line) {
            Some((p, s, e)) => Some(EventView::Downloading(p, s, e)),
            None => None,
        }
    } else if (kind == DownloadKind::Video && text::contains(line, "[Merger]"@)) || text::contains(
        line,
        "[ExtractAudio]"@,
    ) {
        Some(EventView::PostProcessing)
    } else {
        None
    }
}

/// The output file that a line of yt-dlp's output names, else `cur`: after
/// "Destination:"; for a video also the file "has already been downloaded",
/// and the file that formats are merged into.
pub open spec fn output_after(kind: DownloadKind, line: Seq<char>, cur: Seq<char>) -> Seq<char> {
    if text::contains(line, "Destination:"@) {
        match text::split_second(line, "Destination:"@) {
            Some(d) => text::trim(d),
            None => cur,
        }
    } else if kind == DownloadKind::Audio {
        cur
    } else if text::contains(line, "has already been downloaded"@) {
        match text::split_second(line, "download]"@) {
            Some(d) => text::trim(text::split_first(d, "has already"@)),
            None => cur,
        }
    } else if text::contains(line, "Merging formats into"@) {
        match text::split_second(line, "into"@) {
            Some(d) => text::trim_quotes(text::trim(d)),
            None => cur,
        }
    } else {
        cur
    }
}

/// The message of a failed download.
pub open spec fn failure_text(kind: DownloadKind) -> Seq<char> {
    match kind {
        DownloadKind::Video => "Download failed"@,
        DownloadKind::Audio => "Audio download failed"@,
    }
}

/// What a running download has learnt from yt-dlp's output. Output is read
/// only when progress is reported.
pub struct DownloadTracker {
    pub kind: DownloadKind,
    pub reporting: bool,
    pub output_file: String,
}

fn has(v: &Vec<char>, p: &str) -> (r: bool)
    ensures
        r == text::contains(v@, p@),
{
    let pv = chars_of(p);
    contains_chars(v, &pv)
}

impl DownloadTracker {
    /// A download of `kind` that has read nothing yet.
    pub fn new(kind: DownloadKind, reporting: bool) -> (r: Self)
        ensures
            r.kind == kind,
            r.reporting == reporting,
            r.output_file@ == Seq::<char>::empty(),
    {
        DownloadTracker { kind, reporting, output_file: String::new() }
    }

    /// The report that a download of `url` starts.
    pub fn start(&self, url: &str) -> (r: Option<DownloadEvent>)
        ensures
            opt_event_view(r) == (if self.reporting {
                Some(EventView::Starting(url@))
            } else {
                None
            }),
    {
        if self.reporting {
            Some(DownloadEvent::Starting(url.to_owned()))
        } else {
            None
        }
    }

    /// Reads one line of yt-dlp's output: notes the output file it names and
    /// gives the report it calls for.
    pub fn on_line(&mut self, line: &str) -> (r: Option<DownloadEvent>)
        ensures
            final(self).kind == old(self).kind,
            final(self).reporting == old(self).reporting,
            final(self).output_file@ == (if old(self).reporting {
                output_after(old(self).kind, line@, old(self).output_file@)
            } else {
                old(self).output_file@
            }),
            opt_event_view(r) == (if old(self).reporting {
                line_event(old(self).kind, line@)
            } else {
                None
            }),
    {
        if !self.reporting {
            return None;
        }
        let v = chars_of(line);
        if has(&v, "Destination:") {
            let p = chars_of("Destination:");
            match split_second_chars(&v, &p) {
                Some(d) => {
                    let t = trim_chars(&d);
                    self.output_file = string_of(t.as_slice());
                },
                None => {},
            }
        } else if self.kind == DownloadKind::Audio {
        } else if has(&v, "has already been downloaded") {
            let p = chars_of("download]");
            match split_second_chars(&v, &p) {
                Some(d) => {
                    let q = chars_of("has already");
                    let f = split_first_chars(&d, &q);
                    let t = trim_chars(&f);
                    self.output_file = string_of(t.as_slice());
                },
                None => {},
            }
        } else if has(&v, "Merging formats into") {
            let p = chars_of("into");
            match split_second_chars(&v, &p) {
                Some(d) => {
                    let t = trim_chars(&d);
                    let u = strip_both(&t, Strip::Quote);
                    assert(text::strip_pred(Strip::Quote) == (|c: char| c == '"'));
                    self.output_file = string_of(u.as_slice());
                },
                None => {},
            }
        }
        if has(&v, "[download]") {
            match parse_progress(line) {
                Some(p) => Some(
                    DownloadEvent::Downloading { percent: p.percent, speed: p.speed, eta: p.eta },
                ),
                None => None,
            }
        } else if (self.kind == DownloadKind::Video && has(&v, "[Merger]")) || has(
            &v,
            "[ExtractAudio]",
        ) {
            Some(DownloadEvent::PostProcessing)
        } else {
            None
        }
    }

    /// The end of the download, once yt-dlp has exited: the report to send
    /// and the outcome, the output file or the failure message.
    pub fn finish(&self, success: bool) -> (r: (Option<DownloadEvent>, Result<String, String>))
        ensures
            success ==> (r.1 matches Ok(f) && f@ == self.output_file@),
            !success ==> (r.1 matches Err(m) && m@ == failure_text(self.kind)),
            opt_event_view(r.0) == (if !self.reporting {
                None
            } else if success {
                Some(EventView::Finished(self.output_file@))
            } else {
                Some(EventView::Error(failure_text(self.kind)))
            }),
    {
        if success {
            let ev = if self.reporting {
                Some(DownloadEvent::Finished(self.output_file.clone()))
            } else {
                None
            };
            (ev, Ok(self.output_file.clone()))
        } else {
            let msg = match self.kind {
                DownloadKind::Video => "Download failed".to_owned(),
                DownloadKind::Audio => "Audio download failed".to_owned(),
            };
            let ev = if self.reporting {
                Some(DownloadEvent::Error(msg.clone()))
            } else {
                None
            };
            (ev, Err(msg))
        }
    }
}

} // verus!

verus! {

/// Where yt-dlp writes the files of a download into `dir`.
pub open spec fn template_in(dir: Seq<char>) -> Seq<char> {
    dir + "/%(title)s.%(ext)s"@
}

fn push_arg(v: &mut Vec<String>, s: String)
    ensures
        text::strings_view(final(v)@) == text::strings_view(old(v)@).push(s@),
{
    v.push(s);
    assert(text::strings_view(v@) =~= text::strings_view(old(v)@).push(s@));
}

/// The arguments of yt-dlp for a video download.
pub open spec fn video_args(url: Seq<char>, output_path: Seq<char>, format: Option<Seq<char>>) -> Seq<Seq<char>> {
    seq![
        "--no-warnings"@,
        "--newline"@,
        "-o"@,
        template_in(output_path),
        "-f"@,
        match format {
            Some(f) => f,
            None => "bestvideo+bestaudio/best"@,
        },
        url,
    ]
}

/// The arguments of yt-dlp that download `url` into `output_path` in `format`
/// (by default the best video with the best audio).
pub fn video_download_args(url: &str, output_path: &str, format: Option<&str>) -> (r: Vec<String>)
    ensures
        text::strings_view(r@) == video_args(
            url@,
            output_path@,
            match format {
                Some(f) => Some(f@),
                None => None,
            },
        ),
{
    let mut v: Vec<String> = Vec::new();
    push_arg(&mut v, "--no-warnings".to_owned());
    push_arg(&mut v, "--newline".to_owned());
    push_arg(&mut v, "-o".to_owned());
    push_arg(&mut v, concat(output_path, "/%(title)s.%(ext)s"));
    push_arg(&mut v, "-f".to_owned());
    match format {
        Some(f) => push_arg(&mut v, f.to_owned()),
        None => push_arg(&mut v, "bestvideo+bestaudio/best".to_owned()),
    }
    push_arg(&mut v, url.to_owned());
    assert(text::strings_view(v@) =~= video_args(
        url@,
        output_path@,
        match format {
            Some(f) => Some(f@),
            None => None,
        },
    ));
    v
}

/// The arguments of yt-dlp for an audio download.
pub open spec fn audio_args(
    url: Seq<char>,
    output_path: Seq<char>,
    format: AudioFormat,
    quality: Option<Seq<char>>,
) -> Seq<Seq<char>> {
    seq![
        "--no-warnings"@,
        "--newline"@,
        "-x"@,
        "--audio-format"@,
        formats::extension_text(format),
        "-o"@,
        template_in(output_path),
    ] + match quality {
        Some(q) => seq!["--audio-quality"@, q],
        None => Seq::<Seq<char>>::empty(),
    } + seq![url]
}

/// The arguments of yt-dlp that download the audio of `url` into
/// `output_path`, converted to `format`, at `quality` if given.
pub fn audio_download_args(url: &str, output_path: &str, format: AudioFormat, quality: Option<&str>) -> (r: Vec<String>)
    ensures
        text::strings_view(r@) == audio_args(
            url@,
            output_path@,
            format,
            match quality {
                Some(q) => Some(q@),
                None => None,
            },
        ),
{
    let mut v: Vec<String> = Vec::new();
    push_arg(&mut v, "--no-warnings".to_owned());
    push_arg(&mut v, "--newline".to_owned());
    push_arg(&mut v, "-x".to_owned());
    push_arg(&mut v, "--audio-format".to_owned());
    push_arg(&mut v, format.extension().to_owned());
    push_arg(&mut v, "-o".to_owned());
    push_arg(&mut v, concat(output_path, "/%(title)s.%(ext)s"));
    match quality {
        Some(q) => {
            push_arg(&mut v, "--audio-quality".to_owned());
            push_arg(&mut v, q.to_owned());
        },
        None => {},
    }
    push_arg(&mut v, url.to_owned());
    assert(text::strings_view(v@) =~= audio_args(
        url@,
        output_path@,
        format,
        match quality {
            Some(q) => Some(q@),
            None => None,
        },
    ));
    v
}

/// The folder of a playlist download: the sanitized playlist name inside `output_path`.
pub open spec fn playlist_dir_of(output_path: Seq<char>, name: Seq<char>) -> Seq<char> {
    paths::joined_path(output_path, sanitized(name))
}

/// The folder that a playlist named `name` is downloaded into.
pub fn playlist_dir(output_path: &str, playlist_name: &str) -> (r: String)
    ensures
        r@ == playlist_dir_of(output_path@, playlist_name@),
{
    let name = sanitize_filename(playlist_name);
    path_join(output_path, name.as_str())
}

/// The arguments of yt-dlp for a playlist download into `dir`.
pub open spec fn playlist_args(
    dir: Seq<char>,
    url: Seq<char>,
    preset: QualityPreset,
    audio_only: bool,
    audio_format: Option<AudioFormat>,
) -> Seq<Seq<char>> {
    seq!["--no-warnings"@, "-o"@, template_in(dir), "--yes-playlist"@] + (if audio_only {
        seq!["-x"@] + match audio_format {
            Some(f) => seq!["--audio-format"@, formats::extension_text(f)],
            None => Seq::<Seq<char>>::empty(),
        }
    } else {
        seq!["-f"@, formats::preset_format_text(preset)]
    }) + seq![url]
}

/// The arguments of yt-dlp that download the playlist `url` into `dir`: the
/// audio only (converted to `audio_format` if given), or video in `preset`.
pub fn playlist_download_args(
    dir: &str,
    url: &str,
    preset: QualityPreset,
    audio_only: bool,
    audio_format: Option<AudioFormat>,
) -> (r: Vec<String>)
    ensures
        text::strings_view(r@) == playlist_args(dir@, url@, preset, audio_only, audio_format),
{
    let mut v: Vec<String> = Vec::new();
    push_arg(&mut v, "--no-warnings".to_owned());
    push_arg(&mut v, "-o".to_owned());
    push_arg(&mut v, concat(dir, "/%(title)s.%(ext)s"));
    push_arg(&mut v, "--yes-playlist".to_owned());
    if audio_only {
        push_arg(&mut v, "-x".to_owned());
        match audio_format {
            Some(f) => {
                push_arg(&mut v, "--audio-format".to_owned());
                push_arg(&mut v, f.extension().to_owned());
            },
            None => {},
        }
    } else {
        push_arg(&mut v, "-f".to_owned());
        push_arg(&mut v, preset.get_format_string());
    }
    push_arg(&mut v, url.to_owned());
    assert(text::strings_view(v@) =~= playlist_args(dir@, url@, preset, audio_only, audio_format));
    v
}

/// A thumbnail to fetch: where it is, and the file to write it to.
pub struct ThumbnailTarget {
    pub url: String,
    pub file: String,
}

/// The names of the thumbnails that a video has, largest first.
pub open spec fn thumbnail_names() -> Seq<Seq<char>> {
    seq!["maxresdefault"@, "hqdefault"@, "default"@]
}

/// The address of the thumbnail `res` of the video `id`.
pub open spec fn thumbnail_url(id: Seq<char>, res: Seq<char>) -> Seq<char> {
    "https://img.youtube.com/vi/"@ + id + "/"@ + res + ".jpg"@
}

/// The file of the thumbnail `res` of a video titled `title`, in `dir`.
pub open spec fn thumbnail_file(dir: Seq<char>, title: Seq<char>, res: Seq<char>) -> Seq<char> {
    paths::joined_path(dir, sanitized(title) + "_"@ + res + ".jpg"@)
}

fn thumbnail_target(id: &str, title: &str, dir: &str, res: &str) -> (r: ThumbnailTarget)
    ensures
        r.url@ == thumbnail_url(id@, res@),
        r.file@ == thumbnail_file(dir@, title@, res@),
{
    let mut u = String::new();
    push_str(&mut u, "https://img.youtube.com/vi/");
    push_str(&mut u, id);
    push_str(&mut u, "/");
    push_str(&mut u, res);
    push_str(&mut u, ".jpg");
    assert(u@ =~= thumbnail_url(id@, res@));
    let mut name = sanitize_filename(title);
    push_str(&mut name, "_");
    push_str(&mut name, res);
    push_str(&mut name, ".jpg");
    let file = path_join(dir, name.as_str());
    ThumbnailTarget { url: u, file }
}

/// The thumbnails of the video that the yt-dlp JSON `info` describes, to be
/// written into `output_path`: one per name of `thumbnail_names`, for the
/// video's id (else "video") and title (else "thumbnail"). An error when
/// `info` is not JSON.
pub fn thumbnail_targets(info: &str, output_path: &str) -> (r: Result<Vec<ThumbnailTarget>, JsonError>)
    ensures
        r is Ok <==> (json::json_str_field(info@, "id"@) is Some && json::json_str_field(
            info@,
            "title"@,
        ) is Some),
        r matches Ok(ts) ==> {
            let id = match json::json_str_field(info@, "id"@)->0 {
                Some(s) => s,
                None => "video"@,
            };
            let title = match json::json_str_field(info@, "title"@)->0 {
                Some(s) => s,
                None => "thumbnail"@,
            };
            &&& ts@.len() == 3
            &&& forall|i: int|
                0 <= i < 3 ==> (#[trigger] ts@[i]).url@ == thumbnail_url(id, thumbnail_names()[i])
                    && ts@[i].file@ == thumbnail_file(output_path@, title, thumbnail_names()[i])
        },
{
    let id = match str_field(info, "id") {
        Ok(v) => v,
        Err(e) => {
            return Err(e);
        },
    };
    let title = match str_field(info, "title") {
        Ok(v) => v,
        Err(e) => {
            return Err(e);
        },
    };
    Ok(thumbnail_targets_for(id, title, output_path))
}

/// The thumbnails of the video `id` (else "video") titled `title` (else
/// "thumbnail"), to be written into `output_path`: one per name of
/// `thumbnail_names`, in order.
pub fn thumbnail_targets_for(id: Option<String>, title: Option<String>, output_path: &str) -> (ts: Vec<ThumbnailTarget>)
    ensures
        ts@.len() == 3,
        forall|i: int|
            0 <= i < 3 ==> (#[trigger] ts@[i]).url@ == thumbnail_url(
                text::text_or(id, "video"@),
                thumbnail_names()[i],
            ) && ts@[i].file@ == thumbnail_file(
                output_path@,
                text::text_or(title, "thumbnail"@),
                thumbnail_names()[i],
            ),
{
    let id = match id {
        Some(s) => s,
        None => "video".to_owned(),
    };
    let title = match title {
        Some(s) => s,
        None => "thumbnail".to_owned(),
    };
    let mut ts: Vec<ThumbnailTarget> = Vec::new();
    ts.push(thumbnail_target(id.as_str(), title.as_str(), output_path, "maxresdefault"));
    ts.push(thumbnail_target(id.as_str(), title.as_str(), output_path, "hqdefault"));
    ts.push(thumbnail_target(id.as_str(), title.as_str(), output_path, "default"));
    ts
}


/// The line yt-dlp writes for a file it finds already downloaded.
pub open spec fn already_line(f: Seq<char>) -> Seq<char> {
    "[download] "@ + f + " has already been downloaded"@
}

/// What follows the first "download]" of that line.
spec fn already_rest(f: Seq<char>) -> Seq<char> {
    seq![' '] + f + " has already been downloaded"@
}

proof fn lemma_already_line_layout(f: Seq<char>)
    ensures
        already_line(f).len() == 39 + f.len(),
        already_line(f).subrange(11, 11 + f.len() as int) == f,
        already_line(f).subrange(10, already_line(f).len() as int) == already_rest(f),
        already_rest(f).len() == 29 + f.len(),
        already_rest(f).subrange(1, 1 + f.len() as int) == f,
        forall|k: int| 0 <= k < 11 ==> #[trigger] already_line(f)[k] == "[download] "@[k],
        forall|k: int|
            0 <= k < 28 ==> #[trigger] already_line(f)[11 + f.len() + k]
                == " has already been downloaded"@[k],
        forall|k: int|
            0 <= k < 28 ==> #[trigger] already_rest(f)[1 + f.len() + k]
                == " has already been downloaded"@[k],
        already_rest(f)[0] == ' ',
{
    reveal_strlit("[download] ");
    reveal_strlit(" has already been downloaded");
    let n = f.len() as int;
    let line = already_line(f);
    assert(line.subrange(11, 11 + n) =~= f);
    assert(line.subrange(10, line.len() as int) =~= already_rest(f));
    assert(already_rest(f).subrange(1, 1 + n) =~= f);
}

#[verifier::spinoff_prover]
proof fn lemma_already_line_no_destination(f: Seq<char>)
    requires
        !text::contains(f, "Destination:"@),
    ensures
        !text::contains(already_line(f), "Destination:"@),
{
    let dest = "Destination:"@;
    reveal_strlit("Destination:");
    reveal_strlit("[download] ");
    reveal_strlit(" has already been downloaded");
    lemma_already_line_layout(f);
    let line = already_line(f);
    let n = f.len() as int;
    text::lemma_not_contains(f, dest);
    assert forall|j: int| !#[trigger] text::matches_at(line, dest, j) by {
        if 0 <= j && j + 12 <= line.len() {
            if j < 11 {
                assert(line[j] == "[download] "@[j]);
                text::lemma_mismatch(line, dest, j, 0);
            } else if j + 12 <= 11 + n {
                if text::matches_at(line, dest, j) {
                    text::lemma_match_within(line, f, dest, 11, j);
                }
            } else if j < 11 + n {
                assert(line[11 + n + 0] == " has already been downloaded"@[0]);
                text::lemma_mismatch(line, dest, j, 11 + n - j);
            } else {
                assert(line[11 + n + (j - 11 - n)] == " has already been downloaded"@[j - 11 - n]);
                text::lemma_mismatch(line, dest, j, 0);
            }
        }
    }
    text::lemma_find_from_none(line, dest, 0);
}

#[verifier::spinoff_prover]
proof fn lemma_already_line_split(f: Seq<char>)
    requires
        !text::contains(f, "download]"@),
    ensures
        text::contains(already_line(f), "has already been downloaded"@),
        text::split_second(already_line(f), "download]"@) == Some(already_rest(f)),
{
    let dl = "download]"@;
    let habd = "has already been downloaded"@;
    reveal_strlit("download]");
    reveal_strlit("has already been downloaded");
    reveal_strlit("[download] ");
    reveal_strlit(" has already been downloaded");
    lemma_already_line_layout(f);
    let line = already_line(f);
    let rest = already_rest(f);
    let n = f.len() as int;
    assert(line.subrange(12 + n, 12 + n + 27) =~= habd);
    if !text::contains(line, habd) {
        text::lemma_not_contains(line, habd);
        assert(text::matches_at(line, habd, 12 + n));
    }
    assert(line.subrange(1, 10) =~= dl);
    assert(line[0] == "[download] "@[0]);
    text::lemma_mismatch(line, dl, 0, 0);
    text::lemma_find_from_first(line, dl, 0, 1);
    text::lemma_not_contains(f, dl);
    assert forall|j: int| !#[trigger] text::matches_at(rest, dl, j) by {
        if 0 <= j && j + 9 <= rest.len() {
            if j == 0 {
                text::lemma_mismatch(rest, dl, j, 0);
            } else if j + 9 <= 1 + n {
                if text::matches_at(rest, dl, j) {
                    text::lemma_match_within(rest, f, dl, 1, j);
                }
            } else if j < 1 + n {
                assert(rest[1 + n + 0] == " has already been downloaded"@[0]);
                text::lemma_mismatch(rest, dl, j, 1 + n - j);
            } else {
                assert(rest[1 + n + (j + 8 - 1 - n)] == " has already been downloaded"@[j + 8 - 1 - n]);
                text::lemma_mismatch(rest, dl, j, 8);
            }
        }
    }
    text::lemma_find_from_none(rest, dl, 0);
}

#[verifier::spinoff_prover]
proof fn lemma_already_rest_name(f: Seq<char>)
    requires
        !text::contains(f, "has already"@),
    ensures
        text::split_first(already_rest(f), "has already"@) == seq![' '] + f + seq![' '],
{
    let ha = "has already"@;
    reveal_strlit("has already");
    reveal_strlit(" has already been downloaded");
    lemma_already_line_layout(f);
    let rest = already_rest(f);
    let n = f.len() as int;
    text::lemma_not_contains(f, ha);
    assert(rest.subrange(2 + n, 13 + n) =~= ha);
    assert forall|j: int| 0 <= j < 2 + n implies !#[trigger] text::matches_at(rest, ha, j) by {
        if j + 11 <= rest.len() {
            if j == 0 {
                text::lemma_mismatch(rest, ha, j, 0);
            } else if j + 11 <= 1 + n {
                if text::matches_at(rest, ha, j) {
                    text::lemma_match_within(rest, f, ha, 1, j);
                }
            } else if 1 + n - j == 3 {
                assert(rest[1 + n + 1] == " has already been downloaded"@[1]);
                text::lemma_mismatch(rest, ha, j, 4);
            } else {
                assert(rest[1 + n + 0] == " has already been downloaded"@[0]);
                text::lemma_mismatch(rest, ha, j, 1 + n - j);
            }
        }
    }
    text::lemma_find_from_first(rest, ha, 0, 2 + n);
    assert(rest.subrange(0, 2 + n) =~= seq![' '] + f + seq![' ']);
}

/// A line saying that file `f` "has already been downloaded" makes `f` the
/// output file of a video download, exactly: none of the message's text is
/// kept. This holds for every `f` without whitespace at either end that
/// does not itself hold the markers the line is read by ("Destination:",
/// "download]", "has already"). An audio download keeps its file.
pub proof fn law_already_downloaded_names_file(f: Seq<char>, cur: Seq<char>)
    requires
        !text::contains(f, "Destination:"@),
        !text::contains(f, "download]"@),
        !text::contains(f, "has already"@),
        f.len() > 0 ==> !text::is_ws(f[0]) && !text::is_ws(f.last()),
    ensures
        output_after(
            DownloadKind::Video,
            "[download] "@ + f + " has already been downloaded"@,
            cur,
        ) == f,
        output_after(
            DownloadKind::Audio,
            "[download] "@ + f + " has already been downloaded"@,
            cur,
        ) == cur,
{
    lemma_already_line_no_destination(f);
    lemma_already_line_split(f);
    lemma_already_rest_name(f);
    text::lemma_trim_padded(f);
}

} // verus!
