//! Searching YouTube through yt-dlp.

use vstd::prelude::*;
use crate::formats;
use crate::formats::channel_or_uploader;
use crate::text;
use crate::text::{concat, push_decimal, push_decimal2, push_str};

verus! {

/// One result of a search. The duration is held in whole seconds.
pub struct SearchResult {
    pub id: String,
    pub title: String,
    pub duration_secs: Option<u64>,
    pub duration_string: Option<String>,
    pub channel: Option<String>,
    pub uploader: Option<String>,
    pub view_count: Option<u64>,
    pub thumbnail: Option<String>,
    pub webpage_url: Option<String>,
}

/// A number of seconds as minutes and seconds, `m:ss`.
pub open spec fn minutes_text(secs: nat) -> Seq<char> {
    text::decimal(secs / 60) + ":"@ + text::decimal2(secs % 60)
}

/// The address of the video with id `id`.
pub open spec fn watch_url(id: Seq<char>) -> Seq<char> {
    "https://www.youtube.com/watch?v="@ + id
}

/// The page of a result: as yt-dlp gave it, else made from the id.
pub open spec fn result_url(r: SearchResult) -> Seq<char> {
    match r.webpage_url {
        Some(u) => u@,
        None => watch_url(r.id@),
    }
}

impl SearchResult {
    /// The channel, else the uploader, else "Unknown".
    pub fn get_channel(&self) -> (r: String)
        ensures
            r@ == formats::channel_text(self.channel, self.uploader),
    {
        channel_or_uploader(&self.channel, &self.uploader)
    }

    /// The duration as yt-dlp wrote it, else as `m:ss`, else "?:??".
    pub fn get_duration(&self) -> (r: String)
        ensures
            r@ == (match self.duration_string {
                Some(d) => d@,
                None => match self.duration_secs {
                    Some(s) => minutes_text(s as nat),
                    None => "?:??"@,
                },
            }),
    {
        match &self.duration_string {
            Some(d) => d.clone(),
            None => match self.duration_secs {
                Some(s) => {
                    let mut out = String::new();
                    push_decimal(&mut out, s / 60);
                    push_str(&mut out, ":");
                    push_decimal2(&mut out, s % 60);
                    out
                },
                None => "?:??".to_owned(),
            },
        }
    }

    /// The page of the video: as yt-dlp gave it, else made from the id.
    pub fn get_url(&self) -> (r: String)
        ensures
            r@ == result_url(*self),
    {
        match &self.webpage_url {
            Some(u) => u.clone(),
            None => concat("https://www.youtube.com/watch?v=", self.id.as_str()),
        }
    }
}

/// The yt-dlp search expression for the first `max` results of `query`.
pub open spec fn search_expr(query: Seq<char>, max: nat) -> Seq<char> {
    "ytsearch"@ + text::decimal(max) + ":"@ + query
}

/// The arguments of yt-dlp that search for the first `max_results` videos
/// matching `query`, one JSON line each.
pub fn search_args(query: &str, max_results: u32) -> (r: Vec<String>)
    ensures
        text::strings_view(r@) == seq![
            "-j"@,
            "--flat-playlist"@,
            "--no-warnings"@,
            search_expr(query@, max_results as nat),
        ],
{
    let mut e = String::new();
    push_str(&mut e, "ytsearch");
    push_decimal(&mut e, max_results as u64);
    push_str(&mut e, ":");
    push_str(&mut e, query);
    let mut v: Vec<String> = Vec::new();
    v.push("-j".to_owned());
    v.push("--flat-playlist".to_owned());
    v.push("--no-warnings".to_owned());
    v.push(e);
    assert(text::strings_view(v@) =~= seq![
        "-j"@,
        "--flat-playlist"@,
        "--no-warnings"@,
        search_expr(query@, max_results as nat),
    ]);
    v
}


/// A duration written as `m:ss` reads back: the text is whole minutes in
/// digits, a colon, then exactly two digits of the seconds left over
/// (zero-padded), so the minutes read back as `secs / 60` and the seconds
/// as `secs % 60`.
pub proof fn law_minutes_text_reads_back(secs: nat)
    ensures
        ({
            let t = minutes_text(secs);
            let n = t.len() as int;
            &&& n >= 4
            &&& t[n - 3] == ':'
            &&& text::all_digits(t.subrange(0, n - 3))
            &&& text::digits_value(t.subrange(0, n - 3)) == secs / 60
            &&& text::all_digits(t.subrange(n - 2, n))
            &&& text::digits_value(t.subrange(n - 2, n)) == secs % 60
        }),
{
    text::lemma_decimal_reads_back(secs / 60);
    text::lemma_decimal2_reads_back(secs % 60);
    reveal_strlit(":");
    let m = text::decimal(secs / 60);
    let ss = text::decimal2(secs % 60);
    let t = minutes_text(secs);
    let n = t.len() as int;
    assert(t =~= m + seq![':'] + ss);
    assert(t.subrange(0, n - 3) =~= m);
    assert(t.subrange(n - 2, n) =~= ss);
}

} // verus!
