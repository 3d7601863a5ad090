use onyx::formats::playlist_title;
use onyx::json::JsonError;
use onyx::download::{thumbnail_targets, thumbnail_targets_for};
use onyx::download::{audio_download_args, playlist_download_args, video_download_args};
use onyx::download::{DownloadEvent, DownloadKind, DownloadTracker};
use onyx::deps::{
    fetch_command, fetch_done_notice, fetch_failure, fetch_fallback, fetch_start_notice,
    ffmpeg_candidates, first_fetch_tool, program_path_in, search_command, ytdlp_candidates, FetchTool,
};
use onyx::deps::{
    first_line_trimmed, get_executable, should_reread_version, str_less, version_is_outdated,
    ytdlp_download_url, ytdlp_fetch_notice, DependencyStatus,
};
use onyx::formats::{AudioFormat, Format, PlaylistEntry, QualityPreset, VideoInfo};
use onyx::options::{audio_quality_options, build_quality_options, video_quality_options};
use onyx::search::{search_args, SearchResult};

fn fmt(id: &str, vcodec: &str, acodec: &str, height: Option<u32>, abr_milli: Option<u64>, size: Option<u64>) -> Format {
    Format {
        format_id: id.to_string(),
        format_note: None,
        ext: Some("mp4".to_string()),
        resolution: None,
        height,
        width: None,
        vcodec: Some(vcodec.to_string()),
        acodec: Some(acodec.to_string()),
        abr_milli,
        filesize: size,
        filesize_approx: None,
    }
}

fn info(formats: Vec<Format>) -> VideoInfo {
    VideoInfo {
        id: "abc".to_string(),
        title: "A Video".to_string(),
        duration_secs: Some(125),
        duration_string: None,
        channel: None,
        uploader: Some("Uploader".to_string()),
        thumbnail: None,
        formats,
        description: None,
    }
}

fn sample() -> VideoInfo {
    info(vec![
        fmt("18", "avc1", "mp4a", Some(360), None, Some(1_048_576)),
        fmt("137", "avc1", "none", Some(1080), None, Some(52_428_800)),
        fmt("140", "none", "mp4a", None, Some(129_500), Some(3_000_000)),
        fmt("22", "avc1", "mp4a", Some(720), None, None),
        fmt("251", "none", "opus", None, Some(160_000), None),
        fmt("248", "vp9", "none", Some(1080), None, Some(40_000_000)),
        fmt("249", "none", "opus", None, Some(50_000), None),
        fmt("sb0", "none", "none", Some(90), None, None),
    ])
}

#[test]
fn preset_format_strings_and_labels() {
    assert_eq!(QualityPreset::God.get_format_string(), "bestvideo+bestaudio/best");
    assert_eq!(
        QualityPreset::Ultra.get_format_string(),
        "bestvideo[height<=2160]+bestaudio/best[height<=2160]"
    );
    assert_eq!(
        QualityPreset::Low.get_format_string(),
        "bestvideo[height<=480]+bestaudio/best[height<=480]"
    );
    assert_eq!(QualityPreset::God.label(), "👑 GOD (Maximum Quality)");
    assert_eq!(QualityPreset::Medium.label(), "📺 Medium (720p)");
}

#[test]
fn audio_formats_in_order() {
    let all = AudioFormat::all();
    let exts: Vec<&str> = all.iter().map(|f| f.extension()).collect();
    assert_eq!(exts, vec!["mp3", "m4a", "ogg", "flac", "wav", "opus"]);
}

#[test]
fn format_kinds_and_labels() {
    let v = sample();
    assert!(v.formats[1].is_video_only());
    assert!(v.formats[2].is_audio_only());
    assert!(!v.formats[0].is_audio_only());
    assert_eq!(v.formats[1].get_resolution_label(), "1080p");
    assert_eq!(v.formats[7].get_resolution_label(), "90p");
    assert_eq!(v.formats[2].get_resolution_label(), "129kbps");
    assert_eq!(v.formats[2].get_audio_bitrate(), Some(129));
    assert_eq!(v.formats[0].get_size_str(), "1.0 MB");
    assert_eq!(v.formats[3].get_size_str(), "~");
    assert_eq!(v.get_channel(), "Uploader");
    assert_eq!(v.get_duration(), "2:05");
}

#[test]
fn video_formats_grouped_tallest_first() {
    let v = sample();
    let groups = v.get_video_formats();
    let labels: Vec<&str> = groups.iter().map(|(l, _)| l.as_str()).collect();
    assert_eq!(labels, vec!["1080p", "720p", "360p"]);
    let ids: Vec<&str> = groups[0].1.iter().map(|f| f.format_id.as_str()).collect();
    assert_eq!(ids, vec!["137", "248"]);
}

#[test]
fn audio_formats_by_bitrate_descending() {
    let v = sample();
    let ids: Vec<&str> = v.get_audio_formats().iter().map(|f| f.format_id.as_str()).collect();
    assert_eq!(ids, vec!["251", "140", "249"]);
}

#[test]
fn best_format_for_resolution() {
    let v = sample();
    assert_eq!(
        v.get_best_format_for_resolution(None),
        Some("bestvideo[height<=1080]+bestaudio/best".to_string())
    );
    assert_eq!(
        v.get_best_format_for_resolution(Some(800)),
        Some("bestvideo[height<=720]+bestaudio/best".to_string())
    );
    assert_eq!(v.get_best_format_for_resolution(Some(100)), None);
}

#[test]
fn quality_option_lists() {
    let v = sample();
    let video = video_quality_options(&v);
    let labels: Vec<&str> = video.iter().map(|(l, _)| l.as_str()).collect();
    assert_eq!(
        labels,
        vec![
            "🎥 1080p (50.0 MB)",
            "🎥 720p (~)",
            "🎥 360p (1.0 MB)",
            "───────────────",
            "🎵 Audio 160kbps",
            "🎵 Audio 129kbps",
            "🎵 Audio 50kbps",
            "🎵 MP3 (Best Quality)",
        ]
    );
    assert_eq!(video[0].1, "bestvideo[height<=1080]+bestaudio/best");
    assert_eq!(video[4].1, "bestaudio[abr<=160]/bestaudio");
    assert_eq!(video[7].1, "mp3");
    let search = build_quality_options(&v);
    assert_eq!(search.len(), 5);
    assert_eq!(search[3].1, "separator");
    let audio = audio_quality_options(&v);
    let pairs: Vec<(&str, &str)> = audio.iter().map(|(l, f)| (l.as_str(), f.as_str())).collect();
    assert_eq!(
        pairs,
        vec![
            ("⭐ Best Available", "best"),
            ("🔊 160kbps", "160"),
            ("🔊 129kbps", "129"),
            ("🔊 50kbps", "50"),
        ]
    );
}

#[test]
fn search_result_fields() {
    let r = SearchResult {
        id: "xyz".to_string(),
        title: "T".to_string(),
        duration_secs: Some(75),
        duration_string: None,
        channel: None,
        uploader: None,
        view_count: None,
        thumbnail: None,
        webpage_url: None,
    };
    assert_eq!(r.get_url(), "https://www.youtube.com/watch?v=xyz");
    assert_eq!(r.get_channel(), "Unknown");
    assert_eq!(r.get_duration(), "1:15");
    let args = search_args("rust lang", 10);
    assert!(args.contains(&"ytsearch10:rust lang".to_string()));
}

#[test]
fn dependency_decisions() {
    assert!(version_is_outdated("2023.12.30"));
    assert!(version_is_outdated("2024.10.22"));
    assert!(!version_is_outdated("2024.11.00"));
    assert!(!version_is_outdated("2025.01.15"));
    assert!(str_less("a", "b") && !str_less("b", "a") && !str_less("a", "a"));
    assert_eq!(get_executable(None), "yt-dlp");
    assert_eq!(get_executable(Some("/usr/bin/yt-dlp".to_string())), "/usr/bin/yt-dlp");
    assert_eq!(first_line_trimmed("/usr/bin/yt-dlp\n/other\n"), Some("/usr/bin/yt-dlp".to_string()));
    assert_eq!(first_line_trimmed(""), None);
    let missing = DependencyStatus { ytdlp: None, ytdlp_version: None, ffmpeg: None };
    assert!(!missing.is_ready());
    assert_eq!(ytdlp_fetch_notice(&missing), Some("yt-dlp not found. Downloading...".to_string()));
    let old = DependencyStatus {
        ytdlp: Some("/x/yt-dlp".to_string()),
        ytdlp_version: Some("2023.01.01".to_string()),
        ffmpeg: Some("/x/ffmpeg".to_string()),
    };
    assert!(old.is_ready());
    assert_eq!(old.ytdlp_binary(), "/x/yt-dlp");
    assert!(should_reread_version(&old));
    assert_eq!(
        ytdlp_fetch_notice(&old),
        Some("Found outdated yt-dlp version: 2023.01.01. Updating...".to_string())
    );
    assert_eq!(
        ytdlp_download_url("linux", "x86_64"),
        "https://github.com/yt-dlp/yt-dlp/releases/latest/download/yt-dlp_linux"
    );
    assert_eq!(
        ytdlp_download_url("windows", "x86_64"),
        "https://github.com/yt-dlp/yt-dlp/releases/latest/download/yt-dlp.exe"
    );
}

#[test]
fn playlist_from_listing() {
    let entries = vec![PlaylistEntry {
        id: "1".to_string(),
        title: "One".to_string(),
        duration_secs: None,
        url: None,
    }];
    let p = onyx::formats::playlist_from(entries, Some("{\"playlist_title\": \"Mix\", \"id\": \"1\"}"));
    assert_eq!(p.title, "Mix");
    assert_eq!(p.entries.len(), 1);
    let q = onyx::formats::playlist_from(Vec::new(), Some("not json"));
    assert_eq!(q.title, "Playlist");
}

#[test]
fn playlist_title_from_field() {
    assert_eq!(playlist_title(Some(Ok(Some("Mix".to_string())))), "Mix");
    assert_eq!(playlist_title(Some(Ok(None))), "Playlist");
    assert_eq!(playlist_title(Some(Err(JsonError::Malformed))), "Playlist");
    assert_eq!(playlist_title(None), "Playlist");
}

#[test]
fn thumbnail_targets_from_info() {
    let sep = std::path::MAIN_SEPARATOR;
    let ts = thumbnail_targets("{\"id\": \"abc\", \"title\": \"My: Video\"}", "/out").unwrap();
    assert_eq!(ts.len(), 3);
    assert_eq!(ts[0].url, "https://img.youtube.com/vi/abc/maxresdefault.jpg");
    assert_eq!(ts[1].url, "https://img.youtube.com/vi/abc/hqdefault.jpg");
    assert_eq!(ts[2].url, "https://img.youtube.com/vi/abc/default.jpg");
    assert_eq!(ts[0].file, format!("/out{}My_ Video_maxresdefault.jpg", sep));
    assert!(thumbnail_targets("not json", "/out").is_err());
    let d = thumbnail_targets_for(None, None, "/out");
    assert_eq!(d[1].url, "https://img.youtube.com/vi/video/hqdefault.jpg");
    assert_eq!(d[2].file, format!("/out{}thumbnail_default.jpg", sep));
}

#[test]
fn download_arguments() {
    assert_eq!(
        video_download_args("U", "/o", None),
        vec!["--no-warnings", "--newline", "-o", "/o/%(title)s.%(ext)s", "-f", "bestvideo+bestaudio/best", "U"]
    );
    assert_eq!(
        audio_download_args("U", "/o", AudioFormat::Flac, Some("5")),
        vec!["--no-warnings", "--newline", "-x", "--audio-format", "flac", "-o", "/o/%(title)s.%(ext)s", "--audio-quality", "5", "U"]
    );
    assert_eq!(
        playlist_download_args("/o/P", "U", QualityPreset::Medium, false, None),
        vec![
            "--no-warnings",
            "-o",
            "/o/P/%(title)s.%(ext)s",
            "--yes-playlist",
            "-f",
            "bestvideo[height<=720]+bestaudio/best[height<=720]",
            "U"
        ]
    );
    assert_eq!(
        playlist_download_args("/o/P", "U", QualityPreset::God, true, Some(AudioFormat::Mp3)),
        vec!["--no-warnings", "-o", "/o/P/%(title)s.%(ext)s", "--yes-playlist", "-x", "--audio-format", "mp3", "U"]
    );
}

#[test]
fn tracker_reports_and_names_output() {
    let mut t = DownloadTracker::new(DownloadKind::Video, true);
    assert!(matches!(t.start("U"), Some(DownloadEvent::Starting(ref u)) if u == "U"));
    assert!(t.on_line("[download] Destination: /o/a.f137.mp4").is_none());
    assert_eq!(t.output_file, "/o/a.f137.mp4");
    match t.on_line("[download]  45.2% of 10.00MiB at  1.00MiB/s ETA 00:05") {
        Some(DownloadEvent::Downloading { percent, speed, eta }) => {
            assert_eq!(percent, "45.2");
            assert_eq!(speed, "1.00MiB/s");
            assert_eq!(eta, "00:05");
        },
        _ => panic!("expected progress"),
    }
    assert!(matches!(t.on_line("[Merger] Merging formats into \"/o/a.mp4\""), Some(DownloadEvent::PostProcessing)));
    assert_eq!(t.output_file, "/o/a.mp4");
    let (ev, res) = t.finish(true);
    assert!(matches!(ev, Some(DownloadEvent::Finished(ref f)) if f == "/o/a.mp4"));
    assert_eq!(res, Ok("/o/a.mp4".to_string()));
    let quiet = DownloadTracker::new(DownloadKind::Audio, false);
    let (ev, res) = quiet.finish(false);
    assert!(ev.is_none());
    assert_eq!(res, Err("Audio download failed".to_string()));
}

#[test]
fn ytdlp_is_looked_for_in_the_fetched_then_the_user_folder() {
    let local = Some("/data".to_string());
    let home = Some("/home/me".to_string());
    let found = ytdlp_candidates(local.clone(), home, false);
    assert_eq!(found.len(), 2);
    assert_eq!(found[0], program_path_in(local.clone(), "yt-dlp", false));
    let user_bin = std::path::Path::new("/home/me").join(".local").join("bin").join("yt-dlp");
    assert_eq!(found[1], user_bin.to_string_lossy());
    assert_eq!(ytdlp_candidates(local, None, false).len(), 1);
}

#[test]
fn ffmpeg_is_looked_for_in_the_fetched_folder() {
    let local = Some("/data".to_string());
    assert_eq!(ffmpeg_candidates(local.clone(), true), vec![program_path_in(local, "ffmpeg", true)]);
}

#[test]
fn the_search_path_is_asked_by_where_or_which() {
    assert_eq!(search_command(true), "where");
    assert_eq!(search_command(false), "which");
}

#[test]
fn curl_falls_back_to_wget() {
    assert_eq!(first_fetch_tool(true), FetchTool::PowerShell);
    assert_eq!(first_fetch_tool(false), FetchTool::Curl);
    assert_eq!(fetch_fallback(FetchTool::Curl, false), Some(FetchTool::Wget));
    assert_eq!(fetch_fallback(FetchTool::Curl, true), None);
    assert_eq!(fetch_fallback(FetchTool::Wget, false), None);
    assert_eq!(fetch_fallback(FetchTool::PowerShell, false), None);
}

#[test]
fn fetch_commands() {
    let (p, a) = fetch_command(FetchTool::Curl, "https://x/y", "/t/yt-dlp");
    assert_eq!(p, "curl");
    assert_eq!(a, vec!["-sL", "-o", "/t/yt-dlp", "https://x/y"]);
    let (p, a) = fetch_command(FetchTool::Wget, "https://x/y", "/t/yt-dlp");
    assert_eq!(p, "wget");
    assert_eq!(a, vec!["-q", "-O", "/t/yt-dlp", "https://x/y"]);
    let (p, a) = fetch_command(FetchTool::PowerShell, "https://x/y", "C:\\t\\yt-dlp.exe");
    assert_eq!(p, "powershell");
    assert_eq!(a, vec!["-Command", "Invoke-WebRequest -Uri 'https://x/y' -OutFile 'C:\\t\\yt-dlp.exe'"]);
}

#[test]
fn fetch_messages() {
    assert_eq!(fetch_start_notice(), "Downloading yt-dlp...");
    assert_eq!(fetch_done_notice(), "yt-dlp downloaded successfully!");
    assert_eq!(fetch_failure("404"), "Failed to download yt-dlp: 404");
}
