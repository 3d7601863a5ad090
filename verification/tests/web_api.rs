use onyx::formats::{AudioFormat, Format, QualityPreset, VideoInfo};
use onyx::search::SearchResult;
use onyx::web::{
    audio_download, audio_format_named, download_path_in, format_options, is_audio_preset,
    next_port, playlist_download, preset_named, search_item, thumbnail_download, video_download,
    DownloadTable,
};

fn vfmt(id: &str, vcodec: Option<&str>, height: Option<u32>, ext: Option<&str>, size: Option<u64>) -> Format {
    Format {
        format_id: id.to_string(),
        format_note: None,
        ext: ext.map(|e| e.to_string()),
        resolution: None,
        height,
        width: None,
        vcodec: vcodec.map(|v| v.to_string()),
        acodec: None,
        abr_milli: None,
        filesize: size,
        filesize_approx: None,
    }
}

#[test]
fn web_format_options_dedupe_and_limit() {
    let mut formats = vec![
        vfmt("a", Some("none"), Some(1080), Some("webm"), None),
        vfmt("b", Some("avc1"), Some(1080), Some("webm"), Some(2048)),
        vfmt("c", None, Some(720), None, None),
        vfmt("d", Some("vp9"), Some(1080), Some("mp4"), None),
        vfmt("e", Some("vp9"), None, Some("mp4"), None),
    ];
    for h in 1..=10u32 {
        formats.push(vfmt(&format!("h{}", h), Some("avc1"), Some(h * 100), Some("mp4"), Some(1_572_864)));
    }
    let info = VideoInfo {
        id: "id".to_string(),
        title: "t".to_string(),
        duration_secs: None,
        duration_string: None,
        channel: None,
        uploader: None,
        thumbnail: None,
        formats,
        description: None,
    };
    let opts = format_options(&info);
    assert_eq!(opts.len(), 8);
    assert_eq!(opts[0].format_string, "b");
    assert_eq!(opts[0].label, "1080p WEBM");
    assert_eq!(opts[0].size, "2 KB");
    assert_eq!(opts[1].format_string, "c");
    assert_eq!(opts[1].label, "720p MP4");
    assert_eq!(opts[1].size, "Unknown");
    assert_eq!(opts[2].label, "100p MP4");
    assert_eq!(opts[2].size, "1.5 MB");
    let ids: Vec<&str> = opts.iter().map(|o| o.format_string.as_str()).collect();
    assert_eq!(ids, vec!["b", "c", "h1", "h2", "h3", "h4", "h5", "h6"]);
}

#[test]
fn request_names() {
    assert_eq!(audio_format_named("flac"), AudioFormat::Flac);
    assert_eq!(audio_format_named("m4a"), AudioFormat::M4a);
    assert_eq!(audio_format_named("wav"), AudioFormat::Wav);
    assert_eq!(audio_format_named("ogg"), AudioFormat::Mp3);
    assert!(matches!(preset_named("god"), QualityPreset::God));
    assert!(matches!(preset_named("ultra"), QualityPreset::Ultra));
    assert!(matches!(preset_named("pro"), QualityPreset::Pro));
    assert!(matches!(preset_named("medium"), QualityPreset::Medium));
    assert!(matches!(preset_named("low"), QualityPreset::High));
    assert!(matches!(preset_named("audio"), QualityPreset::High));
    assert!(is_audio_preset("audio"));
    assert!(!is_audio_preset("god"));
}

#[test]
fn download_table_reads_back() {
    let mut t = DownloadTable::new();
    let r = t.progress("nope");
    assert_eq!(r.status, "Unknown");
    assert_eq!(r.progress, 0);
    assert_eq!(r.eta, None);
    t.insert(video_download("1".to_string(), Some("Song".to_string())));
    t.insert(audio_download("2".to_string(), None));
    t.insert(thumbnail_download("3".to_string()));
    assert_eq!(t.entries[1].title, "Unknown (Audio)");
    assert_eq!(t.entries[2].title, "Thumbnail");
    let r = t.progress("1");
    assert_eq!(r.status, "Starting");
    assert_eq!(r.progress, 0);
    let r = t.progress("3");
    assert_eq!(r.status, "Downloading");
    assert_eq!(r.progress, 5000);
    t.complete("1", true);
    let r = t.progress("1");
    assert_eq!(r.status, "Completed");
    assert_eq!(r.progress, 10000);
    t.insert(playlist_download("1".to_string(), None));
    assert_eq!(t.entries.len(), 3);
    assert_eq!(t.entries[0].title, "Playlist");
    assert_eq!(t.progress("1").status, "Starting");
    t.entries[1].status = "Error: failed".to_string();
    t.complete("2", true);
    assert_eq!(t.progress("2").status, "Error: failed");
    t.complete("2", false);
    assert_eq!(t.progress("2").status, "Completed");
    t.complete("missing", false);
    assert_eq!(t.entries.len(), 3);
}

#[test]
fn search_item_defaults() {
    let r = SearchResult {
        id: "abc".to_string(),
        title: "Title".to_string(),
        duration_secs: None,
        duration_string: Some("3:33".to_string()),
        channel: None,
        uploader: Some("Up".to_string()),
        view_count: None,
        thumbnail: None,
        webpage_url: Some("https://youtu.be/abc".to_string()),
    };
    let item = search_item(&r);
    assert_eq!(item.thumbnail, "https://i.ytimg.com/vi/abc/hqdefault.jpg");
    assert_eq!(item.channel, "Up");
    assert_eq!(item.duration, "3:33");
    assert_eq!(item.url, "https://youtu.be/abc");
}

#[test]
fn port_retries_stop_after_ten() {
    assert_eq!(next_port(3000, 3000), Some(3001));
    assert_eq!(next_port(3000, 3009), Some(3010));
    assert_eq!(next_port(3000, 3010), None);
}

#[test]
fn download_path_prefers_download_folder() {
    let sep = std::path::MAIN_SEPARATOR;
    assert_eq!(
        download_path_in(Some("/d".to_string()), Some("/h".to_string())),
        format!("/d{}ONYX", sep)
    );
    assert_eq!(
        download_path_in(None, Some("/h".to_string())),
        format!("/h{}Downloads{}ONYX", sep, sep)
    );
    assert_eq!(download_path_in(None, None), format!(".{}ONYX", sep));
}
