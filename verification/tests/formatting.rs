use onyx::download::{extract_after, extract_between, parse_progress, sanitize_filename};
use onyx::formats::{format_duration, size_label};
use onyx::web::format_size;

#[test]
fn format_size_bytes_kb_mb_gb() {
    assert_eq!(format_size(0), "0 B");
    assert_eq!(format_size(1023), "1023 B");
    assert_eq!(format_size(1024), "1 KB");
    assert_eq!(format_size(1536), "2 KB");
    assert_eq!(format_size(2560), "2 KB");
    assert_eq!(format_size(1048576), "1.0 MB");
    assert_eq!(format_size(1572864), "1.5 MB");
    assert_eq!(format_size(1073741824), "1.0 GB");
    assert_eq!(format_size(5 * 1073741824 + 536870912), "5.5 GB");
}

#[test]
fn format_size_matches_float_rendering() {
    let samples: [u64; 12] = [
        1024, 1536, 2560, 3584, 999_999, 1_048_575, 1_048_576, 1_100_000, 123_456_789,
        1_073_741_824, 3_000_000_000, 987_654_321_000,
    ];
    for &b in samples.iter() {
        let expected = if b >= 1_073_741_824 {
            format!("{:.1} GB", b as f64 / 1_073_741_824.0)
        } else if b >= 1_048_576 {
            format!("{:.1} MB", b as f64 / 1_048_576.0)
        } else if b >= 1024 {
            format!("{:.0} KB", b as f64 / 1024.0)
        } else {
            format!("{} B", b)
        };
        assert_eq!(format_size(b), expected, "bytes {}", b);
    }
}

#[test]
fn size_label_matches_float_rendering() {
    let samples: [u64; 10] = [
        0, 512, 1024, 1536, 1126, 10_000, 1_048_576, 52_428_800, 1_073_741_824, 2_684_354_560,
    ];
    for &s in samples.iter() {
        let expected = if s >= 1_073_741_824 {
            format!("{:.1} GB", s as f64 / 1_073_741_824.0)
        } else if s >= 1_048_576 {
            format!("{:.1} MB", s as f64 / 1_048_576.0)
        } else if s >= 1024 {
            format!("{:.1} KB", s as f64 / 1024.0)
        } else {
            format!("{} B", s)
        };
        assert_eq!(size_label(s), expected, "size {}", s);
    }
}

#[test]
fn format_duration_minutes_and_hours() {
    assert_eq!(format_duration(0), "0:00");
    assert_eq!(format_duration(59), "0:59");
    assert_eq!(format_duration(61), "1:01");
    assert_eq!(format_duration(3599), "59:59");
    assert_eq!(format_duration(3600), "1:00:00");
    assert_eq!(format_duration(3725), "1:02:05");
    assert_eq!(format_duration(86399), "23:59:59");
}

#[test]
fn extract_between_and_after() {
    assert_eq!(extract_between("a [x] b", "[", "]"), Some("x".to_string()));
    assert_eq!(extract_between("no marker", "[", "]"), None);
    assert_eq!(extract_between("start only [", "[", "]"), None);
    assert_eq!(extract_between("at 5MiB/s ETA 00:10", "at", "ETA"), Some(" 5MiB/s ".to_string()));
    assert_eq!(extract_after("ETA 00:15", "ETA"), Some(" 00:15".to_string()));
    assert_eq!(extract_after("nothing", "ETA"), None);
}

#[test]
fn sanitize_replaces_refused_characters_and_trims() {
    assert_eq!(sanitize_filename("a/b\\c:d*e?f\"g<h>i|j"), "a_b_c_d_e_f_g_h_i_j");
    assert_eq!(sanitize_filename("  My Playlist  "), "My Playlist");
    assert_eq!(sanitize_filename(""), "");
    let once = sanitize_filename("  Best: of / 2024?  ");
    assert_eq!(once, "Best_ of _ 2024_");
    assert_eq!(sanitize_filename(&once), once);
}

#[test]
fn parse_progress_example_line() {
    let p = parse_progress("[download]  45.2% of 123.45MiB at  5.67MiB/s ETA 00:15").unwrap();
    assert_eq!(p.percent, "45.2");
    assert_eq!(p.speed, "5.67MiB/s");
    assert_eq!(p.eta, "00:15");
    assert!(parse_progress("[download] Destination: a.mp4").is_none());
}
