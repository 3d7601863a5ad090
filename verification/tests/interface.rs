use onyx::config::Config;
use onyx::deps::DependencyStatus;
use onyx::formats::{AudioFormat, QualityPreset};
use onyx::menu::{MainMenu, MenuAction};
use onyx::screens::{AudioState, PlaylistState, SearchState, ThumbnailState, VideoState};
use onyx::search::SearchResult;
use onyx::download::DownloadProgress;
use onyx::session::{App, AppEffect, EnterAction, KeyStep, Screen};
use onyx::settings::{next_completion_name, SettingsOption, SettingsScreen, SettingsState};
use onyx::widgets::{InputField, Key, ProgressBar, SelectionList};

fn config() -> Config {
    Config { download_path: "/home/me/Downloads".to_string(), parallel_downloads: 3, debug_mode: false }
}

fn ready_app() -> App {
    let mut app = App::new(config());
    app.set_deps(DependencyStatus { ytdlp: Some("yt-dlp".to_string()), ytdlp_version: None, ffmpeg: None });
    app
}

fn press(app: &mut App, key: Key) -> AppEffect {
    assert!(app.accepts(key));
    app.handle_key(key)
}

fn type_text(app: &mut App, text: &str) {
    for c in text.chars() {
        press(app, Key::Char(c));
    }
}

#[test]
fn menu_skips_separator_both_ways() {
    let mut m = MainMenu::new();
    for _ in 0..5 {
        m.next();
    }
    assert_eq!(m.selected_index(), 5);
    m.next();
    assert_eq!(m.selected_index(), 7);
    assert_eq!(m.selected_action(), MenuAction::Settings);
    m.previous();
    assert_eq!(m.selected_index(), 5);
    m.next();
    m.next();
    assert_eq!(m.selected_action(), MenuAction::Exit);
    m.next();
    assert_eq!(m.selected_index(), 0);
    m.previous();
    assert_eq!(m.selected_index(), 8);
    assert_eq!(m.items().len(), 9);
    assert!(m.items()[6].is_separator);
}

#[test]
fn input_field_edits_at_cursor() {
    let mut f = InputField::new("URL:");
    for c in "hello".chars() {
        assert!(f.accepts(Key::Char(c)));
        f.handle_key(Key::Char(c));
    }
    assert_eq!(f.value, "hello");
    f.handle_key(Key::Home);
    f.handle_key(Key::Delete);
    assert_eq!(f.value, "ello");
    f.handle_key(Key::End);
    assert_eq!(f.cursor_position, f.value.len());
    f.handle_key(Key::Backspace);
    assert_eq!(f.value, "ell");
    f.clear();
    assert_eq!(f.value, "");
    assert_eq!(f.cursor_position, 0);
}

#[test]
fn input_cursor_counts_bytes() {
    let mut f = InputField::new("URL:");
    f.handle_key(Key::Char('h'));
    f.handle_key(Key::Char('é'));
    assert_eq!(f.value, "hé");
    assert_eq!(f.cursor_position, 2);
    assert!(!f.accepts(Key::Char('x')));
    f.handle_key(Key::End);
    assert_eq!(f.cursor_position, 3);
    assert!(f.accepts(Key::Backspace) == false);
    f.handle_key(Key::Home);
    f.handle_key(Key::Delete);
    assert_eq!(f.value, "é");
}

#[test]
fn typing_then_backspace_restores_field() {
    let mut f = InputField::new("URL:");
    f.handle_key(Key::Char('a'));
    f.handle_key(Key::Char('b'));
    f.handle_key(Key::Left);
    let before = (f.value.clone(), f.cursor_position);
    f.handle_key(Key::Char('x'));
    assert_eq!(f.value, "axb");
    f.handle_key(Key::Backspace);
    assert_eq!((f.value.clone(), f.cursor_position), before);
}

#[test]
fn selection_list_wraps() {
    let mut l: SelectionList<u32> = SelectionList::new("T");
    l.set_items(vec![("a".to_string(), 1), ("b".to_string(), 2), ("c".to_string(), 3)]);
    assert_eq!(l.selected_item(), Some(&1));
    l.previous();
    assert_eq!(l.selected_item(), Some(&3));
    l.next();
    assert_eq!(l.selected_item(), Some(&1));
    l.next();
    l.previous();
    assert_eq!(l.selected, 0);
}

#[test]
fn progress_bar_is_capped() {
    let mut p = ProgressBar::new("Downloading...");
    p.set_progress(4520);
    assert_eq!(p.progress, 4520);
    p.set_progress(20000);
    assert_eq!(p.progress, 10000);
}

#[test]
fn app_starts_loading_then_menu() {
    let mut app = App::new(config());
    assert_eq!(app.screen, Screen::Loading);
    assert_eq!(app.loading_message, "Initializing...");
    assert!(app.is_busy());
    app.on_deps(Err("no network".to_string()));
    assert_eq!(app.loading_message, "Error: no network");
    assert_eq!(app.screen, Screen::Loading);
    app.on_deps(Ok(DependencyStatus { ytdlp: None, ytdlp_version: None, ffmpeg: None }));
    assert_eq!(app.screen, Screen::Menu);
    assert_eq!(app.web_server_port, 3000);
}

#[test]
fn q_quits_from_menu_only() {
    let mut app = ready_app();
    press(&mut app, Key::Enter);
    assert_eq!(app.screen, Screen::Search);
    type_text(&mut app, "q");
    assert!(!app.should_quit);
    assert_eq!(app.search.input.value, "q");
    press(&mut app, Key::Esc);
    assert_eq!(app.screen, Screen::Menu);
    assert_eq!(app.search.input.value, "");
    press(&mut app, Key::Char('q'));
    assert!(app.should_quit);
}

#[test]
fn search_flow_decisions() {
    let mut app = ready_app();
    press(&mut app, Key::Enter);
    assert!(matches!(app.on_enter(), EnterAction::NotHandled));
    type_text(&mut app, "lofi");
    match app.on_enter() {
        EnterAction::Search { query, max_results } => {
            assert_eq!(query, "lofi");
            assert_eq!(max_results, 10);
        },
        _ => panic!("expected a search"),
    }
    assert!(app.is_busy());
    let result = SearchResult {
        id: "v1".to_string(),
        title: "Lofi".to_string(),
        duration_secs: Some(60),
        duration_string: None,
        channel: Some("Chan".to_string()),
        uploader: None,
        view_count: None,
        thumbnail: None,
        webpage_url: None,
    };
    app.on_search_results(Ok(vec![result]));
    assert_eq!(app.search.state, SearchState::Results);
    assert!(!app.is_busy());
    match app.on_enter() {
        EnterAction::FetchVideoInfo(url) => assert_eq!(url, "https://www.youtube.com/watch?v=v1"),
        _ => panic!("expected a lookup"),
    }
    app.on_video_info(Err("bad".to_string()));
    assert_eq!(app.search.status_message, Some(("Failed: bad".to_string(), true)));
    app.on_search_results(Err("offline".to_string()));
    assert_eq!(app.search.status_message, Some(("Search failed: offline".to_string(), true)));
}

#[test]
fn video_flow_and_progress() {
    let mut app = ready_app();
    press(&mut app, Key::Down);
    press(&mut app, Key::Enter);
    assert_eq!(app.screen, Screen::Video);
    type_text(&mut app, "https://y/v");
    match app.on_enter() {
        EnterAction::FetchVideoInfo(url) => assert_eq!(url, "https://y/v"),
        _ => panic!("expected a lookup"),
    }
    assert_eq!(app.video.state, VideoState::FetchingInfo);
    app.on_video_info(Err("gone".to_string()));
    assert_eq!(app.video.state, VideoState::UrlInput);
    assert_eq!(app.video.status_message, Some(("Failed: gone".to_string(), true)));
    app.video.state = VideoState::QualitySelect;
    app.video.quality_options.set_items(vec![
        ("🎥 720p".to_string(), "bestvideo[height<=720]+bestaudio/best".to_string()),
        ("───".to_string(), "separator".to_string()),
        ("🎵 MP3".to_string(), "mp3".to_string()),
    ]);
    press(&mut app, Key::Down);
    assert!(matches!(app.on_enter(), EnterAction::Handled));
    assert_eq!(app.video.state, VideoState::QualitySelect);
    press(&mut app, Key::Down);
    match app.on_enter() {
        EnterAction::DownloadAudio { url, output_path, audio } => {
            assert_eq!(url, "https://y/v");
            assert_eq!(output_path, "/home/me/Downloads");
            assert_eq!(audio, AudioFormat::Mp3);
        },
        _ => panic!("expected an audio download"),
    }
    assert_eq!(app.video.state, VideoState::Downloading);
    app.on_progress(DownloadProgress::Downloading { percent: 4520, speed: "1MiB/s".to_string(), eta: "00:10".to_string() });
    assert_eq!(app.video.progress.progress, 4520);
    assert_eq!(app.video.progress.status, "Speed: 1MiB/s • ETA: 00:10");
    app.on_progress(DownloadProgress::PostProcessing);
    assert_eq!(app.video.progress.status, "Processing...");
    app.on_progress(DownloadProgress::Finished("a.mp3".to_string()));
    assert_eq!(app.video.state, VideoState::Done);
    assert_eq!(app.video.progress.progress, 10000);
    assert_eq!(app.video.status_message, Some(("Saved to: a.mp3".to_string(), false)));
    press(&mut app, Key::Enter);
    assert_eq!(app.screen, Screen::Menu);
    assert_eq!(app.video.state, VideoState::UrlInput);
}

#[test]
fn audio_escape_steps_back() {
    let mut app = ready_app();
    press(&mut app, Key::Down);
    press(&mut app, Key::Down);
    press(&mut app, Key::Enter);
    assert_eq!(app.screen, Screen::Audio);
    app.audio.state = AudioState::FormatSelect;
    press(&mut app, Key::Esc);
    assert_eq!(app.audio.state, AudioState::QualitySelect);
    press(&mut app, Key::Esc);
    assert_eq!(app.audio.state, AudioState::UrlInput);
    press(&mut app, Key::Esc);
    assert_eq!(app.screen, Screen::Menu);
    app.screen = Screen::Audio;
    app.audio.state = AudioState::Downloading;
    app.on_progress(DownloadProgress::Error("Audio download failed".to_string()));
    assert_eq!(app.audio.state, AudioState::Done);
    assert_eq!(app.audio.status_message, Some(("Error: Audio download failed".to_string(), true)));
}

#[test]
fn playlist_audio_line_and_presets() {
    let mut app = ready_app();
    for _ in 0..3 {
        press(&mut app, Key::Down);
    }
    press(&mut app, Key::Enter);
    assert_eq!(app.screen, Screen::Playlist);
    type_text(&mut app, "https://y/list");
    assert!(matches!(app.on_enter(), EnterAction::FetchPlaylistInfo(_)));
    app.on_playlist_info(Ok(onyx::formats::PlaylistInfo {
        id: None,
        title: "Mix".to_string(),
        entries: Vec::new(),
        playlist_count: None,
    }));
    assert_eq!(app.playlist.state, PlaylistState::PresetSelect);
    match app.on_enter() {
        EnterAction::DownloadPlaylist { playlist_name, preset, audio_only, parallel, .. } => {
            assert_eq!(playlist_name, "Mix");
            assert!(matches!(preset, QualityPreset::God));
            assert!(!audio_only);
            assert_eq!(parallel, 4);
        },
        _ => panic!("expected a playlist download"),
    }
    app.playlist.state = PlaylistState::PresetSelect;
    app.playlist.preset_options.selected = 6;
    assert!(matches!(app.on_enter(), EnterAction::Handled));
    app.playlist.preset_options.selected = 7;
    assert!(matches!(app.on_enter(), EnterAction::Handled));
    assert_eq!(app.playlist.state, PlaylistState::AudioFormatSelect);
    assert!(app.playlist.is_audio_mode);
    match app.on_enter() {
        EnterAction::DownloadPlaylist { audio_only, audio_format, .. } => {
            assert!(audio_only);
            assert_eq!(audio_format, Some(AudioFormat::Mp3));
        },
        _ => panic!("expected an audio playlist download"),
    }
    app.on_progress(DownloadProgress::Finished("Playlist".to_string()));
    assert_eq!(app.playlist.status_message, Some(("Playlist download complete".to_string(), false)));
}

#[test]
fn thumbnail_flow() {
    let mut app = ready_app();
    for _ in 0..4 {
        press(&mut app, Key::Down);
    }
    press(&mut app, Key::Enter);
    assert_eq!(app.screen, Screen::Thumbnail);
    type_text(&mut app, "u");
    assert!(matches!(app.on_enter(), EnterAction::FetchThumbnailInfo(_)));
    assert_eq!(app.thumbnail.state, ThumbnailState::Fetching);
    app.thumbnail.state = ThumbnailState::SelectResolution;
    match app.on_enter() {
        EnterAction::DownloadThumbnails { url, output_path } => {
            assert_eq!(url, "u");
            assert_eq!(output_path, "/home/me/Downloads");
        },
        _ => panic!("expected thumbnails"),
    }
    app.on_thumbnails_saved(Err("curl".to_string()));
    assert_eq!(app.thumbnail.state, ThumbnailState::SelectResolution);
    app.on_thumbnails_saved(Ok(vec!["a.jpg".to_string()]));
    assert_eq!(app.thumbnail.state, ThumbnailState::Done);
    assert_eq!(app.thumbnail.downloaded_files, vec!["a.jpg".to_string()]);
}

#[test]
fn settings_toggle_edit_and_save() {
    let mut app = ready_app();
    for _ in 0..6 {
        press(&mut app, Key::Down);
    }
    press(&mut app, Key::Enter);
    assert_eq!(app.screen, Screen::Settings);
    assert_eq!(app.settings.path_input.value, "/home/me/Downloads");
    press(&mut app, Key::Down);
    press(&mut app, Key::Down);
    assert_eq!(app.settings.selected_option(), SettingsOption::DebugMode);
    assert_eq!(press(&mut app, Key::Enter), AppEffect::SaveConfig);
    assert!(app.config.debug_mode);
    assert_eq!(app.settings.status_message, Some(("Debug mode enabled".to_string(), false)));
    press(&mut app, Key::Up);
    assert_eq!(press(&mut app, Key::Enter), AppEffect::Nothing);
    assert_eq!(app.settings.state, SettingsState::EditingParallel);
    for _ in 0..20 {
        press(&mut app, Key::Right);
    }
    assert_eq!(app.settings.parallel_value, 10);
    assert_eq!(press(&mut app, Key::Enter), AppEffect::SaveConfig);
    assert_eq!(app.config.parallel_downloads, 10);
    assert_eq!(app.settings.status_message, Some(("Parallel downloads updated!".to_string(), false)));
    press(&mut app, Key::Up);
    press(&mut app, Key::Enter);
    assert_eq!(app.settings.state, SettingsState::EditingPath);
    press(&mut app, Key::Backspace);
    assert_eq!(press(&mut app, Key::Tab), AppEffect::CompletePath);
    assert_eq!(press(&mut app, Key::Enter), AppEffect::SaveConfig);
    assert_eq!(app.config.download_path, "/home/me/Download");
    press(&mut app, Key::Esc);
    assert_eq!(app.screen, Screen::Menu);
}

#[test]
fn completion_cycles_through_directories() {
    let names = vec!["music".to_string(), "movies".to_string(), "docs".to_string()];
    assert_eq!(next_completion_name(&names, "mo", "mo"), Some("movies".to_string()));
    assert_eq!(next_completion_name(&names, "movies", "movies"), Some("music".to_string()));
    assert_eq!(next_completion_name(&names, "music", "music"), Some("docs".to_string()));
    assert_eq!(next_completion_name(&names, "x", "x"), None);
    let twice = vec!["a".to_string(), "a".to_string(), "b".to_string()];
    assert_eq!(next_completion_name(&twice, "a", "a"), Some("a".to_string()));
}

#[test]
fn complete_path_in_a_directory() {
    let mut s = SettingsScreen::new(config());
    s.path_input.value = "/home/me/Mu".to_string();
    s.path_input.cursor_position = s.path_input.value.len();
    assert_eq!(s.completion_dir('/'), "/home/me");
    s.complete_path('/', vec!["Music".to_string(), "Movies".to_string(), "Mutt".to_string()]);
    assert_eq!(s.path_input.value, "/home/me/Music");
    assert_eq!(s.path_input.cursor_position, s.path_input.value.len());
    s.complete_path('/', vec!["Music".to_string(), "Movies".to_string(), "Mutt".to_string()]);
    assert_eq!(s.path_input.value, "/home/me/Mutt");
    s.path_input.value = "./do".to_string();
    s.complete_path('/', vec!["docs".to_string()]);
    assert_eq!(s.path_input.value, "./docs");
    s.path_input.value = "do".to_string();
    assert_eq!(s.completion_dir('/'), ".");
    s.complete_path('/', vec!["docs".to_string()]);
    assert_eq!(s.path_input.value, "docs");
    s.complete_path('/', vec!["zzz".to_string()]);
    assert_eq!(s.path_input.value, "docs");
}

#[test]
fn config_copy_is_equal() {
    let c = config();
    let d = c.copied();
    assert_eq!(d.download_path, c.download_path);
    assert_eq!(d.parallel_downloads, 3);
    assert!(!d.debug_mode);
}

#[test]
fn tick_turns_spinner() {
    let mut app = ready_app();
    press(&mut app, Key::Enter);
    assert!(app.can_tick());
    app.tick();
    assert_eq!(app.search.spinner.current_frame, 1);
    for _ in 0..9 {
        app.tick();
    }
    assert_eq!(app.search.spinner.current_frame, 0);
}

#[test]
fn web_server_starts_once() {
    let mut app = ready_app();
    assert_eq!(app.web_server_to_start(Screen::Menu), None);
    app.screen = Screen::WebServer;
    assert_eq!(app.web_server_to_start(Screen::Menu), Some(3000));
    assert!(app.web_server_running);
    assert_eq!(app.web_server_to_start(Screen::Menu), None);
    press(&mut app, Key::Char('q'));
    assert_eq!(app.screen, Screen::Menu);
    assert!(!app.should_quit);
}

#[test]
fn question_mark_shows_help_and_esc_hides_it() {
    let mut app = ready_app();
    assert!(!app.show_help);
    press(&mut app, Key::Char('?'));
    assert!(app.show_help);
    assert_eq!(app.screen, Screen::Menu);
    press(&mut app, Key::Down);
    assert_eq!(app.menu.selected_index(), 0);
    press(&mut app, Key::Esc);
    assert!(!app.show_help);
    assert!(!app.should_quit);
    press(&mut app, Key::Char('?'));
    press(&mut app, Key::Char('?'));
    assert!(!app.show_help);
    let lines = onyx::session::help_lines();
    assert_eq!(lines.len(), 5);
    assert_eq!(lines[4], ("?", "Show help"));
    assert_eq!(lines[2], ("Esc", "Go back / Cancel"));
}

#[test]
fn key_steps_dispatch() {
    let mut app = App::new(config());
    assert!(matches!(app.on_key(Key::Down, false), KeyStep::Ignored));
    app.set_deps(DependencyStatus { ytdlp: None, ytdlp_version: None, ffmpeg: None });
    assert!(matches!(app.on_key(Key::Enter, false), KeyStep::Handled(AppEffect::Nothing)));
    assert_eq!(app.screen, Screen::Search);
    app.on_key(Key::Char('a'), false);
    assert!(matches!(app.on_key(Key::Enter, false), KeyStep::Started(EnterAction::Search { .. })));
    assert!(matches!(app.on_key(Key::Char('x'), false), KeyStep::Ignored));
    assert!(matches!(app.on_key(Key::Char('c'), true), KeyStep::Quit));
    assert!(app.should_quit);
}

#[test]
fn ascii_field_round_trip() {
    let mut f = InputField::new("URL:");
    for c in "abc".chars() {
        f.handle_key(Key::Char(c));
    }
    f.handle_key(Key::Left);
    let before = (f.value.clone(), f.cursor_position);
    for key in [Key::Char('z'), Key::Backspace, Key::Delete, Key::Left, Key::Right, Key::Home, Key::End, Key::Tab] {
        assert!(f.accepts(key));
    }
    f.handle_key(Key::Char('z'));
    assert_eq!(f.value, "abzc");
    f.handle_key(Key::Backspace);
    assert_eq!((f.value.clone(), f.cursor_position), before);
    f.handle_key(Key::Tab);
    assert_eq!((f.value.clone(), f.cursor_position), before);
    f.handle_key(Key::End);
    assert_eq!(f.cursor_position, 3);
}
