//! The application: which screen is shown, and what each key and each
//! finished piece of outside work does to it.

use vstd::prelude::*;
use crate::config::Config;
use crate::deps::DependencyStatus;
use crate::menu::{action_at, MainMenu, MenuAction};
use crate::menu::{menu_next, menu_prev};
use crate::screens::{
    audio_fresh, audio_reset, audio_stepped, playlist_fresh, playlist_reset, playlist_stepped,
    search_fresh, search_reset, search_stepped, thumbnail_fresh, thumbnail_reset,
    thumbnail_stepped, video_fresh, video_reset, video_stepped, AudioScreen, AudioState,
    PlaylistScreen, PlaylistState, SearchScreen, SearchState, ThumbnailScreen, ThumbnailState,
    VideoScreen, VideoState,
};
use crate::settings::{
    config_taken, settings_fresh, settings_stepped, SettingsOption, SettingsScreen, SettingsState,
};
use crate::formats::{AudioFormat, QualityPreset};
use crate::formats::{PlaylistInfo, VideoInfo};
use crate::options::{build_quality_options, pairs_view, search_options};
use crate::screens::{audio_info_shown, video_info_shown};
use crate::download::DownloadProgress;
use crate::search::{result_url, SearchResult};
use crate::widgets::{full_progress, ProgressBar, SelectionList, Spinner};
use crate::widgets::Key;

verus! {

/// The screen shown.
#[derive(Debug, Clone, Copy, PartialEq, Eq, Structural)]
pub enum Screen {
    Loading,
    Menu,
    Search,
    Video,
    Audio,
    Playlist,
    Thumbnail,
    Settings,
    WebServer,
}

/// The whole state of the terminal interface.
pub struct App {
    pub screen: Screen,
    pub config: Config,
    pub deps: Option<DependencyStatus>,
    pub loading_message: String,
    pub should_quit: bool,
    pub menu: MainMenu,
    pub search: SearchScreen,
    pub video: VideoScreen,
    pub audio: AudioScreen,
    pub playlist: PlaylistScreen,
    pub thumbnail: ThumbnailScreen,
    pub settings: SettingsScreen,
    pub web_server_running: bool,
    pub web_server_port: u16,
    pub show_help: bool,
}

/// A screen reached from the menu, which going back leaves.
pub open spec fn is_sub_screen(s: Screen) -> bool {
    s != Screen::Loading && s != Screen::Menu
}

/// Every screen of `b` is that of `a` reset.
pub open spec fn screens_reset(a: App, b: App) -> bool {
    &&& search_reset(a.search, b.search)
    &&& video_reset(a.video, b.video)
    &&& audio_reset(a.audio, b.audio)
    &&& playlist_reset(a.playlist, b.playlist)
    &&& thumbnail_reset(a.thumbnail, b.thumbnail)
    &&& b.settings == (SettingsScreen {
        state: SettingsState::Menu,
        selected: 0,
        status_message: None,
        ..a.settings
    })
}

/// `b` is `a` after going back: from a screen reached from the menu to
/// the menu, with every screen reset; elsewhere nothing changes.
pub open spec fn went_back(a: App, b: App) -> bool {
    if is_sub_screen(a.screen) {
        &&& b == (App {
            screen: Screen::Menu,
            search: b.search,
            video: b.video,
            audio: b.audio,
            playlist: b.playlist,
            thumbnail: b.thumbnail,
            settings: b.settings,
            ..a
        })
        &&& screens_reset(a, b)
    } else {
        b == a
    }
}

/// `b` is `a` after choosing the selected line of the menu: a download
/// screen is opened afresh, the settings screen takes the current
/// settings, Exit asks to quit.
pub open spec fn menu_chosen(a: App, b: App) -> bool {
    match action_at(a.menu.selection()) {
        MenuAction::SearchDownload => b == (App { screen: Screen::Search, search: b.search, ..a })
            && search_reset(a.search, b.search),
        MenuAction::DownloadVideo => b == (App { screen: Screen::Video, video: b.video, ..a })
            && video_reset(a.video, b.video),
        MenuAction::DownloadAudio => b == (App { screen: Screen::Audio, audio: b.audio, ..a })
            && audio_reset(a.audio, b.audio),
        MenuAction::DownloadPlaylist => b == (App {
            screen: Screen::Playlist,
            playlist: b.playlist,
            ..a
        }) && playlist_reset(a.playlist, b.playlist),
        MenuAction::DownloadThumbnail => b == (App {
            screen: Screen::Thumbnail,
            thumbnail: b.thumbnail,
            ..a
        }) && thumbnail_reset(a.thumbnail, b.thumbnail),
        MenuAction::Settings => b == (App { screen: Screen::Settings, settings: b.settings, ..a })
            && config_taken(a.settings, b.settings, a.config),
        MenuAction::WebInterface => b == (App { screen: Screen::WebServer, ..a }),
        MenuAction::Exit => b == (App { should_quit: true, ..a }),
        MenuAction::Separator => b == a,
    }
}

/// What the caller does after a key: nothing, write the settings, or list
/// the directory that `settings.completion_dir` names and hand its
/// subdirectories to `settings.complete_path`.
#[derive(Debug, Clone, Copy, PartialEq, Eq, Structural)]
pub enum AppEffect {
    Nothing,
    SaveConfig,
    CompletePath,
}

/// The key help that ? shows: each key and what it does.
pub open spec fn help_entries() -> Seq<(Seq<char>, Seq<char>)> {
    seq![
        ("↑ ↓"@, "Navigate menu"@),
        ("Enter"@, "Select option"@),
        ("Esc"@, "Go back / Cancel"@),
        ("q"@, "Quit application"@),
        ("?"@, "Show help"@),
    ]
}

/// The lines of the key help, as text pairs.
pub open spec fn help_view(v: Seq<(&'static str, &'static str)>) -> Seq<(Seq<char>, Seq<char>)> {
    v.map_values(|p: (&'static str, &'static str)| (p.0@, p.1@))
}

/// The key help that ? shows: each key and what it does.
pub fn help_lines() -> (r: Vec<(&'static str, &'static str)>)
    ensures
        help_view(r@) == help_entries(),
{
    let mut v: Vec<(&'static str, &'static str)> = Vec::new();
    v.push(("↑ ↓", "Navigate menu"));
    v.push(("Enter", "Select option"));
    v.push(("Esc", "Go back / Cancel"));
    v.push(("q", "Quit application"));
    v.push(("?", "Show help"));
    assert(help_view(v@) =~= help_entries());
    v
}

/// `b` is `a` after a key on the menu: the arrows (or k and j) move the
/// selection, Enter chooses, Esc or q asks to quit, and ? shows the key
/// help. While the help is shown, Esc or ? hides it and other keys do
/// nothing.
pub open spec fn menu_key(a: App, b: App, key: Key) -> bool {
    if a.show_help {
        if key == Key::Esc || key == Key::Char('?') {
            b == (App { show_help: false, ..a })
        } else {
            b == a
        }
    } else if key == Key::Char('?') {
        b == (App { show_help: true, ..a })
    } else if key == Key::Up || key == Key::Char('k') {
        b == (App { menu: b.menu, ..a }) && b.menu.selection() == menu_prev(a.menu.selection())
    } else if key == Key::Down || key == Key::Char('j') {
        b == (App { menu: b.menu, ..a }) && b.menu.selection() == menu_next(a.menu.selection())
    } else if key == Key::Enter {
        menu_chosen(a, b)
    } else if key == Key::Esc || key == Key::Char('q') {
        b == (App { should_quit: true, ..a })
    } else {
        b == a
    }
}

/// `b` is `a` after a key on the search screen: Esc steps back, other
/// keys but Enter go to the screen.
pub open spec fn search_key(a: App, b: App, key: Key) -> bool {
    if key == Key::Esc {
        match a.search.state {
            SearchState::Input => went_back(a, b),
            SearchState::Results => b == (App {
                search: SearchScreen { state: SearchState::Input, ..a.search },
                ..a
            }),
            SearchState::QualitySelect => b == (App {
                search: SearchScreen { state: SearchState::Results, ..a.search },
                ..a
            }),
        }
    } else if key == Key::Enter {
        b == a
    } else {
        b == (App { search: b.search, ..a }) && search_stepped(a.search, b.search, key)
    }
}

/// `b` is `a` after a key on the video screen: Esc steps back, Enter
/// when done goes back to the menu, other keys go to the screen.
pub open spec fn video_key(a: App, b: App, key: Key) -> bool {
    if key == Key::Esc {
        match a.video.state {
            VideoState::UrlInput => went_back(a, b),
            VideoState::QualitySelect => b == (App {
                video: VideoScreen { state: VideoState::UrlInput, video_info: None, ..a.video },
                ..a
            }),
            VideoState::Done => went_back(a, b),
            _ => b == a,
        }
    } else if key == Key::Enter && a.video.state == VideoState::Done {
        went_back(a, b)
    } else {
        b == (App { video: b.video, ..a }) && video_stepped(a.video, b.video, key)
    }
}

/// `b` is `a` after a key on the audio screen; as on the video screen,
/// and Esc while the format is chosen goes back to the bitrates.
pub open spec fn audio_key(a: App, b: App, key: Key) -> bool {
    if key == Key::Esc {
        match a.audio.state {
            AudioState::UrlInput => went_back(a, b),
            AudioState::QualitySelect => b == (App {
                audio: AudioScreen { state: AudioState::UrlInput, video_info: None, ..a.audio },
                ..a
            }),
            AudioState::FormatSelect => b == (App {
                audio: AudioScreen { state: AudioState::QualitySelect, ..a.audio },
                ..a
            }),
            AudioState::Done => went_back(a, b),
            _ => b == a,
        }
    } else if key == Key::Enter && a.audio.state == AudioState::Done {
        went_back(a, b)
    } else {
        b == (App { audio: b.audio, ..a }) && audio_stepped(a.audio, b.audio, key)
    }
}

/// `b` is `a` after a key on the playlist screen; as on the audio screen.
pub open spec fn playlist_key(a: App, b: App, key: Key) -> bool {
    if key == Key::Esc {
        match a.playlist.state {
            PlaylistState::UrlInput => went_back(a, b),
            PlaylistState::PresetSelect => b == (App {
                playlist: PlaylistScreen {
                    state: PlaylistState::UrlInput,
                    playlist_info: None,
                    ..a.playlist
                },
                ..a
            }),
            PlaylistState::AudioFormatSelect => b == (App {
                playlist: PlaylistScreen { state: PlaylistState::PresetSelect, ..a.playlist },
                ..a
            }),
            PlaylistState::Done => went_back(a, b),
            _ => b == a,
        }
    } else if key == Key::Enter && a.playlist.state == PlaylistState::Done {
        went_back(a, b)
    } else {
        b == (App { playlist: b.playlist, ..a }) && playlist_stepped(a.playlist, b.playlist, key)
    }
}

/// `b` is `a` after a key on the thumbnail screen; as on the video screen.
pub open spec fn thumbnail_key(a: App, b: App, key: Key) -> bool {
    if key == Key::Esc {
        match a.thumbnail.state {
            ThumbnailState::UrlInput => went_back(a, b),
            ThumbnailState::SelectResolution => b == (App {
                thumbnail: ThumbnailScreen { state: ThumbnailState::UrlInput, ..a.thumbnail },
                ..a
            }),
            ThumbnailState::Done => went_back(a, b),
            _ => b == a,
        }
    } else if key == Key::Enter && a.thumbnail.state == ThumbnailState::Done {
        went_back(a, b)
    } else {
        b == (App { thumbnail: b.thumbnail, ..a }) && thumbnail_stepped(
            a.thumbnail,
            b.thumbnail,
            key,
        )
    }
}

/// `b` is the settings screen `a` after taking the settings `c` and
/// showing `msg`.
pub open spec fn settings_saved(a: SettingsScreen, b: SettingsScreen, c: Config, msg: Seq<char>) -> bool {
    &&& b.status_message matches Some((m, is_error)) && m@ == msg && !is_error
    &&& config_taken(a, SettingsScreen { status_message: a.status_message, ..b }, c)
}

/// The message after debug mode is switched.
pub open spec fn debug_message(on: bool) -> Seq<char> {
    if on {
        "Debug mode enabled"@
    } else {
        "Debug mode disabled"@
    }
}

/// `b` is `a` after a key on the settings screen: Esc leaves an edit, or
/// the screen; Enter opens the selected edit, switches debug mode, or
/// stores the edited value (and the settings are to be written); other
/// keys go to the screen.
pub open spec fn settings_key(a: App, b: App, key: Key) -> bool {
    if key == Key::Esc {
        if a.settings.state == SettingsState::Menu {
            went_back(a, b)
        } else {
            b == (App { settings: SettingsScreen { state: SettingsState::Menu, ..a.settings }, ..a })
        }
    } else if key == Key::Enter {
        match a.settings.state {
            SettingsState::Menu => match a.settings.options@[a.settings.selected as int] {
                SettingsOption::DownloadPath => b == (App {
                    settings: SettingsScreen { state: SettingsState::EditingPath, ..a.settings },
                    ..a
                }),
                SettingsOption::ParallelDownloads => b == (App {
                    settings: SettingsScreen {
                        state: SettingsState::EditingParallel,
                        parallel_value: a.config.parallel_downloads,
                        ..a.settings
                    },
                    ..a
                }),
                SettingsOption::DebugMode => {
                    let c = Config { debug_mode: !a.config.debug_mode, ..a.config };
                    &&& b == (App { config: c, settings: b.settings, ..a })
                    &&& settings_saved(a.settings, b.settings, c, debug_message(c.debug_mode))
                },
                SettingsOption::Back => went_back(a, b),
            },
            SettingsState::EditingPath => {
                let c = Config { download_path: a.settings.path_input.value, ..a.config };
                &&& b == (App { config: c, settings: b.settings, ..a })
                &&& settings_saved(
                    SettingsScreen { state: SettingsState::Menu, ..a.settings },
                    b.settings,
                    c,
                    "Download path updated!"@,
                )
            },
            SettingsState::EditingParallel => {
                let c = Config { parallel_downloads: a.settings.parallel_value, ..a.config };
                &&& b == (App { config: c, settings: b.settings, ..a })
                &&& settings_saved(
                    SettingsScreen { state: SettingsState::Menu, ..a.settings },
                    b.settings,
                    c,
                    "Parallel downloads updated!"@,
                )
            },
        }
    } else {
        b == (App { settings: b.settings, ..a }) && settings_stepped(a.settings, b.settings, key)
    }
}

/// The effect that a key on the settings screen asks for.
pub open spec fn settings_effect(a: App, key: Key) -> AppEffect {
    if key == Key::Enter && (a.settings.state != SettingsState::Menu
        || a.settings.options@[a.settings.selected as int] == SettingsOption::DebugMode) {
        AppEffect::SaveConfig
    } else if key == Key::Tab && a.settings.state == SettingsState::EditingPath {
        AppEffect::CompletePath
    } else {
        AppEffect::Nothing
    }
}

/// `b` is `a` after `key`, on whichever screen is shown.
pub open spec fn key_handled(a: App, b: App, key: Key) -> bool {
    match a.screen {
        Screen::Loading => b == a,
        Screen::Menu => menu_key(a, b, key),
        Screen::Search => search_key(a, b, key),
        Screen::Video => video_key(a, b, key),
        Screen::Audio => audio_key(a, b, key),
        Screen::Playlist => playlist_key(a, b, key),
        Screen::Thumbnail => thumbnail_key(a, b, key),
        Screen::Settings => settings_key(a, b, key),
        Screen::WebServer => if key == Key::Esc || key == Key::Char('q') {
            went_back(a, b)
        } else {
            b == a
        },
    }
}

/// What the caller starts after Enter: `NotHandled` hands the key on to
/// `handle_key`; `Handled` starts nothing; the others name the outside
/// work to start, whose outcome comes back through the `on_` methods.
pub enum EnterAction {
    NotHandled,
    Handled,
    Search { query: String, max_results: u32 },
    FetchVideoInfo(String),
    FetchPlaylistInfo(String),
    FetchThumbnailInfo(String),
    DownloadVideo { url: String, output_path: String, format: String },
    DownloadAudio { url: String, output_path: String, audio: AudioFormat },
    DownloadPlaylist {
        url: String,
        output_path: String,
        playlist_name: String,
        preset: QualityPreset,
        audio_only: bool,
        audio_format: Option<AudioFormat>,
        parallel: usize,
    },
    DownloadThumbnails { url: String, output_path: String },
}

/// An `EnterAction`, its strings as text.
pub enum EnterView {
    NotHandled,
    Handled,
    Search(Seq<char>, u32),
    FetchVideoInfo(Seq<char>),
    FetchPlaylistInfo(Seq<char>),
    FetchThumbnailInfo(Seq<char>),
    DownloadVideo(Seq<char>, Seq<char>, Seq<char>),
    DownloadAudio(Seq<char>, Seq<char>, AudioFormat),
    DownloadPlaylist(Seq<char>, Seq<char>, Seq<char>, QualityPreset, bool, Option<AudioFormat>, usize),
    DownloadThumbnails(Seq<char>, Seq<char>),
}

impl View for EnterAction {
    type V = EnterView;

    open spec fn view(&self) -> EnterView {
        match self {
            EnterAction::NotHandled => EnterView::NotHandled,
            EnterAction::Handled => EnterView::Handled,
            EnterAction::Search { query, max_results } => EnterView::Search(query@, *max_results),
            EnterAction::FetchVideoInfo(u) => EnterView::FetchVideoInfo(u@),
            EnterAction::FetchPlaylistInfo(u) => EnterView::FetchPlaylistInfo(u@),
            EnterAction::FetchThumbnailInfo(u) => EnterView::FetchThumbnailInfo(u@),
            EnterAction::DownloadVideo { url, output_path, format } => EnterView::DownloadVideo(
                url@,
                output_path@,
                format@,
            ),
            EnterAction::DownloadAudio { url, output_path, audio } => EnterView::DownloadAudio(
                url@,
                output_path@,
                *audio,
            ),
            EnterAction::DownloadPlaylist {
                url,
                output_path,
                playlist_name,
                preset,
                audio_only,
                audio_format,
                parallel,
            } => EnterView::DownloadPlaylist(
                url@,
                output_path@,
                playlist_name@,
                *preset,
                *audio_only,
                *audio_format,
                *parallel,
            ),
            EnterAction::DownloadThumbnails { url, output_path } => EnterView::DownloadThumbnails(
                url@,
                output_path@,
            ),
        }
    }
}

/// How many results a search asks for.
pub open spec fn search_count() -> u32 {
    10
}

/// How many playlist items are fetched at once.
pub open spec fn playlist_parallel() -> usize {
    4
}

/// The name of a playlist download: the playlist's title, else "Playlist".
pub open spec fn playlist_name(a: App) -> Seq<char> {
    match a.playlist.playlist_info {
        Some(p) => p.title@,
        None => "Playlist"@,
    }
}

/// `b` and `r` are `a` and the action after Enter on the search screen: a
/// typed query is searched, a chosen result's formats fetched, a chosen
/// quality downloaded.
pub open spec fn search_enter(a: App, b: App, r: EnterView) -> bool {
    match a.search.state {
        SearchState::Input => if a.search.input.value@.len() > 0 {
            &&& b == (App { search: SearchScreen { is_loading: true, ..a.search }, ..a })
            &&& r == EnterView::Search(a.search.input.value@, search_count())
        } else {
            b == a && r == EnterView::NotHandled
        },
        SearchState::Results => if a.search.selected_result < a.search.results@.len() {
            &&& b == (App { search: SearchScreen { is_loading: true, ..a.search }, ..a })
            &&& r == EnterView::FetchVideoInfo(
                result_url(a.search.results@[a.search.selected_result as int]),
            )
        } else {
            b == a && r == EnterView::Handled
        },
        SearchState::QualitySelect => {
            let q = a.search.quality_options;
            if q.selected < q.items@.len() && a.search.selected_result < a.search.results@.len() {
                &&& b == (App {
                    search: SearchScreen { is_loading: true, status_message: None, ..a.search },
                    ..a
                })
                &&& r == EnterView::DownloadVideo(
                    result_url(a.search.results@[a.search.selected_result as int]),
                    a.config.download_path@,
                    q.items@[q.selected as int].1@,
                )
            } else {
                b == a && r == EnterView::Handled
            }
        },
    }
}

/// The video screen with a download begun.
pub open spec fn video_downloading(v: VideoScreen) -> VideoScreen {
    VideoScreen {
        state: VideoState::Downloading,
        progress: crate::widgets::ProgressBar { progress: 0, ..v.progress },
        status_message: None,
        ..v
    }
}

/// The audio screen with a download begun.
pub open spec fn audio_downloading(v: AudioScreen) -> AudioScreen {
    AudioScreen {
        state: AudioState::Downloading,
        progress: crate::widgets::ProgressBar { progress: 0, ..v.progress },
        status_message: None,
        ..v
    }
}

/// `b` and `r` after Enter on the video screen: a typed URL is looked up;
/// the chosen quality is downloaded ("mp3" as audio; the separator line
/// does nothing).
pub open spec fn video_enter(a: App, b: App, r: EnterView) -> bool {
    match a.video.state {
        VideoState::UrlInput => if a.video.input.value@.len() > 0 {
            &&& b == (App { video: VideoScreen { state: VideoState::FetchingInfo, ..a.video }, ..a })
            &&& r == EnterView::FetchVideoInfo(a.video.input.value@)
        } else {
            b == a && r == EnterView::NotHandled
        },
        VideoState::QualitySelect => {
            let q = a.video.quality_options;
            if q.selected < q.items@.len() {
                let f = q.items@[q.selected as int].1@;
                if f == "mp3"@ {
                    &&& b == (App { video: video_downloading(a.video), ..a })
                    &&& r == EnterView::DownloadAudio(
                        a.video.input.value@,
                        a.config.download_path@,
                        AudioFormat::Mp3,
                    )
                } else if f != "separator"@ {
                    &&& b == (App { video: video_downloading(a.video), ..a })
                    &&& r == EnterView::DownloadVideo(
                        a.video.input.value@,
                        a.config.download_path@,
                        f,
                    )
                } else {
                    b == a && r == EnterView::Handled
                }
            } else {
                b == a && r == EnterView::Handled
            }
        },
        _ => b == a && r == EnterView::NotHandled,
    }
}

/// `b` and `r` after Enter on the audio screen: a typed URL is looked up;
/// a chosen bitrate leads to the formats; a chosen format is downloaded.
pub open spec fn audio_enter(a: App, b: App, r: EnterView) -> bool {
    match a.audio.state {
        AudioState::UrlInput => if a.audio.input.value@.len() > 0 {
            &&& b == (App { audio: AudioScreen { state: AudioState::FetchingInfo, ..a.audio }, ..a })
            &&& r == EnterView::FetchVideoInfo(a.audio.input.value@)
        } else {
            b == a && r == EnterView::NotHandled
        },
        AudioState::QualitySelect => {
            let q = a.audio.quality_options;
            &&& r == EnterView::Handled
            &&& if q.selected < q.items@.len() {
                b == (App {
                    audio: AudioScreen {
                        state: AudioState::FormatSelect,
                        selected_quality: Some(q.items@[q.selected as int].1),
                        ..a.audio
                    },
                    ..a
                })
            } else {
                b == a
            }
        },
        AudioState::FormatSelect => {
            let q = a.audio.format_options;
            if q.selected < q.items@.len() {
                &&& b == (App { audio: audio_downloading(a.audio), ..a })
                &&& r == EnterView::DownloadAudio(
                    a.audio.input.value@,
                    a.config.download_path@,
                    q.items@[q.selected as int].1,
                )
            } else {
                b == a && r == EnterView::Handled
            }
        },
        _ => b == a && r == EnterView::NotHandled,
    }
}

/// The playlist screen with a download begun.
pub open spec fn playlist_downloading(v: PlaylistScreen) -> PlaylistScreen {
    PlaylistScreen { state: PlaylistState::Downloading, status_message: None, ..v }
}

/// `b` and `r` after Enter on the playlist screen: a typed URL is looked
/// up; the "audio only" line leads to the audio formats, a preset (not the
/// separator) downloads the playlist, and so does the audio format list,
/// as MP3.
pub open spec fn playlist_enter(a: App, b: App, r: EnterView) -> bool {
    match a.playlist.state {
        PlaylistState::UrlInput => if a.playlist.input.value@.len() > 0 {
            &&& b == (App {
                playlist: PlaylistScreen { state: PlaylistState::FetchingInfo, ..a.playlist },
                ..a
            })
            &&& r == EnterView::FetchPlaylistInfo(a.playlist.input.value@)
        } else {
            b == a && r == EnterView::NotHandled
        },
        PlaylistState::PresetSelect => {
            let q = a.playlist.preset_options;
            if q.selected == crate::screens::audio_only_line() {
                &&& b == (App {
                    playlist: PlaylistScreen {
                        is_audio_mode: true,
                        state: PlaylistState::AudioFormatSelect,
                        ..a.playlist
                    },
                    ..a
                })
                &&& r == EnterView::Handled
            } else if q.selected != crate::screens::preset_separator_line() && q.selected
                < q.items@.len() {
                &&& b == (App { playlist: playlist_downloading(a.playlist), ..a })
                &&& r == EnterView::DownloadPlaylist(
                    a.playlist.input.value@,
                    a.config.download_path@,
                    playlist_name(a),
                    q.items@[q.selected as int].1,
                    false,
                    None,
                    playlist_parallel(),
                )
            } else {
                b == a && r == EnterView::Handled
            }
        },
        PlaylistState::AudioFormatSelect => {
            &&& b == (App { playlist: playlist_downloading(a.playlist), ..a })
            &&& r == EnterView::DownloadPlaylist(
                a.playlist.input.value@,
                a.config.download_path@,
                playlist_name(a),
                QualityPreset::God,
                true,
                Some(AudioFormat::Mp3),
                playlist_parallel(),
            )
        },
        _ => b == a && r == EnterView::NotHandled,
    }
}

/// `b` and `r` after Enter on the thumbnail screen: a typed URL is looked
/// up; at the sizes the thumbnails are saved.
pub open spec fn thumbnail_enter(a: App, b: App, r: EnterView) -> bool {
    match a.thumbnail.state {
        ThumbnailState::UrlInput => if a.thumbnail.input.value@.len() > 0 {
            &&& b == (App {
                thumbnail: ThumbnailScreen { state: ThumbnailState::Fetching, ..a.thumbnail },
                ..a
            })
            &&& r == EnterView::FetchThumbnailInfo(a.thumbnail.input.value@)
        } else {
            b == a && r == EnterView::NotHandled
        },
        ThumbnailState::SelectResolution => {
            &&& b == (App {
                thumbnail: ThumbnailScreen { state: ThumbnailState::Downloading, ..a.thumbnail },
                ..a
            })
            &&& r == EnterView::DownloadThumbnails(
                a.thumbnail.input.value@,
                a.config.download_path@,
            )
        },
        _ => b == a && r == EnterView::NotHandled,
    }
}

/// `b` and `r` after Enter, on whichever screen is shown.
pub open spec fn enter_handled(a: App, b: App, r: EnterView) -> bool {
    match a.screen {
        Screen::Search => search_enter(a, b, r),
        Screen::Video => video_enter(a, b, r),
        Screen::Audio => audio_enter(a, b, r),
        Screen::Playlist => playlist_enter(a, b, r),
        Screen::Thumbnail => thumbnail_enter(a, b, r),
        _ => b == a && r == EnterView::NotHandled,
    }
}

/// Whether the shown screen waits for outside work, and takes no key.
pub open spec fn busy(a: App) -> bool {
    match a.screen {
        Screen::Loading => true,
        Screen::Search => a.search.is_loading,
        Screen::Video => a.video.state == VideoState::FetchingInfo,
        Screen::Audio => a.audio.state == AudioState::FetchingInfo,
        Screen::Playlist => a.playlist.state == PlaylistState::FetchingInfo,
        Screen::Thumbnail => a.thumbnail.state == ThumbnailState::Fetching,
        _ => false,
    }
}

/// `m` is the message `text`, an error or not.
pub open spec fn shows(m: Option<(String, bool)>, text: Seq<char>, is_error: bool) -> bool {
    m matches Some((s, e)) && s@ == text && e == is_error
}

/// The status line under a running download.
pub open spec fn speed_line(speed: Seq<char>, eta: Seq<char>) -> Seq<char> {
    "Speed: "@ + speed + " • ETA: "@ + eta
}

/// `b` is the bar `a` at `percent` hundredths (at most 100 %) with the
/// status `status`.
pub open spec fn bar_at(a: ProgressBar, b: ProgressBar, percent: u32, status: Seq<char>) -> bool {
    &&& b == (ProgressBar {
        progress: if percent > full_progress() {
            full_progress()
        } else {
            percent
        },
        status: b.status,
        ..a
    })
    &&& b.status@ == status
}

/// `b` is the bar `a` with the status `status`.
pub open spec fn bar_says(a: ProgressBar, b: ProgressBar, status: Seq<char>) -> bool {
    b == (ProgressBar { status: b.status, ..a }) && b.status@ == status
}

/// `b` is `a` after a progress report: the video or audio screen, where
/// shown, follows the download; a finished download or an error ends it on
/// the screen shown (the search screen returns to its results).
pub open spec fn progress_taken(a: App, b: App, p: DownloadProgress) -> bool {
    match p {
        DownloadProgress::Starting(_) => b == a,
        DownloadProgress::Downloading { percent, speed, eta } => if a.screen == Screen::Video {
            b == (App { video: VideoScreen { progress: b.video.progress, ..a.video }, ..a })
                && bar_at(a.video.progress, b.video.progress, percent, speed_line(speed@, eta@))
        } else if a.screen == Screen::Audio {
            b == (App { audio: AudioScreen { progress: b.audio.progress, ..a.audio }, ..a })
                && bar_at(a.audio.progress, b.audio.progress, percent, speed_line(speed@, eta@))
        } else {
            b == a
        },
        DownloadProgress::PostProcessing => if a.screen == Screen::Video {
            b == (App { video: VideoScreen { progress: b.video.progress, ..a.video }, ..a })
                && bar_says(a.video.progress, b.video.progress, "Processing..."@)
        } else if a.screen == Screen::Audio {
            b == (App { audio: AudioScreen { progress: b.audio.progress, ..a.audio }, ..a })
                && bar_says(a.audio.progress, b.audio.progress, "Converting..."@)
        } else {
            b == a
        },
        DownloadProgress::Finished(name) => if a.screen == Screen::Video {
            b == (App {
                video: VideoScreen {
                    state: VideoState::Done,
                    progress: ProgressBar { progress: full_progress(), ..a.video.progress },
                    status_message: b.video.status_message,
                    ..a.video
                },
                ..a
            }) && shows(b.video.status_message, "Saved to: "@ + name@, false)
        } else if a.screen == Screen::Audio {
            b == (App {
                audio: AudioScreen {
                    state: AudioState::Done,
                    progress: ProgressBar { progress: full_progress(), ..a.audio.progress },
                    status_message: b.audio.status_message,
                    ..a.audio
                },
                ..a
            }) && shows(b.audio.status_message, "Saved to: "@ + name@, false)
        } else if a.screen == Screen::Playlist {
            b == (App {
                playlist: PlaylistScreen {
                    state: PlaylistState::Done,
                    progress: ProgressBar { progress: full_progress(), ..a.playlist.progress },
                    status_message: b.playlist.status_message,
                    ..a.playlist
                },
                ..a
            }) && shows(b.playlist.status_message, "Playlist download complete"@, false)
        } else if a.screen == Screen::Search {
            b == (App {
                search: SearchScreen {
                    state: SearchState::Results,
                    is_loading: false,
                    status_message: b.search.status_message,
                    ..a.search
                },
                ..a
            }) && shows(b.search.status_message, "Download complete"@, false)
        } else {
            b == a
        },
        DownloadProgress::Error(msg) => if a.screen == Screen::Video {
            b == (App {
                video: VideoScreen {
                    state: VideoState::Done,
                    status_message: b.video.status_message,
                    ..a.video
                },
                ..a
            }) && shows(b.video.status_message, "Error: "@ + msg@, true)
        } else if a.screen == Screen::Audio {
            b == (App {
                audio: AudioScreen {
                    state: AudioState::Done,
                    status_message: b.audio.status_message,
                    ..a.audio
                },
                ..a
            }) && shows(b.audio.status_message, "Error: "@ + msg@, true)
        } else if a.screen == Screen::Playlist {
            b == (App {
                playlist: PlaylistScreen {
                    state: PlaylistState::Done,
                    status_message: b.playlist.status_message,
                    ..a.playlist
                },
                ..a
            }) && shows(b.playlist.status_message, "Error: "@ + msg@, true)
        } else if a.screen == Screen::Search {
            b == (App {
                search: SearchScreen {
                    state: SearchState::Results,
                    is_loading: false,
                    status_message: b.search.status_message,
                    ..a.search
                },
                ..a
            }) && shows(b.search.status_message, "Error: "@ + msg@, true)
        } else {
            b == a
        },
    }
}

/// `b` is the spinner `a` one frame on.
pub open spec fn spun(a: Spinner, b: Spinner) -> bool {
    &&& b.frames@ == a.frames@
    &&& b.current_frame == (a.current_frame + 1) % (a.frames@.len() as int)
}

/// The spinner can turn without panicking.
pub open spec fn can_spin(s: Spinner) -> bool {
    s.frames@.len() > 0 && s.current_frame < usize::MAX
}

/// The spinner of the shown screen, if it has one, can turn.
pub open spec fn tick_ok(a: App) -> bool {
    match a.screen {
        Screen::Search => can_spin(a.search.spinner),
        Screen::Video => can_spin(a.video.spinner),
        Screen::Audio => can_spin(a.audio.spinner),
        Screen::Playlist => can_spin(a.playlist.spinner),
        Screen::Thumbnail => can_spin(a.thumbnail.spinner),
        _ => true,
    }
}

/// `b` is `a` after a tick: the spinner of the shown screen turns.
pub open spec fn ticked(a: App, b: App) -> bool {
    match a.screen {
        Screen::Search => b == (App { search: SearchScreen { spinner: b.search.spinner, ..a.search }, ..a })
            && spun(a.search.spinner, b.search.spinner),
        Screen::Video => b == (App { video: VideoScreen { spinner: b.video.spinner, ..a.video }, ..a })
            && spun(a.video.spinner, b.video.spinner),
        Screen::Audio => b == (App { audio: AudioScreen { spinner: b.audio.spinner, ..a.audio }, ..a })
            && spun(a.audio.spinner, b.audio.spinner),
        Screen::Playlist => b == (App {
            playlist: PlaylistScreen { spinner: b.playlist.spinner, ..a.playlist },
            ..a
        }) && spun(a.playlist.spinner, b.playlist.spinner),
        Screen::Thumbnail => b == (App {
            thumbnail: ThumbnailScreen { spinner: b.thumbnail.spinner, ..a.thumbnail },
            ..a
        }) && spun(a.thumbnail.spinner, b.thumbnail.spinner),
        _ => b == a,
    }
}

/// What a key press led to.
pub enum KeyStep {
    /// Ctrl-C: the application is to quit.
    Quit,
    /// The screen waits for outside work; the key is dropped.
    Ignored,
    /// Enter started the outside work named, or was taken without any.
    Started(EnterAction),
    /// The key went to the shown screen; the caller does what the effect asks.
    Handled(AppEffect),
}

/// The effect that a key asks for on the shown screen.
pub open spec fn key_effect(a: App, key: Key) -> AppEffect {
    if a.screen == Screen::Settings {
        settings_effect(a, key)
    } else {
        AppEffect::Nothing
    }
}

/// Ctrl-C.
pub open spec fn is_interrupt(key: Key, ctrl: bool) -> bool {
    ctrl && key == Key::Char('c')
}

impl App {
    /// The application at start, loading, with the settings `config`.
    pub fn new(config: Config) -> (r: Self)
        ensures
            r.screen == Screen::Loading,
            r.config == config,
            r.deps is None,
            r.loading_message@ == "Initializing..."@,
            !r.should_quit,
            r.menu.selection() == 0,
            search_fresh(r.search),
            video_fresh(r.video),
            audio_fresh(r.audio),
            playlist_fresh(r.playlist),
            thumbnail_fresh(r.thumbnail),
            settings_fresh(r.settings, config),
            !r.web_server_running,
            r.web_server_port == 3000,
            !r.show_help,
    {
        let settings = SettingsScreen::new(config.copied());
        App {
            screen: Screen::Loading,
            config,
            deps: None,
            loading_message: "Initializing...".to_owned(),
            should_quit: false,
            menu: MainMenu::new(),
            search: SearchScreen::new(),
            video: VideoScreen::new(),
            audio: AudioScreen::new(),
            playlist: PlaylistScreen::new(),
            thumbnail: ThumbnailScreen::new(),
            settings,
            web_server_running: false,
            web_server_port: 3000,
            show_help: false,
        }
    }

    /// The dependencies are ready: the menu is shown.
    pub fn set_deps(&mut self, deps: DependencyStatus)
        ensures
            *final(self) == (App { deps: Some(deps), screen: Screen::Menu, ..*old(self) }),
    {
        self.deps = Some(deps);
        self.screen = Screen::Menu;
    }

    /// Shows `msg` on the loading screen.
    pub fn set_loading_message(&mut self, msg: &str)
        ensures
            *final(self) == (App { loading_message: final(self).loading_message, ..*old(self) }),
            final(self).loading_message@ == msg@,
    {
        self.loading_message = msg.to_owned();
    }

    /// Back to the menu from a screen reached from it, every screen reset.
    pub fn go_back(&mut self)
        ensures
            went_back(*old(self), *final(self)),
    {
        match self.screen {
            Screen::Loading => {},
            Screen::Menu => {},
            _ => {
                self.screen = Screen::Menu;
                self.search.reset();
                self.video.reset();
                self.audio.reset();
                self.playlist.reset();
                self.thumbnail.reset();
                self.settings.reset();
            },
        }
    }

    /// Does what the selected line of the menu offers.
    pub fn handle_menu_select(&mut self)
        ensures
            menu_chosen(*old(self), *final(self)),
    {
        match self.menu.selected_action() {
            MenuAction::SearchDownload => {
                self.screen = Screen::Search;
                self.search.reset();
            },
            MenuAction::DownloadVideo => {
                self.screen = Screen::Video;
                self.video.reset();
            },
            MenuAction::DownloadAudio => {
                self.screen = Screen::Audio;
                self.audio.reset();
            },
            MenuAction::DownloadPlaylist => {
                self.screen = Screen::Playlist;
                self.playlist.reset();
            },
            MenuAction::DownloadThumbnail => {
                self.screen = Screen::Thumbnail;
                self.thumbnail.reset();
            },
            MenuAction::Settings => {
                self.screen = Screen::Settings;
                let c = self.config.copied();
                self.settings.update_config(c);
            },
            MenuAction::WebInterface => {
                self.screen = Screen::WebServer;
            },
            MenuAction::Exit => {
                self.should_quit = true;
            },
            MenuAction::Separator => {},
        }
    }

    /// The shown screen can take `key` without panicking.
    pub open spec fn accepts_key(&self, key: Key) -> bool {
        match self.screen {
            Screen::Search => key != Key::Esc && key != Key::Enter ==> self.search.accepts_key(key),
            Screen::Video => key != Key::Esc && !(key == Key::Enter && self.video.state
                == VideoState::Done) ==> self.video.accepts_key(key),
            Screen::Audio => key != Key::Esc && !(key == Key::Enter && self.audio.state
                == AudioState::Done) ==> self.audio.accepts_key(key),
            Screen::Playlist => key != Key::Esc && !(key == Key::Enter && self.playlist.state
                == PlaylistState::Done) ==> self.playlist.accepts_key(key),
            Screen::Thumbnail => key != Key::Esc && !(key == Key::Enter && self.thumbnail.state
                == ThumbnailState::Done) ==> self.thumbnail.accepts_key(key),
            Screen::Settings => {
                &&& key == Key::Enter && self.settings.state == SettingsState::Menu
                    ==> self.settings.selected < self.settings.options@.len()
                &&& key != Key::Esc && key != Key::Enter ==> self.settings.accepts_key(key)
            },
            _ => true,
        }
    }

    /// Whether the shown screen can take `key` without panicking.
    pub fn accepts(&self, key: Key) -> (r: bool)
        ensures
            r == self.accepts_key(key),
    {
        match self.screen {
            Screen::Search => key == Key::Esc || key == Key::Enter || self.search.accepts(key),
            Screen::Video => key == Key::Esc || (key == Key::Enter && self.video.state
                == VideoState::Done) || self.video.accepts(key),
            Screen::Audio => key == Key::Esc || (key == Key::Enter && self.audio.state
                == AudioState::Done) || self.audio.accepts(key),
            Screen::Playlist => key == Key::Esc || (key == Key::Enter && self.playlist.state
                == PlaylistState::Done) || self.playlist.accepts(key),
            Screen::Thumbnail => key == Key::Esc || (key == Key::Enter && self.thumbnail.state
                == ThumbnailState::Done) || self.thumbnail.accepts(key),
            Screen::Settings => {
                if key == Key::Enter {
                    self.settings.state != SettingsState::Menu || self.settings.selected
                        < self.settings.options.len()
                } else {
                    key == Key::Esc || self.settings.accepts(key)
                }
            },
            _ => true,
        }
    }

    /// Takes a key on the shown screen (Enter after `on_enter` declined
    /// it), and says what the caller is to do next.
    pub fn handle_key(&mut self, key: Key) -> (r: AppEffect)
        requires
            old(self).accepts_key(key),
        ensures
            key_handled(*old(self), *final(self), key),
            r == (if old(self).screen == Screen::Settings {
                settings_effect(*old(self), key)
            } else {
                AppEffect::Nothing
            }),
    {
        match self.screen {
            Screen::Loading => AppEffect::Nothing,
            Screen::Menu => {
                if self.show_help {
                    if key == Key::Esc || key == Key::Char('?') {
                        self.show_help = false;
                    }
                } else if key == Key::Char('?') {
                    self.show_help = true;
                } else if key == Key::Up || key == Key::Char('k') {
                    self.menu.previous();
                } else if key == Key::Down || key == Key::Char('j') {
                    self.menu.next();
                } else if key == Key::Enter {
                    self.handle_menu_select();
                } else if key == Key::Esc || key == Key::Char('q') {
                    self.should_quit = true;
                }
                AppEffect::Nothing
            },
            Screen::Search => {
                self.handle_search_key(key);
                AppEffect::Nothing
            },
            Screen::Video => {
                self.handle_video_key(key);
                AppEffect::Nothing
            },
            Screen::Audio => {
                self.handle_audio_key(key);
                AppEffect::Nothing
            },
            Screen::Playlist => {
                self.handle_playlist_key(key);
                AppEffect::Nothing
            },
            Screen::Thumbnail => {
                self.handle_thumbnail_key(key);
                AppEffect::Nothing
            },
            Screen::Settings => self.handle_settings_key(key),
            Screen::WebServer => {
                if key == Key::Esc || key == Key::Char('q') {
                    self.go_back();
                }
                AppEffect::Nothing
            },
        }
    }

    fn handle_search_key(&mut self, key: Key)
        requires
            old(self).screen == Screen::Search,
            old(self).accepts_key(key),
        ensures
            search_key(*old(self), *final(self), key),
    {
        if key == Key::Esc {
            match self.search.state {
                SearchState::Input => self.go_back(),
                SearchState::Results => self.search.state = SearchState::Input,
                SearchState::QualitySelect => self.search.state = SearchState::Results,
            }
        } else if key == Key::Enter {
        } else {
            self.search.handle_key(key);
        }
    }

    fn handle_video_key(&mut self, key: Key)
        requires
            old(self).screen == Screen::Video,
            old(self).accepts_key(key),
        ensures
            video_key(*old(self), *final(self), key),
    {
        if key == Key::Esc {
            match self.video.state {
                VideoState::UrlInput => self.go_back(),
                VideoState::QualitySelect => {
                    self.video.state = VideoState::UrlInput;
                    self.video.video_info = None;
                },
                VideoState::Done => self.go_back(),
                _ => {},
            }
        } else if key == Key::Enter && self.video.state == VideoState::Done {
            self.go_back();
        } else {
            self.video.handle_key(key);
        }
    }

    fn handle_audio_key(&mut self, key: Key)
        requires
            old(self).screen == Screen::Audio,
            old(self).accepts_key(key),
        ensures
            audio_key(*old(self), *final(self), key),
    {
        if key == Key::Esc {
            match self.audio.state {
                AudioState::UrlInput => self.go_back(),
                AudioState::QualitySelect => {
                    self.audio.state = AudioState::UrlInput;
                    self.audio.video_info = None;
                },
                AudioState::FormatSelect => {
                    self.audio.state = AudioState::QualitySelect;
                },
                AudioState::Done => self.go_back(),
                _ => {},
            }
        } else if key == Key::Enter && self.audio.state == AudioState::Done {
            self.go_back();
        } else {
            self.audio.handle_key(key);
        }
    }

    fn handle_playlist_key(&mut self, key: Key)
        requires
            old(self).screen == Screen::Playlist,
            old(self).accepts_key(key),
        ensures
            playlist_key(*old(self), *final(self), key),
    {
        if key == Key::Esc {
            match self.playlist.state {
                PlaylistState::UrlInput => self.go_back(),
                PlaylistState::PresetSelect => {
                    self.playlist.state = PlaylistState::UrlInput;
                    self.playlist.playlist_info = None;
                },
                PlaylistState::AudioFormatSelect => {
                    self.playlist.state = PlaylistState::PresetSelect;
                },
                PlaylistState::Done => self.go_back(),
                _ => {},
            }
        } else if key == Key::Enter && self.playlist.state == PlaylistState::Done {
            self.go_back();
        } else {
            self.playlist.handle_key(key);
        }
    }

    fn handle_thumbnail_key(&mut self, key: Key)
        requires
            old(self).screen == Screen::Thumbnail,
            old(self).accepts_key(key),
        ensures
            thumbnail_key(*old(self), *final(self), key),
    {
        if key == Key::Esc {
            match self.thumbnail.state {
                ThumbnailState::UrlInput => self.go_back(),
                ThumbnailState::SelectResolution => {
                    self.thumbnail.state = ThumbnailState::UrlInput;
                },
                ThumbnailState::Done => self.go_back(),
                _ => {},
            }
        } else if key == Key::Enter && self.thumbnail.state == ThumbnailState::Done {
            self.go_back();
        } else {
            self.thumbnail.handle_key(key);
        }
    }

    /// Stores `c` as the settings and shows `msg` on the settings screen.
    fn save_settings(&mut self, c: Config, msg: &str)
        ensures
            *final(self) == (App { config: c, settings: final(self).settings, ..*old(self) }),
            settings_saved(old(self).settings, final(self).settings, c, msg@),
    {
        let copy = c.copied();
        self.config = c;
        self.settings.update_config(copy);
        self.settings.status_message = Some((msg.to_owned(), false));
    }

    fn handle_settings_key(&mut self, key: Key) -> (r: AppEffect)
        requires
            old(self).screen == Screen::Settings,
            old(self).accepts_key(key),
        ensures
            settings_key(*old(self), *final(self), key),
            r == settings_effect(*old(self), key),
    {
        if key == Key::Esc {
            match self.settings.state {
                SettingsState::Menu => self.go_back(),
                _ => {
                    self.settings.state = SettingsState::Menu;
                },
            }
            AppEffect::Nothing
        } else if key == Key::Enter {
            match self.settings.state {
                SettingsState::Menu => {
                    match self.settings.selected_option() {
                        SettingsOption::DownloadPath => {
                            self.settings.state = SettingsState::EditingPath;
                            AppEffect::Nothing
                        },
                        SettingsOption::ParallelDownloads => {
                            self.settings.state = SettingsState::EditingParallel;
                            self.settings.parallel_value = self.config.parallel_downloads;
                            AppEffect::Nothing
                        },
                        SettingsOption::DebugMode => {
                            let on = !self.config.debug_mode;
                            let c = Config { debug_mode: on, ..self.config.copied() };
                            if on {
                                self.save_settings(c, "Debug mode enabled");
                            } else {
                                self.save_settings(c, "Debug mode disabled");
                            }
                            proof {
                                reveal_strlit("Debug mode enabled");
                                reveal_strlit("Debug mode disabled");
                            }
                            AppEffect::SaveConfig
                        },
                        SettingsOption::Back => {
                            self.go_back();
                            AppEffect::Nothing
                        },
                    }
                },
                SettingsState::EditingPath => {
                    let c = Config {
                        download_path: self.settings.path_input.value.clone(),
                        ..self.config.copied()
                    };
                    self.settings.state = SettingsState::Menu;
                    self.save_settings(c, "Download path updated!");
                    AppEffect::SaveConfig
                },
                SettingsState::EditingParallel => {
                    let c = Config {
                        parallel_downloads: self.settings.parallel_value,
                        ..self.config.copied()
                    };
                    self.settings.state = SettingsState::Menu;
                    self.save_settings(c, "Parallel downloads updated!");
                    AppEffect::SaveConfig
                },
            }
        } else {
            if self.settings.handle_key(key) {
                AppEffect::CompletePath
            } else {
                AppEffect::Nothing
            }
        }
    }

    /// Whether the shown screen waits for outside work; keys other than
    /// Ctrl-C are then ignored.
    pub fn is_busy(&self) -> (r: bool)
        ensures
            r == busy(*self),
    {
        match self.screen {
            Screen::Loading => true,
            Screen::Search => self.search.is_loading,
            Screen::Video => self.video.state == VideoState::FetchingInfo,
            Screen::Audio => self.audio.state == AudioState::FetchingInfo,
            Screen::Playlist => self.playlist.state == PlaylistState::FetchingInfo,
            Screen::Thumbnail => self.thumbnail.state == ThumbnailState::Fetching,
            _ => false,
        }
    }

    /// Enter, before the shown screen gets it: what outside work to start.
    pub fn on_enter(&mut self) -> (r: EnterAction)
        ensures
            enter_handled(*old(self), *final(self), r@),
    {
        match self.screen {
            Screen::Search => self.search_enter(),
            Screen::Video => self.video_enter(),
            Screen::Audio => self.audio_enter(),
            Screen::Playlist => self.playlist_enter(),
            Screen::Thumbnail => self.thumbnail_enter(),
            _ => EnterAction::NotHandled,
        }
    }

    fn search_enter(&mut self) -> (r: EnterAction)
        ensures
            search_enter(*old(self), *final(self), r@),
    {
        match self.search.state {
            SearchState::Input => {
                if self.search.input.value.as_str().unicode_len() > 0 {
                    let query = self.search.input.value.clone();
                    self.search.is_loading = true;
                    EnterAction::Search { query, max_results: 10 }
                } else {
                    EnterAction::NotHandled
                }
            },
            SearchState::Results => {
                let url = match self.search.selected_video() {
                    Some(v) => v.get_url(),
                    None => {
                        return EnterAction::Handled;
                    },
                };
                self.search.is_loading = true;
                EnterAction::FetchVideoInfo(url)
            },
            SearchState::QualitySelect => {
                let format = match self.search.quality_options.selected_item() {
                    Some(f) => f.clone(),
                    None => {
                        return EnterAction::Handled;
                    },
                };
                let url = match self.search.selected_video() {
                    Some(v) => v.get_url(),
                    None => {
                        return EnterAction::Handled;
                    },
                };
                let output_path = self.config.download_path.clone();
                self.search.is_loading = true;
                self.search.status_message = None;
                EnterAction::DownloadVideo { url, output_path, format }
            },
        }
    }

    fn video_enter(&mut self) -> (r: EnterAction)
        ensures
            video_enter(*old(self), *final(self), r@),
    {
        match self.video.state {
            VideoState::UrlInput => {
                if self.video.input.value.as_str().unicode_len() > 0 {
                    let url = self.video.input.value.clone();
                    self.video.state = VideoState::FetchingInfo;
                    EnterAction::FetchVideoInfo(url)
                } else {
                    EnterAction::NotHandled
                }
            },
            VideoState::QualitySelect => {
                let format = match self.video.quality_options.selected_item() {
                    Some(f) => f.clone(),
                    None => {
                        return EnterAction::Handled;
                    },
                };
                let url = self.video.input.value.clone();
                let output_path = self.config.download_path.clone();
                proof {
                    reveal_strlit("mp3");
                    reveal_strlit("separator");
                }
                if crate::text::str_eq(format.as_str(), "mp3") {
                    self.start_video_download();
                    EnterAction::DownloadAudio { url, output_path, audio: AudioFormat::Mp3 }
                } else if !crate::text::str_eq(format.as_str(), "separator") {
                    self.start_video_download();
                    EnterAction::DownloadVideo { url, output_path, format }
                } else {
                    EnterAction::Handled
                }
            },
            _ => EnterAction::NotHandled,
        }
    }

    fn start_video_download(&mut self)
        ensures
            *final(self) == (App { video: video_downloading(old(self).video), ..*old(self) }),
    {
        self.video.state = VideoState::Downloading;
        self.video.progress.progress = 0;
        self.video.status_message = None;
    }

    fn audio_enter(&mut self) -> (r: EnterAction)
        ensures
            audio_enter(*old(self), *final(self), r@),
    {
        match self.audio.state {
            AudioState::UrlInput => {
                if self.audio.input.value.as_str().unicode_len() > 0 {
                    let url = self.audio.input.value.clone();
                    self.audio.state = AudioState::FetchingInfo;
                    EnterAction::FetchVideoInfo(url)
                } else {
                    EnterAction::NotHandled
                }
            },
            AudioState::QualitySelect => {
                let quality = match self.audio.quality_options.selected_item() {
                    Some(q) => q.clone(),
                    None => {
                        return EnterAction::Handled;
                    },
                };
                self.audio.selected_quality = Some(quality);
                self.audio.state = AudioState::FormatSelect;
                EnterAction::Handled
            },
            AudioState::FormatSelect => {
                let format = match self.audio.selected_format() {
                    Some(f) => f,
                    None => {
                        return EnterAction::Handled;
                    },
                };
                let url = self.audio.input.value.clone();
                let output_path = self.config.download_path.clone();
                self.audio.state = AudioState::Downloading;
                self.audio.progress.progress = 0;
                self.audio.status_message = None;
                EnterAction::DownloadAudio { url, output_path, audio: format }
            },
            _ => EnterAction::NotHandled,
        }
    }

    fn playlist_title(&self) -> (r: String)
        ensures
            r@ == playlist_name(*self),
    {
        match &self.playlist.playlist_info {
            Some(p) => p.title.clone(),
            None => "Playlist".to_owned(),
        }
    }

    fn playlist_enter(&mut self) -> (r: EnterAction)
        ensures
            playlist_enter(*old(self), *final(self), r@),
    {
        match self.playlist.state {
            PlaylistState::UrlInput => {
                if self.playlist.input.value.as_str().unicode_len() > 0 {
                    let url = self.playlist.input.value.clone();
                    self.playlist.state = PlaylistState::FetchingInfo;
                    EnterAction::FetchPlaylistInfo(url)
                } else {
                    EnterAction::NotHandled
                }
            },
            PlaylistState::PresetSelect => {
                let idx = self.playlist.preset_options.selected;
                if idx == 7 {
                    self.playlist.is_audio_mode = true;
                    self.playlist.state = PlaylistState::AudioFormatSelect;
                    EnterAction::Handled
                } else if idx != 6 {
                    let preset = match self.playlist.selected_preset() {
                        Some(p) => p,
                        None => {
                            return EnterAction::Handled;
                        },
                    };
                    let url = self.playlist.input.value.clone();
                    let output_path = self.config.download_path.clone();
                    let playlist_name = self.playlist_title();
                    self.playlist.state = PlaylistState::Downloading;
                    self.playlist.status_message = None;
                    EnterAction::DownloadPlaylist {
                        url,
                        output_path,
                        playlist_name,
                        preset,
                        audio_only: false,
                        audio_format: None,
                        parallel: 4,
                    }
                } else {
                    EnterAction::Handled
                }
            },
            PlaylistState::AudioFormatSelect => {
                let url = self.playlist.input.value.clone();
                let output_path = self.config.download_path.clone();
                let playlist_name = self.playlist_title();
                self.playlist.state = PlaylistState::Downloading;
                self.playlist.status_message = None;
                EnterAction::DownloadPlaylist {
                    url,
                    output_path,
                    playlist_name,
                    preset: QualityPreset::God,
                    audio_only: true,
                    audio_format: Some(AudioFormat::Mp3),
                    parallel: 4,
                }
            },
            _ => EnterAction::NotHandled,
        }
    }

    fn thumbnail_enter(&mut self) -> (r: EnterAction)
        ensures
            thumbnail_enter(*old(self), *final(self), r@),
    {
        match self.thumbnail.state {
            ThumbnailState::UrlInput => {
                if self.thumbnail.input.value.as_str().unicode_len() > 0 {
                    let url = self.thumbnail.input.value.clone();
                    self.thumbnail.state = ThumbnailState::Fetching;
                    EnterAction::FetchThumbnailInfo(url)
                } else {
                    EnterAction::NotHandled
                }
            },
            ThumbnailState::SelectResolution => {
                let url = self.thumbnail.input.value.clone();
                let output_path = self.config.download_path.clone();
                self.thumbnail.state = ThumbnailState::Downloading;
                EnterAction::DownloadThumbnails { url, output_path }
            },
            _ => EnterAction::NotHandled,
        }
    }

    /// Whether `tick` can run without panicking.
    pub fn can_tick(&self) -> (r: bool)
        ensures
            r == tick_ok(*self),
    {
        match self.screen {
            Screen::Search => self.search.spinner.frames.len() > 0
                && self.search.spinner.current_frame < usize::MAX,
            Screen::Video => self.video.spinner.frames.len() > 0
                && self.video.spinner.current_frame < usize::MAX,
            Screen::Audio => self.audio.spinner.frames.len() > 0
                && self.audio.spinner.current_frame < usize::MAX,
            Screen::Playlist => self.playlist.spinner.frames.len() > 0
                && self.playlist.spinner.current_frame < usize::MAX,
            Screen::Thumbnail => self.thumbnail.spinner.frames.len() > 0
                && self.thumbnail.spinner.current_frame < usize::MAX,
            _ => true,
        }
    }

    /// Turns the spinner of the shown screen.
    pub fn tick(&mut self)
        requires
            tick_ok(*old(self)),
        ensures
            ticked(*old(self), *final(self)),
    {
        match self.screen {
            Screen::Search => self.search.spinner.tick(),
            Screen::Video => self.video.spinner.tick(),
            Screen::Audio => self.audio.spinner.tick(),
            Screen::Playlist => self.playlist.spinner.tick(),
            Screen::Thumbnail => self.thumbnail.spinner.tick(),
            _ => {},
        }
    }

    /// Shows a progress report on the screen that started the download.
    pub fn on_progress(&mut self, p: DownloadProgress)
        ensures
            progress_taken(*old(self), *final(self), p),
    {
        match p {
            DownloadProgress::Starting(_) => {},
            DownloadProgress::Downloading { percent, speed, eta } => {
                let mut status = crate::text::concat("Speed: ", speed.as_str());
                crate::text::push_str(&mut status, " • ETA: ");
                crate::text::push_str(&mut status, eta.as_str());
                if self.screen == Screen::Video {
                    self.video.progress.set_progress(percent);
                    self.video.progress.status = status;
                } else if self.screen == Screen::Audio {
                    self.audio.progress.set_progress(percent);
                    self.audio.progress.status = status;
                }
            },
            DownloadProgress::PostProcessing => {
                if self.screen == Screen::Video {
                    self.video.progress.status = "Processing...".to_owned();
                } else if self.screen == Screen::Audio {
                    self.audio.progress.status = "Converting...".to_owned();
                }
            },
            DownloadProgress::Finished(name) => {
                if self.screen == Screen::Video {
                    self.video.state = VideoState::Done;
                    self.video.progress.progress = 10000;
                    self.video.status_message = Some(
                        (crate::text::concat("Saved to: ", name.as_str()), false),
                    );
                } else if self.screen == Screen::Audio {
                    self.audio.state = AudioState::Done;
                    self.audio.progress.progress = 10000;
                    self.audio.status_message = Some(
                        (crate::text::concat("Saved to: ", name.as_str()), false),
                    );
                } else if self.screen == Screen::Playlist {
                    self.playlist.state = PlaylistState::Done;
                    self.playlist.progress.progress = 10000;
                    self.playlist.status_message = Some(
                        ("Playlist download complete".to_owned(), false),
                    );
                } else if self.screen == Screen::Search {
                    self.search.state = SearchState::Results;
                    self.search.is_loading = false;
                    self.search.status_message = Some(("Download complete".to_owned(), false));
                }
            },
            DownloadProgress::Error(msg) => {
                if self.screen == Screen::Video {
                    self.video.state = VideoState::Done;
                    self.video.status_message = Some(
                        (crate::text::concat("Error: ", msg.as_str()), true),
                    );
                } else if self.screen == Screen::Audio {
                    self.audio.state = AudioState::Done;
                    self.audio.status_message = Some(
                        (crate::text::concat("Error: ", msg.as_str()), true),
                    );
                } else if self.screen == Screen::Playlist {
                    self.playlist.state = PlaylistState::Done;
                    self.playlist.status_message = Some(
                        (crate::text::concat("Error: ", msg.as_str()), true),
                    );
                } else if self.screen == Screen::Search {
                    self.search.state = SearchState::Results;
                    self.search.is_loading = false;
                    self.search.status_message = Some(
                        (crate::text::concat("Error: ", msg.as_str()), true),
                    );
                }
            },
        }
    }

    /// The dependency check finished: on the loading screen, the menu is
    /// shown, or the error.
    pub fn on_deps(&mut self, result: Result<DependencyStatus, String>)
        ensures
            old(self).screen != Screen::Loading ==> *final(self) == *old(self),
            old(self).screen == Screen::Loading ==> match result {
                Ok(d) => *final(self) == (App { deps: Some(d), screen: Screen::Menu, ..*old(self) }),
                Err(e) => *final(self) == (App {
                    loading_message: final(self).loading_message,
                    ..*old(self)
                }) && final(self).loading_message@ == "Error: "@ + e@,
            },
    {
        if self.screen == Screen::Loading {
            match result {
                Ok(d) => self.set_deps(d),
                Err(e) => {
                    let msg = crate::text::concat("Error: ", e.as_str());
                    self.set_loading_message(msg.as_str());
                },
            }
        }
    }

    /// A search finished: the results are shown, or the error.
    pub fn on_search_results(&mut self, result: Result<Vec<SearchResult>, String>)
        ensures
            match result {
                Ok(results) => *final(self) == (App {
                    search: SearchScreen {
                        state: SearchState::Results,
                        results,
                        selected_result: 0,
                        is_loading: false,
                        ..old(self).search
                    },
                    ..*old(self)
                }),
                Err(e) => *final(self) == (App {
                    search: SearchScreen {
                        is_loading: false,
                        status_message: final(self).search.status_message,
                        ..old(self).search
                    },
                    ..*old(self)
                }) && shows(final(self).search.status_message, "Search failed: "@ + e@, true),
            },
    {
        match result {
            Ok(results) => self.search.set_results(results),
            Err(e) => {
                self.search.is_loading = false;
                self.search.status_message = Some(
                    (crate::text::concat("Search failed: ", e.as_str()), true),
                );
            },
        }
    }

    /// A video's formats arrived (for the video, audio or search screen,
    /// whichever is shown): its choices are offered, or the error shown.
    pub fn on_video_info(&mut self, result: Result<VideoInfo, String>)
        ensures
            match result {
                Ok(info) => if old(self).screen == Screen::Video {
                    *final(self) == (App { video: final(self).video, ..*old(self) })
                        && video_info_shown(old(self).video, final(self).video, info)
                } else if old(self).screen == Screen::Audio {
                    *final(self) == (App { audio: final(self).audio, ..*old(self) })
                        && audio_info_shown(old(self).audio, final(self).audio, info)
                } else if old(self).screen == Screen::Search {
                    *final(self) == (App {
                        search: SearchScreen {
                            state: SearchState::QualitySelect,
                            is_loading: false,
                            quality_options: SelectionList {
                                items: final(self).search.quality_options.items,
                                selected: 0,
                                ..old(self).search.quality_options
                            },
                            ..old(self).search
                        },
                        ..*old(self)
                    }) && pairs_view(final(self).search.quality_options.items@) == search_options(
                        info.formats@,
                    )
                } else {
                    *final(self) == *old(self)
                },
                Err(e) => if old(self).screen == Screen::Video {
                    *final(self) == (App {
                        video: VideoScreen {
                            state: VideoState::UrlInput,
                            status_message: final(self).video.status_message,
                            ..old(self).video
                        },
                        ..*old(self)
                    }) && shows(final(self).video.status_message, "Failed: "@ + e@, true)
                } else if old(self).screen == Screen::Audio {
                    *final(self) == (App {
                        audio: AudioScreen {
                            state: AudioState::UrlInput,
                            status_message: final(self).audio.status_message,
                            ..old(self).audio
                        },
                        ..*old(self)
                    }) && shows(final(self).audio.status_message, "Failed: "@ + e@, true)
                } else if old(self).screen == Screen::Search {
                    *final(self) == (App {
                        search: SearchScreen {
                            is_loading: false,
                            status_message: final(self).search.status_message,
                            ..old(self).search
                        },
                        ..*old(self)
                    }) && shows(final(self).search.status_message, "Failed: "@ + e@, true)
                } else {
                    *final(self) == *old(self)
                },
            },
    {
        match result {
            Ok(info) => {
                if self.screen == Screen::Video {
                    self.video.set_video_info(info);
                } else if self.screen == Screen::Audio {
                    self.audio.set_video_info(info);
                } else if self.screen == Screen::Search {
                    self.search.is_loading = false;
                    let options = build_quality_options(&info);
                    self.search.set_quality_options(options);
                }
            },
            Err(e) => {
                if self.screen == Screen::Video {
                    self.video.state = VideoState::UrlInput;
                    self.video.status_message = Some(
                        (crate::text::concat("Failed: ", e.as_str()), true),
                    );
                } else if self.screen == Screen::Audio {
                    self.audio.state = AudioState::UrlInput;
                    self.audio.status_message = Some(
                        (crate::text::concat("Failed: ", e.as_str()), true),
                    );
                } else if self.screen == Screen::Search {
                    self.search.is_loading = false;
                    self.search.status_message = Some(
                        (crate::text::concat("Failed: ", e.as_str()), true),
                    );
                }
            },
        }
    }

    /// A playlist's entries arrived: the presets are offered, or the error
    /// shown.
    pub fn on_playlist_info(&mut self, result: Result<PlaylistInfo, String>)
        ensures
            match result {
                Ok(info) => *final(self) == (App {
                    playlist: PlaylistScreen {
                        state: PlaylistState::PresetSelect,
                        total_videos: info.entries@.len() as usize,
                        playlist_info: Some(info),
                        ..old(self).playlist
                    },
                    ..*old(self)
                }),
                Err(e) => *final(self) == (App {
                    playlist: PlaylistScreen {
                        state: PlaylistState::UrlInput,
                        status_message: final(self).playlist.status_message,
                        ..old(self).playlist
                    },
                    ..*old(self)
                }) && shows(final(self).playlist.status_message, "Failed: "@ + e@, true),
            },
    {
        match result {
            Ok(info) => self.playlist.set_playlist_info(info),
            Err(e) => {
                self.playlist.state = PlaylistState::UrlInput;
                self.playlist.status_message = Some(
                    (crate::text::concat("Failed: ", e.as_str()), true),
                );
            },
        }
    }

    /// A video's details arrived for the thumbnail screen: its title is
    /// shown and the sizes offered, or the error shown.
    pub fn on_thumbnail_info(&mut self, result: Result<VideoInfo, String>)
        ensures
            match result {
                Ok(info) => *final(self) == (App {
                    thumbnail: ThumbnailScreen {
                        state: ThumbnailState::SelectResolution,
                        video_title: Some(info.title),
                        ..old(self).thumbnail
                    },
                    ..*old(self)
                }),
                Err(e) => *final(self) == (App {
                    thumbnail: ThumbnailScreen {
                        state: ThumbnailState::UrlInput,
                        status_message: final(self).thumbnail.status_message,
                        ..old(self).thumbnail
                    },
                    ..*old(self)
                }) && shows(final(self).thumbnail.status_message, "Failed: "@ + e@, true),
            },
    {
        match result {
            Ok(info) => self.thumbnail.set_video_title(info.title),
            Err(e) => {
                self.thumbnail.state = ThumbnailState::UrlInput;
                self.thumbnail.status_message = Some(
                    (crate::text::concat("Failed: ", e.as_str()), true),
                );
            },
        }
    }

    /// The thumbnails were saved: the files are listed; or the error is
    /// shown and the sizes offered again.
    pub fn on_thumbnails_saved(&mut self, result: Result<Vec<String>, String>)
        ensures
            match result {
                Ok(files) => *final(self) == (App {
                    thumbnail: ThumbnailScreen {
                        state: ThumbnailState::Done,
                        downloaded_files: files,
                        ..old(self).thumbnail
                    },
                    ..*old(self)
                }),
                Err(e) => *final(self) == (App {
                    thumbnail: ThumbnailScreen {
                        state: ThumbnailState::SelectResolution,
                        status_message: final(self).thumbnail.status_message,
                        ..old(self).thumbnail
                    },
                    ..*old(self)
                }) && shows(final(self).thumbnail.status_message, "Failed: "@ + e@, true),
            },
    {
        match result {
            Ok(files) => {
                self.thumbnail.downloaded_files = files;
                self.thumbnail.state = ThumbnailState::Done;
            },
            Err(e) => {
                self.thumbnail.state = ThumbnailState::SelectResolution;
                self.thumbnail.status_message = Some(
                    (crate::text::concat("Failed: ", e.as_str()), true),
                );
            },
        }
    }
    /// The web server is started once, when its screen is first entered:
    /// the port to serve on when the screen shown is the web server's, the
    /// screen before it was not, and the server is not running yet (it is
    /// then marked running).
    pub fn web_server_to_start(&mut self, previous: Screen) -> (r: Option<u16>)
        ensures
            (old(self).screen == Screen::WebServer && previous != Screen::WebServer
                && !old(self).web_server_running) ==> r == Some(old(self).web_server_port)
                && *final(self) == (App { web_server_running: true, ..*old(self) }),
            !(old(self).screen == Screen::WebServer && previous != Screen::WebServer
                && !old(self).web_server_running) ==> r is None && *final(self) == *old(self),
    {
        if self.screen == Screen::WebServer && previous != Screen::WebServer
            && !self.web_server_running {
            self.web_server_running = true;
            Some(self.web_server_port)
        } else {
            None
        }
    }

    /// A key press, `ctrl` telling whether Control was held: Ctrl-C asks to
    /// quit; while the shown screen waits for outside work other keys are
    /// dropped; Enter first goes to `on_enter` and, when that declines it,
    /// to the screen; every other key goes to the screen.
    pub fn on_key(&mut self, key: Key, ctrl: bool) -> (r: KeyStep)
        requires
            !is_interrupt(key, ctrl) && !busy(*old(self)) ==> old(self).accepts_key(key),
        ensures
            is_interrupt(key, ctrl) ==> r is Quit && *final(self) == (App {
                should_quit: true,
                ..*old(self)
            }),
            !is_interrupt(key, ctrl) && busy(*old(self)) ==> r is Ignored && *final(self)
                == *old(self),
            !is_interrupt(key, ctrl) && !busy(*old(self)) && key == Key::Enter ==> match r {
                KeyStep::Started(act) => act@ != EnterView::NotHandled && enter_handled(
                    *old(self),
                    *final(self),
                    act@,
                ),
                KeyStep::Handled(e) => enter_handled(*old(self), *old(self), EnterView::NotHandled)
                    && key_handled(*old(self), *final(self), key) && e == key_effect(*old(self), key),
                _ => false,
            },
            !is_interrupt(key, ctrl) && !busy(*old(self)) && key != Key::Enter ==> key_handled(
                *old(self),
                *final(self),
                key,
            ) && r == KeyStep::Handled(key_effect(*old(self), key)),
    {
        if ctrl && key == Key::Char('c') {
            self.should_quit = true;
            return KeyStep::Quit;
        }
        if self.is_busy() {
            return KeyStep::Ignored;
        }
        if key == Key::Enter {
            let action = self.on_enter();
            match action {
                EnterAction::NotHandled => {
                    proof {
                        law_enter_declined_changes_nothing(*old(self), *self, EnterView::NotHandled);
                    }
                    KeyStep::Handled(self.handle_key(key))
                },
                _ => KeyStep::Started(action),
            }
        } else {
            KeyStep::Handled(self.handle_key(key))
        }
    }
}

/// Going back from a screen reached from the menu shows the menu; going
/// back again changes nothing.
pub proof fn law_back_reaches_menu(a: App, b: App, c: App)
    requires
        went_back(a, b),
        went_back(b, c),
    ensures
        is_sub_screen(a.screen) ==> b.screen == Screen::Menu,
        c == b,
{
}

/// Only the menu asks to quit: a key on any other screen leaves
/// `should_quit` as it was.
pub proof fn law_only_menu_quits(a: App, b: App, key: Key)
    requires
        key_handled(a, b, key),
        a.screen != Screen::Menu,
    ensures
        b.should_quit == a.should_quit,
{
}

/// Only the settings screen changes the settings: a key on any other
/// screen leaves them as they were, and a key there that asks for them
/// to be written is the only way they change.
pub proof fn law_settings_change_only_when_saved(a: App, b: App, key: Key)
    requires
        key_handled(a, b, key),
    ensures
        !(a.screen == Screen::Settings && settings_effect(a, key) == AppEffect::SaveConfig)
            ==> b.config == a.config,
{
}

/// The progress bars of the download screens never show more than 100 %:
/// a progress report keeps them so.
pub proof fn law_progress_capped(a: App, b: App, p: DownloadProgress)
    requires
        progress_taken(a, b, p),
        a.video.progress.progress <= full_progress(),
        a.audio.progress.progress <= full_progress(),
        a.playlist.progress.progress <= full_progress(),
    ensures
        b.video.progress.progress <= full_progress(),
        b.audio.progress.progress <= full_progress(),
        b.playlist.progress.progress <= full_progress(),
{
}

/// Enter either hands the key on (and changes nothing) or takes it.
pub proof fn law_enter_declined_changes_nothing(a: App, b: App, r: EnterView)
    requires
        enter_handled(a, b, r),
        r == EnterView::NotHandled,
    ensures
        b == a,
{
}

/// Esc goes back: on a screen reached from the menu it either stays on
/// that screen (stepping back within it, or doing nothing while work runs)
/// or returns to the menu with every screen reset; it never quits.
pub proof fn law_escape_goes_back(a: App, b: App)
    requires
        key_handled(a, b, Key::Esc),
        is_sub_screen(a.screen),
    ensures
        b.screen == a.screen || (b.screen == Screen::Menu && screens_reset(a, b)),
        b.should_quit == a.should_quit,
        b.config == a.config,
{
}

/// On the menu, ? shows the key help and Esc then hides it again, giving
/// back the menu as it was (Esc does not quit while the help is shown).
pub proof fn law_help_opens_and_closes(a: App, b: App, c: App)
    requires
        a.screen == Screen::Menu,
        !a.show_help,
        key_handled(a, b, Key::Char('?')),
        key_handled(b, c, Key::Esc),
    ensures
        b == (App { show_help: true, ..a }),
        c == a,
        !c.should_quit || a.should_quit,
{
}

} // verus!
