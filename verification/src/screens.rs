//! The state of the screens: what each shows and how it reacts to keys.

use vstd::prelude::*;
use crate::formats::{AudioFormat, PlaylistInfo, QualityPreset, VideoInfo};
use crate::options;
use crate::options::{audio_quality_options, video_quality_options};
use crate::search::SearchResult;
use crate::widgets;
use crate::widgets::{InputField, Key, ProgressBar, SelectionList, Spinner};

verus! {

/// The steps of the search screen.
#[derive(Debug, Clone, Copy, PartialEq, Eq, Structural)]
pub enum SearchState {
    Input,
    Results,
    QualitySelect,
}

/// The search screen.
pub struct SearchScreen {
    pub state: SearchState,
    pub input: InputField,
    pub results: Vec<SearchResult>,
    pub selected_result: usize,
    pub quality_options: SelectionList<String>,
    pub status_message: Option<(String, bool)>,
    pub is_loading: bool,
    pub spinner: Spinner,
}

/// `r` is the screen as `new` makes it.
pub open spec fn search_fresh(r: SearchScreen) -> bool {
    &&& r.state == SearchState::Input
    &&& widgets::input_fresh(r.input, "🔍 Search YouTube:"@)
    &&& r.results@.len() == 0
    &&& r.selected_result == 0
    &&& widgets::list_fresh(r.quality_options, "Select Quality"@)
    &&& r.status_message is None
    &&& !r.is_loading
    &&& widgets::spinner_fresh(r.spinner)
}

/// `b` is the screen `a` after `reset`.
pub open spec fn search_reset(a: SearchScreen, b: SearchScreen) -> bool {
    &&& b.state == SearchState::Input
    &&& widgets::input_cleared(a.input, b.input)
    &&& b.results@.len() == 0
    &&& b.selected_result == 0
    &&& b.quality_options.items@.len() == 0
    &&& b.quality_options.selected == a.quality_options.selected
    &&& b.quality_options.title == a.quality_options.title
    &&& b.status_message is None
    &&& !b.is_loading
    &&& b.spinner == a.spinner
}

/// `b` is the screen `a` after `handle_key(key)`.
pub open spec fn search_stepped(a: SearchScreen, b: SearchScreen, key: Key) -> bool {
    &&& (a.state == SearchState::Input ==> b == (SearchScreen { input: b.input, ..a })
        && widgets::input_stepped(a.input, b.input, key))
    &&& (a.state == SearchState::Results ==> b == (SearchScreen {
        selected_result: b.selected_result,
        ..a
    }))
    &&& (a.state == SearchState::Results && key == Key::Up ==> b.selected_result == (if a.results@.len()
        == 0 {
        a.selected_result as int
    } else if a.selected_result == 0 {
        a.results@.len() - 1
    } else {
        a.selected_result - 1
    }))
    &&& (a.state == SearchState::Results && key == Key::Down ==> b.selected_result == (if a.results@.len()
        == 0 {
        a.selected_result as int
    } else {
        (a.selected_result + 1) % (a.results@.len() as int)
    }))
    &&& (a.state == SearchState::Results && key != Key::Up && key != Key::Down ==> b.selected_result
        == a.selected_result)
    &&& (a.state == SearchState::QualitySelect ==> b == (SearchScreen {
        quality_options: b.quality_options,
        ..a
    }) && list_stepped(a.quality_options, b.quality_options, key))
}

impl SearchScreen {
    /// The screen, waiting for a query.
    pub fn new() -> (r: Self)
        ensures
            search_fresh(r),
    {
        SearchScreen {
            state: SearchState::Input,
            input: InputField::new("🔍 Search YouTube:"),
            results: Vec::new(),
            selected_result: 0,
            quality_options: SelectionList::new("Select Quality"),
            status_message: None,
            is_loading: false,
            spinner: Spinner::new(),
        }
    }

    /// Back to an empty query.
    pub fn reset(&mut self)
        ensures
            search_reset(*old(self), *final(self)),
    {
        self.state = SearchState::Input;
        self.input.clear();
        self.results = Vec::new();
        self.selected_result = 0;
        self.quality_options.clear_items();
        self.status_message = None;
        self.is_loading = false;
    }

    /// Shows the results of a search.
    pub fn set_results(&mut self, results: Vec<SearchResult>)
        ensures
            *final(self) == (SearchScreen {
                state: SearchState::Results,
                results,
                selected_result: 0,
                is_loading: false,
                ..*old(self)
            }),
    {
        self.results = results;
        self.selected_result = 0;
        self.state = SearchState::Results;
        self.is_loading = false;
    }

    /// Offers the qualities of the chosen result.
    pub fn set_quality_options(&mut self, options: Vec<(String, String)>)
        ensures
            *final(self) == (SearchScreen {
                state: SearchState::QualitySelect,
                quality_options: SelectionList {
                    items: options,
                    selected: 0,
                    ..old(self).quality_options
                },
                ..*old(self)
            }),
    {
        self.quality_options.set_items(options);
        self.state = SearchState::QualitySelect;
    }

    /// Selects the next result, from the last back to the first.
    pub fn next_result(&mut self)
        requires
            old(self).selected_result < usize::MAX,
        ensures
            *final(self) == (SearchScreen { selected_result: final(self).selected_result, ..*old(self) }),
            final(self).selected_result == (if old(self).results@.len() == 0 {
                old(self).selected_result as int
            } else {
                (old(self).selected_result + 1) % (old(self).results@.len() as int)
            }),
    {
        if self.results.len() > 0 {
            self.selected_result = (self.selected_result + 1) % self.results.len();
        }
    }

    /// Selects the previous result, from the first round to the last.
    pub fn previous_result(&mut self)
        ensures
            *final(self) == (SearchScreen { selected_result: final(self).selected_result, ..*old(self) }),
            final(self).selected_result == (if old(self).results@.len() == 0 {
                old(self).selected_result as int
            } else if old(self).selected_result == 0 {
                old(self).results@.len() - 1
            } else {
                old(self).selected_result - 1
            }),
    {
        if self.results.len() > 0 {
            self.selected_result = if self.selected_result == 0 {
                self.results.len() - 1
            } else {
                self.selected_result - 1
            };
        }
    }

    /// The selected result, if the selection lies in the list.
    pub fn selected_video(&self) -> (r: Option<&SearchResult>)
        ensures
            r == (if self.selected_result < self.results@.len() {
                Some(&self.results@[self.selected_result as int])
            } else {
                None
            }),
    {
        if self.selected_result < self.results.len() {
            Some(&self.results[self.selected_result])
        } else {
            None
        }
    }

    /// The screen can take `key` without panicking.
    pub open spec fn accepts_key(&self, key: Key) -> bool {
        match self.state {
            SearchState::Input => self.input.accepts_key(key),
            SearchState::Results => key == Key::Down ==> self.selected_result < usize::MAX,
            SearchState::QualitySelect => key == Key::Down ==> self.quality_options.selected
                < usize::MAX,
        }
    }

    /// Whether the screen can take `key` without panicking.
    pub fn accepts(&self, key: Key) -> (r: bool)
        ensures
            r == self.accepts_key(key),
    {
        match self.state {
            SearchState::Input => self.input.accepts(key),
            SearchState::Results => key != Key::Down || self.selected_result < usize::MAX,
            SearchState::QualitySelect => key != Key::Down || self.quality_options.selected
                < usize::MAX,
        }
    }

    /// Typing edits the query; the arrows move through the results or the
    /// qualities.
    pub fn handle_key(&mut self, key: Key)
        requires
            old(self).accepts_key(key),
        ensures
            search_stepped(*old(self), *final(self), key),
    {
        match self.state {
            SearchState::Input => {
                self.input.handle_key(key);
            },
            SearchState::Results => {
                if key == Key::Up {
                    self.previous_result();
                } else if key == Key::Down {
                    self.next_result();
                }
            },
            SearchState::QualitySelect => {
                if key == Key::Up {
                    self.quality_options.previous();
                } else if key == Key::Down {
                    self.quality_options.next();
                }
            },
        }
    }
}

impl Default for SearchScreen {
    /// The screen as `new` makes it.
    fn default() -> (r: Self)
        ensures
            search_fresh(r),
    {
        Self::new()
    }
}

} // verus!

verus! {

/// The steps of the video screen.
#[derive(Debug, Clone, Copy, PartialEq, Eq, Structural)]
pub enum VideoState {
    UrlInput,
    FetchingInfo,
    QualitySelect,
    Downloading,
    Done,
}

/// The video download screen.
pub struct VideoScreen {
    pub state: VideoState,
    pub input: InputField,
    pub video_info: Option<VideoInfo>,
    pub quality_options: SelectionList<String>,
    pub progress: ProgressBar,
    pub spinner: Spinner,
    pub status_message: Option<(String, bool)>,
}

/// The keys that a screen with a URL field and selection lists can take
/// without panicking.
pub open spec fn list_key_ok<T>(l: SelectionList<T>, key: Key) -> bool {
    key == Key::Down ==> l.selected < usize::MAX
}

/// `b` is the list `a` after the key: Up and Down move the selection.
pub open spec fn list_stepped<T>(a: SelectionList<T>, b: SelectionList<T>, key: Key) -> bool {
    if key == Key::Up {
        widgets::list_prev(a, b)
    } else if key == Key::Down {
        widgets::list_next(a, b)
    } else {
        b == a
    }
}

fn step_list<T>(l: &mut SelectionList<T>, key: Key)
    requires
        list_key_ok(*old(l), key),
    ensures
        list_stepped(*old(l), *final(l), key),
{
    if key == Key::Up {
        l.previous();
    } else if key == Key::Down {
        l.next();
    }
}

/// `r` is the screen as `new` makes it.
pub open spec fn video_fresh(r: VideoScreen) -> bool {
    &&& r.state == VideoState::UrlInput
    &&& widgets::input_fresh(r.input, "🎬 Enter Video URL:"@)
    &&& r.video_info is None
    &&& widgets::list_fresh(r.quality_options, "Select Quality"@)
    &&& widgets::progress_fresh(r.progress, "Downloading..."@)
    &&& widgets::spinner_fresh(r.spinner)
    &&& r.status_message is None
}

/// `b` is the screen `a` after `reset`.
pub open spec fn video_reset(a: VideoScreen, b: VideoScreen) -> bool {
    &&& b.state == VideoState::UrlInput
    &&& widgets::input_cleared(a.input, b.input)
    &&& b.video_info is None
    &&& b.quality_options.items@.len() == 0
    &&& b.quality_options.selected == a.quality_options.selected
    &&& b.quality_options.title == a.quality_options.title
    &&& b.progress == (ProgressBar { progress: 0, ..a.progress })
    &&& b.spinner == a.spinner
    &&& b.status_message is None
}

/// `b` is the screen `a` after `handle_key(key)`.
pub open spec fn video_stepped(a: VideoScreen, b: VideoScreen, key: Key) -> bool {
    &&& (a.state == VideoState::UrlInput ==> b == (VideoScreen { input: b.input, ..a })
        && widgets::input_stepped(a.input, b.input, key))
    &&& (a.state == VideoState::QualitySelect ==> b == (VideoScreen {
        quality_options: b.quality_options,
        ..a
    }) && list_stepped(a.quality_options, b.quality_options, key))
    &&& (a.state != VideoState::UrlInput && a.state != VideoState::QualitySelect ==> b == a)
}

/// `b` is the screen `a` after `set_video_info(info)`.
pub open spec fn video_info_shown(a: VideoScreen, b: VideoScreen, info: VideoInfo) -> bool {
    &&& b.state == VideoState::QualitySelect
    &&& b.video_info == Some(info)
    &&& options::pairs_view(b.quality_options.items@) == options::video_options(
        info.formats@,
    )
    &&& b.quality_options.selected == 0
    &&& b.quality_options.title == a.quality_options.title
    &&& b.input == a.input
    &&& b.progress == a.progress
    &&& b.spinner == a.spinner
    &&& b.status_message == a.status_message
}

impl VideoScreen {
    /// The screen, waiting for a URL.
    pub fn new() -> (r: Self)
        ensures
            video_fresh(r),
    {
        VideoScreen {
            state: VideoState::UrlInput,
            input: InputField::new("🎬 Enter Video URL:"),
            video_info: None,
            quality_options: SelectionList::new("Select Quality"),
            progress: ProgressBar::new("Downloading..."),
            spinner: Spinner::new(),
            status_message: None,
        }
    }

    /// Back to an empty URL.
    pub fn reset(&mut self)
        ensures
            video_reset(*old(self), *final(self)),
    {
        self.state = VideoState::UrlInput;
        self.input.clear();
        self.video_info = None;
        self.quality_options.clear_items();
        self.progress.progress = 0;
        self.status_message = None;
    }

    /// Offers the qualities of the video: see `options::video_options`.
    pub fn set_video_info(&mut self, info: VideoInfo)
        ensures
            video_info_shown(*old(self), *final(self), info),
    {
        let options = video_quality_options(&info);
        self.quality_options.set_items(options);
        self.video_info = Some(info);
        self.state = VideoState::QualitySelect;
    }

    /// The screen can take `key` without panicking.
    pub open spec fn accepts_key(&self, key: Key) -> bool {
        &&& self.state == VideoState::UrlInput ==> self.input.accepts_key(key)
        &&& self.state == VideoState::QualitySelect ==> list_key_ok(self.quality_options, key)
    }

    /// Whether the screen can take `key` without panicking.
    pub fn accepts(&self, key: Key) -> (r: bool)
        ensures
            r == self.accepts_key(key),
    {
        match self.state {
            VideoState::UrlInput => self.input.accepts(key),
            VideoState::QualitySelect => key != Key::Down || self.quality_options.selected
                < usize::MAX,
            _ => true,
        }
    }

    /// Typing edits the URL; the arrows move through the qualities.
    pub fn handle_key(&mut self, key: Key)
        requires
            old(self).accepts_key(key),
        ensures
            video_stepped(*old(self), *final(self), key),
    {
        match self.state {
            VideoState::UrlInput => {
                self.input.handle_key(key);
            },
            VideoState::QualitySelect => {
                step_list(&mut self.quality_options, key);
            },
            _ => {},
        }
    }
}

impl Default for VideoScreen {
    /// The screen as `new` makes it.
    fn default() -> (r: Self)
        ensures
            video_fresh(r),
    {
        Self::new()
    }
}

/// The steps of the audio screen.
#[derive(Debug, Clone, Copy, PartialEq, Eq, Structural)]
pub enum AudioState {
    UrlInput,
    FetchingInfo,
    QualitySelect,
    FormatSelect,
    Downloading,
    Done,
}

/// The audio download screen.
pub struct AudioScreen {
    pub state: AudioState,
    pub input: InputField,
    pub video_info: Option<VideoInfo>,
    pub quality_options: SelectionList<String>,
    pub format_options: SelectionList<AudioFormat>,
    pub selected_quality: Option<String>,
    pub progress: ProgressBar,
    pub spinner: Spinner,
    pub status_message: Option<(String, bool)>,
}

/// The label of an output format in the audio screen: its extension in capitals.
pub open spec fn format_choice_text(f: AudioFormat) -> Seq<char> {
    match f {
        AudioFormat::Mp3 => "🎵 MP3"@,
        AudioFormat::Wav => "🎵 WAV"@,
        AudioFormat::Ogg => "🎵 OGG"@,
        AudioFormat::Flac => "🎵 FLAC"@,
        AudioFormat::M4a => "🎵 M4A"@,
        AudioFormat::Opus => "🎵 OPUS"@,
    }
}

fn format_choice(f: AudioFormat) -> (r: (String, AudioFormat))
    ensures
        r.0@ == format_choice_text(f),
        r.1 == f,
{
    let label = match f {
        AudioFormat::Mp3 => "🎵 MP3",
        AudioFormat::Wav => "🎵 WAV",
        AudioFormat::Ogg => "🎵 OGG",
        AudioFormat::Flac => "🎵 FLAC",
        AudioFormat::M4a => "🎵 M4A",
        AudioFormat::Opus => "🎵 OPUS",
    };
    (label.to_owned(), f)
}

/// `r` is the screen as `new` makes it.
pub open spec fn audio_fresh(r: AudioScreen) -> bool {
    &&& r.state == AudioState::UrlInput
    &&& widgets::input_fresh(r.input, "🎵 Enter Video/Audio URL:"@)
    &&& r.video_info is None
    &&& widgets::list_fresh(r.quality_options, "Select Audio Quality"@)
    &&& r.format_options.title@ == "Select Output Format"@
    &&& r.format_options.selected == 0
    &&& r.format_options.items@.len() == 6
    &&& forall|i: int|
        0 <= i < 6 ==> {
            let f = (seq![
                AudioFormat::Mp3,
                AudioFormat::M4a,
                AudioFormat::Ogg,
                AudioFormat::Flac,
                AudioFormat::Wav,
                AudioFormat::Opus,
            ])[i];
            &&& (#[trigger] r.format_options.items@[i]).1 == f
            &&& r.format_options.items@[i].0@ == format_choice_text(f)
        }
    &&& r.selected_quality is None
    &&& widgets::progress_fresh(r.progress, "Downloading..."@)
    &&& widgets::spinner_fresh(r.spinner)
    &&& r.status_message is None
}

/// `b` is the screen `a` after `reset`.
pub open spec fn audio_reset(a: AudioScreen, b: AudioScreen) -> bool {
    &&& b.state == AudioState::UrlInput
    &&& widgets::input_cleared(a.input, b.input)
    &&& b.video_info is None
    &&& b.quality_options.items@.len() == 0
    &&& b.quality_options.selected == a.quality_options.selected
    &&& b.quality_options.title == a.quality_options.title
    &&& b.format_options == a.format_options
    &&& b.selected_quality is None
    &&& b.progress == (ProgressBar { progress: 0, ..a.progress })
    &&& b.spinner == a.spinner
    &&& b.status_message is None
}

/// `b` is the screen `a` after `handle_key(key)`.
pub open spec fn audio_stepped(a: AudioScreen, b: AudioScreen, key: Key) -> bool {
    &&& (a.state == AudioState::UrlInput ==> b == (AudioScreen { input: b.input, ..a })
        && widgets::input_stepped(a.input, b.input, key))
    &&& (a.state == AudioState::QualitySelect ==> b == (AudioScreen {
        quality_options: b.quality_options,
        ..a
    }) && list_stepped(a.quality_options, b.quality_options, key))
    &&& (a.state == AudioState::FormatSelect ==> b == (AudioScreen {
        format_options: b.format_options,
        ..a
    }) && list_stepped(a.format_options, b.format_options, key))
    &&& (a.state != AudioState::UrlInput && a.state != AudioState::QualitySelect && a.state
        != AudioState::FormatSelect ==> b == a)
}

/// `b` is the screen `a` after `set_video_info(info)`.
pub open spec fn audio_info_shown(a: AudioScreen, b: AudioScreen, info: VideoInfo) -> bool {
    &&& b.state == AudioState::QualitySelect
    &&& b.video_info == Some(info)
    &&& options::pairs_view(b.quality_options.items@) == options::audio_options(
        info.formats@,
    )
    &&& b.quality_options.selected == 0
    &&& b.quality_options.title == a.quality_options.title
    &&& b.input == a.input
    &&& b.format_options == a.format_options
    &&& b.selected_quality == a.selected_quality
    &&& b.progress == a.progress
    &&& b.spinner == a.spinner
    &&& b.status_message == a.status_message
}

impl AudioScreen {
    /// The screen, waiting for a URL; the output formats are those of
    /// `AudioFormat::all`, in order.
    pub fn new() -> (r: Self)
        ensures
            audio_fresh(r),
    {
        let all = AudioFormat::all();
        let mut items: Vec<(String, AudioFormat)> = Vec::new();
        let mut i: usize = 0;
        while i < all.len()
            invariant
                all@ == seq![
                    AudioFormat::Mp3,
                    AudioFormat::M4a,
                    AudioFormat::Ogg,
                    AudioFormat::Flac,
                    AudioFormat::Wav,
                    AudioFormat::Opus,
                ],
                i <= 6,
                items@.len() == i,
                forall|j: int|
                    0 <= j < i ==> (#[trigger] items@[j]).1 == all@[j] && items@[j].0@
                        == format_choice_text(all@[j]),
            decreases 6 - i,
        {
            items.push(format_choice(all[i]));
            i = i + 1;
        }
        let mut format_options = SelectionList::new("Select Output Format");
        format_options.set_items(items);
        AudioScreen {
            state: AudioState::UrlInput,
            input: InputField::new("🎵 Enter Video/Audio URL:"),
            video_info: None,
            quality_options: SelectionList::new("Select Audio Quality"),
            format_options,
            selected_quality: None,
            progress: ProgressBar::new("Downloading..."),
            spinner: Spinner::new(),
            status_message: None,
        }
    }

    /// Back to an empty URL.
    pub fn reset(&mut self)
        ensures
            audio_reset(*old(self), *final(self)),
    {
        self.state = AudioState::UrlInput;
        self.input.clear();
        self.video_info = None;
        self.quality_options.clear_items();
        self.selected_quality = None;
        self.progress.progress = 0;
        self.status_message = None;
    }

    /// Offers the bitrates of the video: see `options::audio_options`.
    pub fn set_video_info(&mut self, info: VideoInfo)
        ensures
            audio_info_shown(*old(self), *final(self), info),
    {
        let options = audio_quality_options(&info);
        self.quality_options.set_items(options);
        self.video_info = Some(info);
        self.state = AudioState::QualitySelect;
    }

    /// The selected output format.
    pub fn selected_format(&self) -> (r: Option<AudioFormat>)
        ensures
            r == (if self.format_options.selected < self.format_options.items@.len() {
                Some(self.format_options.items@[self.format_options.selected as int].1)
            } else {
                None
            }),
    {
        match self.format_options.selected_item() {
            Some(f) => Some(*f),
            None => None,
        }
    }

    /// The screen can take `key` without panicking.
    pub open spec fn accepts_key(&self, key: Key) -> bool {
        &&& self.state == AudioState::UrlInput ==> self.input.accepts_key(key)
        &&& self.state == AudioState::QualitySelect ==> list_key_ok(self.quality_options, key)
        &&& self.state == AudioState::FormatSelect ==> list_key_ok(self.format_options, key)
    }

    /// Whether the screen can take `key` without panicking.
    pub fn accepts(&self, key: Key) -> (r: bool)
        ensures
            r == self.accepts_key(key),
    {
        match self.state {
            AudioState::UrlInput => self.input.accepts(key),
            AudioState::QualitySelect => key != Key::Down || self.quality_options.selected
                < usize::MAX,
            AudioState::FormatSelect => key != Key::Down || self.format_options.selected
                < usize::MAX,
            _ => true,
        }
    }

    /// Typing edits the URL; the arrows move through the qualities or the formats.
    pub fn handle_key(&mut self, key: Key)
        requires
            old(self).accepts_key(key),
        ensures
            audio_stepped(*old(self), *final(self), key),
    {
        match self.state {
            AudioState::UrlInput => {
                self.input.handle_key(key);
            },
            AudioState::QualitySelect => {
                step_list(&mut self.quality_options, key);
            },
            AudioState::FormatSelect => {
                step_list(&mut self.format_options, key);
            },
            _ => {},
        }
    }
}

impl Default for AudioScreen {
    /// The screen as `new` makes it.
    fn default() -> (r: Self)
        ensures
            audio_fresh(r),
    {
        Self::new()
    }
}

} // verus!

verus! {

/// The steps of the playlist screen.
#[derive(Debug, Clone, Copy, PartialEq, Eq, Structural)]
pub enum PlaylistState {
    UrlInput,
    FetchingInfo,
    PresetSelect,
    AudioFormatSelect,
    Downloading,
    Done,
}

/// The playlist download screen.
pub struct PlaylistScreen {
    pub state: PlaylistState,
    pub input: InputField,
    pub playlist_info: Option<PlaylistInfo>,
    pub preset_options: SelectionList<QualityPreset>,
    pub audio_options: SelectionList<AudioFormat>,
    pub progress: ProgressBar,
    pub current_video: usize,
    pub total_videos: usize,
    pub is_audio_mode: bool,
    pub spinner: Spinner,
    pub status_message: Option<(String, bool)>,
}

/// The line of the preset list that separates the presets from "audio only".
pub open spec fn preset_separator_line() -> int {
    6
}

/// The line of the preset list that asks for the audio only.
pub open spec fn audio_only_line() -> int {
    7
}

/// The preset list: the six presets, a separator and "audio only"; the
/// last two carry the God preset, which nothing reads.
pub open spec fn preset_items() -> Seq<(Seq<char>, QualityPreset)> {
    seq![
        (crate::formats::preset_label_text(QualityPreset::God), QualityPreset::God),
        (crate::formats::preset_label_text(QualityPreset::Ultra), QualityPreset::Ultra),
        (crate::formats::preset_label_text(QualityPreset::Pro), QualityPreset::Pro),
        (crate::formats::preset_label_text(QualityPreset::High), QualityPreset::High),
        (crate::formats::preset_label_text(QualityPreset::Medium), QualityPreset::Medium),
        (crate::formats::preset_label_text(QualityPreset::Low), QualityPreset::Low),
        ("───────────────"@, QualityPreset::God),
        ("🎵 Audio Only (MP3)"@, QualityPreset::God),
    ]
}

/// The bitrate list of the audio-only playlist download (all MP3).
pub open spec fn playlist_audio_items() -> Seq<(Seq<char>, AudioFormat)> {
    seq![
        ("🔊 320kbps (Best)"@, AudioFormat::Mp3),
        ("🔊 256kbps"@, AudioFormat::Mp3),
        ("🔊 192kbps"@, AudioFormat::Mp3),
        ("🔊 128kbps"@, AudioFormat::Mp3),
    ]
}

/// Labelled items, as text.
pub open spec fn labelled_view<T>(v: Seq<(String, T)>) -> Seq<(Seq<char>, T)> {
    v.map_values(|p: (String, T)| (p.0@, p.1))
}

fn push_labelled<T>(v: &mut Vec<(String, T)>, label: &str, x: T)
    ensures
        labelled_view(final(v)@) == labelled_view(old(v)@).push((label@, x)),
{
    v.push((label.to_owned(), x));
    assert(labelled_view(v@) =~= labelled_view(old(v)@).push((label@, x)));
}

/// `r` is the screen as `new` makes it.
pub open spec fn playlist_fresh(r: PlaylistScreen) -> bool {
    &&& r.state == PlaylistState::UrlInput
    &&& widgets::input_fresh(r.input, "📦 Enter Playlist URL:"@)
    &&& r.playlist_info is None
    &&& labelled_view(r.preset_options.items@) == preset_items()
    &&& r.preset_options.selected == 0
    &&& r.preset_options.title@ == "Select Quality Preset"@
    &&& labelled_view(r.audio_options.items@) == playlist_audio_items()
    &&& r.audio_options.selected == 0
    &&& r.audio_options.title@ == "Select Audio Quality"@
    &&& widgets::progress_fresh(r.progress, "Downloading playlist..."@)
    &&& r.current_video == 0
    &&& r.total_videos == 0
    &&& !r.is_audio_mode
    &&& widgets::spinner_fresh(r.spinner)
    &&& r.status_message is None
}

/// `b` is the screen `a` after `reset`.
pub open spec fn playlist_reset(a: PlaylistScreen, b: PlaylistScreen) -> bool {
    &&& b == (PlaylistScreen {
        state: PlaylistState::UrlInput,
        input: b.input,
        playlist_info: None,
        progress: ProgressBar { progress: 0, ..a.progress },
        current_video: 0,
        total_videos: 0,
        is_audio_mode: false,
        status_message: None,
        ..a
    })
    &&& widgets::input_cleared(a.input, b.input)
}

/// `b` is the screen `a` after `handle_key(key)`.
pub open spec fn playlist_stepped(a: PlaylistScreen, b: PlaylistScreen, key: Key) -> bool {
    &&& (a.state == PlaylistState::UrlInput ==> b == (PlaylistScreen { input: b.input, ..a })
        && widgets::input_stepped(a.input, b.input, key))
    &&& (a.state == PlaylistState::PresetSelect ==> b == (PlaylistScreen {
        preset_options: b.preset_options,
        ..a
    }) && list_stepped(a.preset_options, b.preset_options, key))
    &&& (a.state == PlaylistState::AudioFormatSelect ==> b == (PlaylistScreen {
        audio_options: b.audio_options,
        ..a
    }) && list_stepped(a.audio_options, b.audio_options, key))
    &&& (a.state != PlaylistState::UrlInput && a.state != PlaylistState::PresetSelect && a.state
        != PlaylistState::AudioFormatSelect ==> b == a)
}

impl PlaylistScreen {
    /// The screen, waiting for a URL.
    pub fn new() -> (r: Self)
        ensures
            playlist_fresh(r),
    {
        let mut presets: Vec<(String, QualityPreset)> = Vec::new();
        push_labelled(&mut presets, QualityPreset::God.label(), QualityPreset::God);
        push_labelled(&mut presets, QualityPreset::Ultra.label(), QualityPreset::Ultra);
        push_labelled(&mut presets, QualityPreset::Pro.label(), QualityPreset::Pro);
        push_labelled(&mut presets, QualityPreset::High.label(), QualityPreset::High);
        push_labelled(&mut presets, QualityPreset::Medium.label(), QualityPreset::Medium);
        push_labelled(&mut presets, QualityPreset::Low.label(), QualityPreset::Low);
        push_labelled(&mut presets, "───────────────", QualityPreset::God);
        push_labelled(&mut presets, "🎵 Audio Only (MP3)", QualityPreset::God);
        assert(labelled_view(presets@) =~= preset_items());
        let mut preset_options = SelectionList::new("Select Quality Preset");
        preset_options.set_items(presets);
        let mut audio: Vec<(String, AudioFormat)> = Vec::new();
        push_labelled(&mut audio, "🔊 320kbps (Best)", AudioFormat::Mp3);
        push_labelled(&mut audio, "🔊 256kbps", AudioFormat::Mp3);
        push_labelled(&mut audio, "🔊 192kbps", AudioFormat::Mp3);
        push_labelled(&mut audio, "🔊 128kbps", AudioFormat::Mp3);
        assert(labelled_view(audio@) =~= playlist_audio_items());
        let mut audio_options = SelectionList::new("Select Audio Quality");
        audio_options.set_items(audio);
        PlaylistScreen {
            state: PlaylistState::UrlInput,
            input: InputField::new("📦 Enter Playlist URL:"),
            playlist_info: None,
            preset_options,
            audio_options,
            progress: ProgressBar::new("Downloading playlist..."),
            current_video: 0,
            total_videos: 0,
            is_audio_mode: false,
            spinner: Spinner::new(),
            status_message: None,
        }
    }

    /// Back to an empty URL (the lists keep their selection).
    pub fn reset(&mut self)
        ensures
            playlist_reset(*old(self), *final(self)),
    {
        self.state = PlaylistState::UrlInput;
        self.input.clear();
        self.playlist_info = None;
        self.progress.progress = 0;
        self.current_video = 0;
        self.total_videos = 0;
        self.is_audio_mode = false;
        self.status_message = None;
    }

    /// Shows the playlist and offers the presets.
    pub fn set_playlist_info(&mut self, info: PlaylistInfo)
        ensures
            *final(self) == (PlaylistScreen {
                state: PlaylistState::PresetSelect,
                total_videos: info.entries@.len() as usize,
                playlist_info: Some(info),
                ..*old(self)
            }),
    {
        self.total_videos = info.entries.len();
        self.playlist_info = Some(info);
        self.state = PlaylistState::PresetSelect;
    }

    /// The selected preset.
    pub fn selected_preset(&self) -> (r: Option<QualityPreset>)
        ensures
            r == (if self.preset_options.selected < self.preset_options.items@.len() {
                Some(self.preset_options.items@[self.preset_options.selected as int].1)
            } else {
                None
            }),
    {
        match self.preset_options.selected_item() {
            Some(p) => Some(*p),
            None => None,
        }
    }

    /// The screen can take `key` without panicking.
    pub open spec fn accepts_key(&self, key: Key) -> bool {
        &&& self.state == PlaylistState::UrlInput ==> self.input.accepts_key(key)
        &&& self.state == PlaylistState::PresetSelect ==> list_key_ok(self.preset_options, key)
        &&& self.state == PlaylistState::AudioFormatSelect ==> list_key_ok(
            self.audio_options,
            key,
        )
    }

    /// Whether the screen can take `key` without panicking.
    pub fn accepts(&self, key: Key) -> (r: bool)
        ensures
            r == self.accepts_key(key),
    {
        match self.state {
            PlaylistState::UrlInput => self.input.accepts(key),
            PlaylistState::PresetSelect => key != Key::Down || self.preset_options.selected
                < usize::MAX,
            PlaylistState::AudioFormatSelect => key != Key::Down || self.audio_options.selected
                < usize::MAX,
            _ => true,
        }
    }

    /// Typing edits the URL; the arrows move through the presets or the bitrates.
    pub fn handle_key(&mut self, key: Key)
        requires
            old(self).accepts_key(key),
        ensures
            playlist_stepped(*old(self), *final(self), key),
    {
        match self.state {
            PlaylistState::UrlInput => {
                self.input.handle_key(key);
            },
            PlaylistState::PresetSelect => {
                step_list(&mut self.preset_options, key);
            },
            PlaylistState::AudioFormatSelect => {
                step_list(&mut self.audio_options, key);
            },
            _ => {},
        }
    }
}

impl Default for PlaylistScreen {
    /// The screen as `new` makes it.
    fn default() -> (r: Self)
        ensures
            playlist_fresh(r),
    {
        Self::new()
    }
}

/// The steps of the thumbnail screen.
#[derive(Debug, Clone, Copy, PartialEq, Eq, Structural)]
pub enum ThumbnailState {
    UrlInput,
    Fetching,
    SelectResolution,
    Downloading,
    Done,
}

/// The thumbnail sizes offered.
#[derive(Debug, Clone, Copy, PartialEq, Eq, Structural)]
pub enum ThumbnailResolution {
    MaxRes,
    High,
    Default,
    All,
}

/// The label of each thumbnail size.
pub open spec fn resolution_choice_text(r: ThumbnailResolution) -> Seq<char> {
    match r {
        ThumbnailResolution::MaxRes => "🖼️  Max Resolution (1280x720)"@,
        ThumbnailResolution::High => "🖼️  High Quality (480x360)"@,
        ThumbnailResolution::Default => "🖼️  Default (120x90)"@,
        ThumbnailResolution::All => "📦 All Resolutions"@,
    }
}

/// The thumbnail sizes, in the order offered.
pub open spec fn all_resolutions() -> Seq<ThumbnailResolution> {
    seq![
        ThumbnailResolution::MaxRes,
        ThumbnailResolution::High,
        ThumbnailResolution::Default,
        ThumbnailResolution::All,
    ]
}

impl ThumbnailResolution {
    /// The label of this size.
    pub fn label(&self) -> (r: &'static str)
        ensures
            r@ == resolution_choice_text(*self),
    {
        match self {
            ThumbnailResolution::MaxRes => "🖼️  Max Resolution (1280x720)",
            ThumbnailResolution::High => "🖼️  High Quality (480x360)",
            ThumbnailResolution::Default => "🖼️  Default (120x90)",
            ThumbnailResolution::All => "📦 All Resolutions",
        }
    }

    /// The sizes, in the order offered.
    pub fn all() -> (r: Vec<ThumbnailResolution>)
        ensures
            r@ == all_resolutions(),
    {
        let mut v = Vec::new();
        v.push(ThumbnailResolution::MaxRes);
        v.push(ThumbnailResolution::High);
        v.push(ThumbnailResolution::Default);
        v.push(ThumbnailResolution::All);
        assert(v@ =~= all_resolutions());
        v
    }
}

/// The thumbnail download screen.
pub struct ThumbnailScreen {
    pub state: ThumbnailState,
    pub input: InputField,
    pub video_title: Option<String>,
    pub resolutions: Vec<ThumbnailResolution>,
    pub selected: usize,
    pub downloaded_files: Vec<String>,
    pub spinner: Spinner,
    pub status_message: Option<(String, bool)>,
}

/// `r` is the screen as `new` makes it.
pub open spec fn thumbnail_fresh(r: ThumbnailScreen) -> bool {
    &&& r.state == ThumbnailState::UrlInput
    &&& widgets::input_fresh(r.input, "🖼️  Enter Video URL:"@)
    &&& r.video_title is None
    &&& r.resolutions@ == all_resolutions()
    &&& r.selected == 0
    &&& r.downloaded_files@.len() == 0
    &&& widgets::spinner_fresh(r.spinner)
    &&& r.status_message is None
}

/// `b` is the screen `a` after `reset`.
pub open spec fn thumbnail_reset(a: ThumbnailScreen, b: ThumbnailScreen) -> bool {
    &&& b == (ThumbnailScreen {
        state: ThumbnailState::UrlInput,
        input: b.input,
        video_title: None,
        selected: 0,
        downloaded_files: b.downloaded_files,
        status_message: None,
        ..a
    })
    &&& widgets::input_cleared(a.input, b.input)
    &&& b.downloaded_files@.len() == 0
}

/// `b` is the screen `a` after `handle_key(key)`.
pub open spec fn thumbnail_stepped(a: ThumbnailScreen, b: ThumbnailScreen, key: Key) -> bool {
    &&& (a.state == ThumbnailState::UrlInput ==> b == (ThumbnailScreen { input: b.input, ..a })
        && widgets::input_stepped(a.input, b.input, key))
    &&& (a.state == ThumbnailState::SelectResolution ==> b == (ThumbnailScreen {
        selected: b.selected,
        ..a
    }) && b.selected == (if key == Key::Up {
        if a.selected == 0 {
            a.resolutions@.len() - 1
        } else {
            a.selected - 1
        }
    } else if key == Key::Down {
        (a.selected + 1) % (a.resolutions@.len() as int)
    } else {
        a.selected as int
    }))
    &&& (a.state != ThumbnailState::UrlInput && a.state != ThumbnailState::SelectResolution ==> b
        == a)
}

impl ThumbnailScreen {
    /// The screen, waiting for a URL.
    pub fn new() -> (r: Self)
        ensures
            thumbnail_fresh(r),
    {
        ThumbnailScreen {
            state: ThumbnailState::UrlInput,
            input: InputField::new("🖼️  Enter Video URL:"),
            video_title: None,
            resolutions: ThumbnailResolution::all(),
            selected: 0,
            downloaded_files: Vec::new(),
            spinner: Spinner::new(),
            status_message: None,
        }
    }

    /// Back to an empty URL.
    pub fn reset(&mut self)
        ensures
            thumbnail_reset(*old(self), *final(self)),
    {
        self.state = ThumbnailState::UrlInput;
        self.input.clear();
        self.video_title = None;
        self.selected = 0;
        self.downloaded_files = Vec::new();
        self.status_message = None;
    }

    /// Shows the video's title and offers the sizes.
    pub fn set_video_title(&mut self, title: String)
        ensures
            *final(self) == (ThumbnailScreen {
                state: ThumbnailState::SelectResolution,
                video_title: Some(title),
                ..*old(self)
            }),
    {
        self.video_title = Some(title);
        self.state = ThumbnailState::SelectResolution;
    }

    /// The selected size.
    pub fn selected_resolution(&self) -> (r: ThumbnailResolution)
        requires
            self.selected < self.resolutions@.len(),
        ensures
            r == self.resolutions@[self.selected as int],
    {
        self.resolutions[self.selected]
    }

    /// Selects the next size, from the last back to the first.
    pub fn next(&mut self)
        requires
            old(self).resolutions@.len() > 0,
            old(self).selected < usize::MAX,
        ensures
            *final(self) == (ThumbnailScreen { selected: final(self).selected, ..*old(self) }),
            final(self).selected == (old(self).selected + 1) % (old(self).resolutions@.len() as int),
    {
        self.selected = (self.selected + 1) % self.resolutions.len();
    }

    /// Selects the previous size, from the first round to the last.
    pub fn previous(&mut self)
        requires
            old(self).resolutions@.len() > 0,
        ensures
            *final(self) == (ThumbnailScreen { selected: final(self).selected, ..*old(self) }),
            final(self).selected == (if old(self).selected == 0 {
                old(self).resolutions@.len() - 1
            } else {
                old(self).selected - 1
            }),
    {
        self.selected = if self.selected == 0 {
            self.resolutions.len() - 1
        } else {
            self.selected - 1
        };
    }

    /// The screen can take `key` without panicking.
    pub open spec fn accepts_key(&self, key: Key) -> bool {
        &&& self.state == ThumbnailState::UrlInput ==> self.input.accepts_key(key)
        &&& self.state == ThumbnailState::SelectResolution ==> (key == Key::Up || key
            == Key::Down ==> self.resolutions@.len() > 0)
        &&& self.state == ThumbnailState::SelectResolution && key == Key::Down ==> self.selected
            < usize::MAX
    }

    /// Whether the screen can take `key` without panicking.
    pub fn accepts(&self, key: Key) -> (r: bool)
        ensures
            r == self.accepts_key(key),
    {
        match self.state {
            ThumbnailState::UrlInput => self.input.accepts(key),
            ThumbnailState::SelectResolution => {
                if key == Key::Up {
                    self.resolutions.len() > 0
                } else if key == Key::Down {
                    self.resolutions.len() > 0 && self.selected < usize::MAX
                } else {
                    true
                }
            },
            _ => true,
        }
    }

    /// Typing edits the URL; the arrows move through the sizes.
    pub fn handle_key(&mut self, key: Key)
        requires
            old(self).accepts_key(key),
        ensures
            thumbnail_stepped(*old(self), *final(self), key),
    {
        match self.state {
            ThumbnailState::UrlInput => {
                self.input.handle_key(key);
            },
            ThumbnailState::SelectResolution => {
                if key == Key::Up {
                    self.previous();
                } else if key == Key::Down {
                    self.next();
                }
            },
            _ => {},
        }
    }
}

impl Default for ThumbnailScreen {
    /// The screen as `new` makes it.
    fn default() -> (r: Self)
        ensures
            thumbnail_fresh(r),
    {
        Self::new()
    }
}

} // verus!
