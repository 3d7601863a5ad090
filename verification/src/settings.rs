//! The settings screen, and Tab completion of directory names in its path
//! field.

use vstd::prelude::*;
use vstd::string::StringSliceAdditionalSpecFns;
use crate::config::Config;
use crate::deps::{lemma_text_less_irreflexive, lemma_text_less_total, lemma_text_less_transitive, text_less};
use crate::paths::{file_name_of, joined_path, parent_of, same_path};
use crate::text::{matches_at, or_empty, strings_view};
use crate::widgets;
use crate::widgets::{InputField, Key};

verus! {

/// Whether `s` begins with `p`.
pub fn str_starts_with(s: &str, p: &str) -> (r: bool)
    ensures
        r == matches_at(s@, p@, 0),
{
    let x = crate::text::chars_of(s);
    let y = crate::text::chars_of(p);
    if y.len() > x.len() {
        return false;
    }
    let mut i: usize = 0;
    while i < y.len()
        invariant
            x@ == s@,
            y@ == p@,
            y@.len() <= x@.len(),
            i <= y@.len(),
            forall|k: int| 0 <= k < i ==> x@[k] == y@[k],
        decreases y@.len() - i,
    {
        if x[i] != y[i] {
            assert(x@.subrange(0, y@.len() as int)[i as int] == x@[i as int]);
            return false;
        }
        i = i + 1;
    }
    assert(x@.subrange(0, y@.len() as int) =~= y@);
    true
}

/// Whether directory `n` is offered when Tab completes the name `cur`
/// typed up to `prefix`: every directory when `cur` is one of them (Tab
/// then cycles), else those whose name begins with `prefix`.
pub open spec fn offered(names: Seq<Seq<char>>, cur: Seq<char>, prefix: Seq<char>, n: Seq<char>) -> bool {
    names.contains(cur) || matches_at(n, prefix, 0)
}

/// Some directory is offered.
pub open spec fn has_offer(names: Seq<Seq<char>>, cur: Seq<char>, prefix: Seq<char>) -> bool {
    exists|i: int| 0 <= i < names.len() && offered(names, cur, prefix, #[trigger] names[i])
}

/// `x` is the least offered name, among those above `above` where given.
pub open spec fn least_offered(
    names: Seq<Seq<char>>,
    cur: Seq<char>,
    prefix: Seq<char>,
    above: Option<Seq<char>>,
    x: Seq<char>,
) -> bool {
    &&& names.contains(x)
    &&& offered(names, cur, prefix, x)
    &&& (above matches Some(l) ==> text_less(l, x))
    &&& forall|i: int|
        0 <= i < names.len() && offered(names, cur, prefix, #[trigger] names[i]) && (above matches Some(
            l,
        ) ==> text_less(l, names[i])) ==> !text_less(names[i], x)
}

/// `cur` occurs at least twice among the names.
pub open spec fn occurs_twice(names: Seq<Seq<char>>, cur: Seq<char>) -> bool {
    exists|i: int, j: int| 0 <= i < j < names.len() && #[trigger] names[i] == cur && #[trigger] names[j] == cur
}

/// Some name comes after `cur` in text order.
pub open spec fn has_later(names: Seq<Seq<char>>, cur: Seq<char>) -> bool {
    exists|i: int| 0 <= i < names.len() && text_less(cur, #[trigger] names[i])
}

/// `x` is the name that Tab moves to: in the sorted list of offered names,
/// the one after `cur` (round to the first), or the first when `cur` is
/// not among them.
pub open spec fn completion_choice(names: Seq<Seq<char>>, cur: Seq<char>, prefix: Seq<char>, x: Seq<char>) -> bool {
    if names.contains(cur) && occurs_twice(names, cur) {
        x == cur
    } else if names.contains(cur) && has_later(names, cur) {
        least_offered(names, cur, prefix, Some(cur), x)
    } else {
        least_offered(names, cur, prefix, None, x)
    }
}

/// At most one name is the least offered one.
proof fn lemma_least_unique(
    names: Seq<Seq<char>>,
    cur: Seq<char>,
    prefix: Seq<char>,
    above: Option<Seq<char>>,
    x: Seq<char>,
    y: Seq<char>,
)
    requires
        least_offered(names, cur, prefix, above, x),
        least_offered(names, cur, prefix, above, y),
    ensures
        x == y,
{
    let i = choose|i: int| 0 <= i < names.len() && names[i] == x;
    let j = choose|j: int| 0 <= j < names.len() && names[j] == y;
    assert(!text_less(names[j], x));
    assert(!text_less(names[i], y));
    if x != y {
        lemma_text_less_total(x, y);
    }
}

/// Tab moves to one name at most.
pub proof fn lemma_completion_unique(
    names: Seq<Seq<char>>,
    cur: Seq<char>,
    prefix: Seq<char>,
    x: Seq<char>,
    y: Seq<char>,
)
    requires
        completion_choice(names, cur, prefix, x),
        completion_choice(names, cur, prefix, y),
    ensures
        x == y,
{
    if names.contains(cur) && occurs_twice(names, cur) {
    } else if names.contains(cur) && has_later(names, cur) {
        lemma_least_unique(names, cur, prefix, Some(cur), x, y);
    } else {
        lemma_least_unique(names, cur, prefix, None, x, y);
    }
}

/// The name that Tab moves to among the directory names `names`, when the
/// typed name is `cur` and its start `prefix`; `None` when no directory is
/// offered.
pub fn next_completion_name(names: &Vec<String>, cur: &str, prefix: &str) -> (r: Option<String>)
    ensures
        r is None <==> !has_offer(strings_view(names@), cur@, prefix@),
        r matches Some(x) ==> completion_choice(strings_view(names@), cur@, prefix@, x@),
{
    let ghost nv = strings_view(names@);
    let n = names.len();
    // How often `cur` occurs, counted up to two.
    let mut seen: usize = 0;
    let mut first: usize = 0;
    let mut i: usize = 0;
    while i < n
        invariant
            n == names@.len(),
            nv == strings_view(names@),
            i <= n,
            seen <= 2,
            seen == 0 <==> forall|k: int| 0 <= k < i ==> nv[k] != cur@,
            seen >= 1 ==> first < i && nv[first as int] == cur@,
            seen >= 2 ==> occurs_twice(nv, cur@),
            seen == 1 ==> forall|k: int| 0 <= k < i && k != first ==> nv[k] != cur@,
        decreases n - i,
    {
        if crate::text::str_eq(names[i].as_str(), cur) {
            assert(nv[i as int] == names@[i as int]@);
            if seen == 1 {
                assert(nv[first as int] == cur@ && nv[i as int] == cur@);
                seen = 2;
            } else if seen == 0 {
                first = i;
                seen = 1;
            }
        } else {
            assert(nv[i as int] == names@[i as int]@);
        }
        i = i + 1;
    }
    let has = seen >= 1;
    proof {
        if has {
            assert(nv[first as int] == cur@);
            assert(nv.contains(cur@));
        } else {
            assert(!nv.contains(cur@));
        }
        if seen == 1 {
            assert(!occurs_twice(nv, cur@));
        }
    }
    if seen >= 2 {
        return Some(names[first].clone());
    }
    // The least offered name, and the least one after `cur`.
    let mut best: Option<usize> = None;
    let mut above: Option<usize> = None;
    let mut i: usize = 0;
    while i < n
        invariant
            n == names@.len(),
            nv == strings_view(names@),
            i <= n,
            has == nv.contains(cur@),
            best is None <==> forall|k: int|
                0 <= k < i ==> !offered(nv, cur@, prefix@, #[trigger] nv[k]),
            best matches Some(b) ==> b < i && offered(nv, cur@, prefix@, nv[b as int]) && forall|
                k: int,
            |
                0 <= k < i && offered(nv, cur@, prefix@, #[trigger] nv[k]) ==> !text_less(
                    nv[k],
                    nv[b as int],
                ),
            above is None <==> forall|k: int|
                0 <= k < i ==> !(has && text_less(cur@, #[trigger] nv[k])),
            above matches Some(b) ==> b < i && has && text_less(cur@, nv[b as int]) && forall|
                k: int,
            |
                0 <= k < i && has && text_less(cur@, #[trigger] nv[k]) ==> !text_less(
                    nv[k],
                    nv[b as int],
                ),
        decreases n - i,
    {
        assert(nv[i as int] == names@[i as int]@);
        let off = has || str_starts_with(names[i].as_str(), prefix);
        if off {
            match best {
                None => {
                    proof {
                        lemma_text_less_irreflexive(nv[i as int]);
                    }
                    best = Some(i);
                },
                Some(b) => {
                    assert(nv[b as int] == names@[b as int]@);
                    if crate::deps::str_less(names[i].as_str(), names[b].as_str()) {
                        proof {
                            assert forall|k: int|
                                0 <= k < i && offered(
                                    nv,
                                    cur@,
                                    prefix@,
                                    #[trigger] nv[k],
                                ) implies !text_less(nv[k], nv[i as int]) by {
                                if text_less(nv[k], nv[i as int]) {
                                    lemma_text_less_transitive(nv[k], nv[i as int], nv[b as int]);
                                }
                            }
                            lemma_text_less_irreflexive(nv[i as int]);
                        }
                        best = Some(i);
                    }
                },
            }
        }
        if has && crate::deps::str_less(cur, names[i].as_str()) {
            match above {
                None => {
                    proof {
                        lemma_text_less_irreflexive(nv[i as int]);
                    }
                    above = Some(i);
                },
                Some(b) => {
                    assert(nv[b as int] == names@[b as int]@);
                    if crate::deps::str_less(names[i].as_str(), names[b].as_str()) {
                        proof {
                            assert forall|k: int|
                                0 <= k < i && has && text_less(
                                    cur@,
                                    #[trigger] nv[k],
                                ) implies !text_less(nv[k], nv[i as int]) by {
                                if text_less(nv[k], nv[i as int]) {
                                    lemma_text_less_transitive(nv[k], nv[i as int], nv[b as int]);
                                }
                            }
                            lemma_text_less_irreflexive(nv[i as int]);
                        }
                        above = Some(i);
                    }
                },
            }
        }
        i = i + 1;
    }
    match above {
        Some(b) => {
            assert(nv[b as int] == names@[b as int]@);
            assert(nv.contains(nv[b as int]));
            assert(has_later(nv, cur@));
            Some(names[b].clone())
        },
        None => {
            proof {
                if has {
                    assert(!has_later(nv, cur@));
                }
            }
            match best {
                Some(b) => {
                    assert(nv[b as int] == names@[b as int]@);
                    assert(nv.contains(nv[b as int]));
                    Some(names[b].clone())
                },
                None => None,
            }
        },
    }
}

/// The directory listed for Tab, and the typed start of the name, for the
/// path `input` on a platform whose separator is `sep`: a path that ends
/// in the separator is listed whole; else its parent (the current
/// directory when it has none or an empty one) with its last component as
/// the start of the name.
pub open spec fn completion_base(input: Seq<char>, sep: char) -> (Seq<char>, Seq<char>) {
    let (dir, prefix) = if input.len() > 0 && input.last() == sep {
        (input, Seq::<char>::empty())
    } else {
        match parent_of(input) {
            Some(p) => (p, or_empty(file_name_of(input))),
            None => ("."@, input),
        }
    };
    (if dir.len() == 0 {
        "."@
    } else {
        dir
    }, prefix)
}

/// The name whose successor Tab looks for: the last component of the path.
pub open spec fn completion_current(input: Seq<char>) -> Seq<char> {
    or_empty(file_name_of(input))
}

/// The path after Tab moved to the directory `name`: in the current
/// directory the bare name (after "./" where the path began so), else the
/// listed directory joined with it.
pub open spec fn completed_path(input: Seq<char>, sep: char, name: Seq<char>) -> Seq<char> {
    let dir = completion_base(input, sep).0;
    if same_path(dir, "."@) {
        if matches_at(input, "./"@, 0) {
            "./"@ + name
        } else {
            name
        }
    } else {
        joined_path(dir, name)
    }
}

/// The directory to list, and the typed start of the name.
pub fn completion_base_of(input: &str, sep: char) -> (r: (String, String))
    ensures
        r.0@ == completion_base(input@, sep).0,
        r.1@ == completion_base(input@, sep).1,
{
    let chars = crate::text::chars_of(input);
    let n = chars.len();
    let (dir, prefix) = if n > 0 && chars[n - 1] == sep {
        assert(input@.last() == chars@[n - 1]);
        (input.to_owned(), String::new())
    } else {
        match crate::paths::path_parent(input) {
            Some(p) => {
                let name = match crate::paths::path_file_name(input) {
                    Some(f) => f,
                    None => String::new(),
                };
                (p, name)
            },
            None => (".".to_owned(), input.to_owned()),
        }
    };
    proof {
        reveal_strlit(".");
    }
    if dir.as_str().unicode_len() == 0 {
        (".".to_owned(), prefix)
    } else {
        (dir, prefix)
    }
}

/// The options of the settings menu.
#[derive(Debug, Clone, Copy, PartialEq, Eq, Structural)]
pub enum SettingsOption {
    DownloadPath,
    ParallelDownloads,
    DebugMode,
    Back,
}

/// The label of each option.
pub open spec fn option_label(o: SettingsOption) -> Seq<char> {
    match o {
        SettingsOption::DownloadPath => "📁 Download Path"@,
        SettingsOption::ParallelDownloads => "⚡ Parallel Downloads"@,
        SettingsOption::DebugMode => "🔧 Debug Mode"@,
        SettingsOption::Back => "← Back to Menu"@,
    }
}

/// The options, in the order shown.
pub open spec fn all_options() -> Seq<SettingsOption> {
    seq![
        SettingsOption::DownloadPath,
        SettingsOption::ParallelDownloads,
        SettingsOption::DebugMode,
        SettingsOption::Back,
    ]
}

impl SettingsOption {
    /// The options, in the order shown.
    pub fn all() -> (r: Vec<SettingsOption>)
        ensures
            r@ == all_options(),
    {
        let mut v = Vec::new();
        v.push(SettingsOption::DownloadPath);
        v.push(SettingsOption::ParallelDownloads);
        v.push(SettingsOption::DebugMode);
        v.push(SettingsOption::Back);
        assert(v@ =~= all_options());
        v
    }

    /// The label of this option.
    pub fn label(&self) -> (r: &'static str)
        ensures
            r@ == option_label(*self),
    {
        match self {
            SettingsOption::DownloadPath => "📁 Download Path",
            SettingsOption::ParallelDownloads => "⚡ Parallel Downloads",
            SettingsOption::DebugMode => "🔧 Debug Mode",
            SettingsOption::Back => "← Back to Menu",
        }
    }
}

/// What the settings screen is doing.
#[derive(Debug, Clone, Copy, PartialEq, Eq, Structural)]
pub enum SettingsState {
    Menu,
    EditingPath,
    EditingParallel,
}

/// The settings screen.
pub struct SettingsScreen {
    pub state: SettingsState,
    pub options: Vec<SettingsOption>,
    pub selected: usize,
    pub config: Config,
    pub path_input: InputField,
    pub parallel_value: u8,
    pub status_message: Option<(String, bool)>,
}

/// `f` is the path field `old` holding `text`, with the cursor after it.
pub open spec fn path_field_holds(old: InputField, f: InputField, text: Seq<char>) -> bool {
    &&& f.label == old.label
    &&& f.is_active == old.is_active
    &&& f.value@ == text
    &&& f.cursor_position == f.bytes().len()
}

/// The fewest and most playlist items fetched at once.
pub open spec fn parallel_min() -> u8 {
    1
}

/// See `parallel_min`.
pub open spec fn parallel_max() -> u8 {
    10
}

/// The parallel-downloads value after a key while it is being edited:
/// Up or Right adds one, Down or Left takes one away, within 1 to 10.
pub open spec fn parallel_after(v: u8, key: Key) -> u8 {
    if key == Key::Up || key == Key::Right {
        if v < parallel_max() {
            (v + 1) as u8
        } else {
            v
        }
    } else if key == Key::Down || key == Key::Left {
        if v > parallel_min() {
            (v - 1) as u8
        } else {
            v
        }
    } else {
        v
    }
}

/// `r` is the screen as `new(config)` makes it.
pub open spec fn settings_fresh(r: SettingsScreen, config: Config) -> bool {
    &&& r.state == SettingsState::Menu
    &&& r.options@ == all_options()
    &&& r.selected == 0
    &&& r.config == config
    &&& r.path_input.label@ == "Enter download path:"@
    &&& r.path_input.is_active
    &&& r.path_input.value@ == config.download_path@
    &&& r.path_input.cursor_position == r.path_input.bytes().len()
    &&& r.parallel_value == 3
    &&& r.status_message is None
}

/// `b` is the screen `a` after `update_config(config)`.
pub open spec fn config_taken(a: SettingsScreen, b: SettingsScreen, config: Config) -> bool {
    &&& b == (SettingsScreen {
        config,
        path_input: b.path_input,
        parallel_value: config.parallel_downloads,
        ..a
    })
    &&& path_field_holds(a.path_input, b.path_input, config.download_path@)
}

/// `b` is the screen `a` after `handle_key(key)`.
pub open spec fn settings_stepped(a: SettingsScreen, b: SettingsScreen, key: Key) -> bool {
    &&& (a.state == SettingsState::Menu ==> b == (SettingsScreen { selected: b.selected, ..a })
        && b.selected == (if key == Key::Up {
        if a.selected == 0 {
            a.options@.len() - 1
        } else {
            a.selected - 1
        }
    } else if key == Key::Down {
        (a.selected + 1) % (a.options@.len() as int)
    } else {
        a.selected as int
    }))
    &&& (a.state == SettingsState::EditingPath && key == Key::Tab ==> b == a)
    &&& (a.state == SettingsState::EditingPath && key != Key::Tab ==> b == (SettingsScreen {
        path_input: b.path_input,
        ..a
    }) && widgets::input_stepped(a.path_input, b.path_input, key))
    &&& (a.state == SettingsState::EditingParallel ==> b == (SettingsScreen {
        parallel_value: parallel_after(a.parallel_value, key),
        ..a
    }))
}

/// Sets a field to `text` with the cursor after it.
fn set_field_text(f: &mut InputField, text: String)
    ensures
        path_field_holds(*old(f), *final(f), text@),
{
    let t = text.as_str();
    let n = t.as_bytes().len();
    assert(t.spec_bytes() == widgets::bytes_of(text@));
    f.value = text;
    f.cursor_position = n;
}

impl SettingsScreen {
    /// The screen showing the menu, with the path field holding the
    /// configured download path.
    pub fn new(config: Config) -> (r: Self)
        ensures
            settings_fresh(r, config),
    {
        let mut path_input = InputField::new("Enter download path:");
        set_field_text(&mut path_input, config.download_path.clone());
        SettingsScreen {
            state: SettingsState::Menu,
            options: SettingsOption::all(),
            selected: 0,
            config,
            path_input,
            parallel_value: 3,
            status_message: None,
        }
    }

    /// Back to the menu, with the first option selected and no message.
    pub fn reset(&mut self)
        ensures
            *final(self) == (SettingsScreen {
                state: SettingsState::Menu,
                selected: 0,
                status_message: None,
                ..*old(self)
            }),
    {
        self.state = SettingsState::Menu;
        self.selected = 0;
        self.status_message = None;
    }

    /// Takes new settings: the path field and the parallel value follow them.
    pub fn update_config(&mut self, config: Config)
        ensures
            config_taken(*old(self), *final(self), config),
    {
        let text = config.download_path.clone();
        self.parallel_value = config.parallel_downloads;
        self.config = config;
        set_field_text(&mut self.path_input, text);
    }

    /// The selected option.
    pub fn selected_option(&self) -> (r: SettingsOption)
        requires
            self.selected < self.options@.len(),
        ensures
            r == self.options@[self.selected as int],
    {
        self.options[self.selected]
    }

    /// Selects the next option, from the last back to the first.
    pub fn next(&mut self)
        requires
            old(self).options@.len() > 0,
            old(self).selected < usize::MAX,
        ensures
            *final(self) == (SettingsScreen { selected: final(self).selected, ..*old(self) }),
            final(self).selected == (old(self).selected + 1) % (old(self).options@.len() as int),
    {
        self.selected = (self.selected + 1) % self.options.len();
    }

    /// Selects the previous option, from the first round to the last.
    pub fn previous(&mut self)
        requires
            old(self).options@.len() > 0,
        ensures
            *final(self) == (SettingsScreen { selected: final(self).selected, ..*old(self) }),
            final(self).selected == (if old(self).selected == 0 {
                old(self).options@.len() - 1
            } else {
                old(self).selected - 1
            }),
    {
        self.selected = if self.selected == 0 {
            self.options.len() - 1
        } else {
            self.selected - 1
        };
    }

    /// The screen can take `key` without panicking.
    pub open spec fn accepts_key(&self, key: Key) -> bool {
        &&& self.state == SettingsState::Menu ==> (key == Key::Up || key == Key::Down
            ==> self.options@.len() > 0)
        &&& self.state == SettingsState::Menu && key == Key::Down ==> self.selected < usize::MAX
        &&& self.state == SettingsState::EditingPath && key != Key::Tab
            ==> self.path_input.accepts_key(key)
    }

    /// Whether the screen can take `key` without panicking.
    pub fn accepts(&self, key: Key) -> (r: bool)
        ensures
            r == self.accepts_key(key),
    {
        match self.state {
            SettingsState::Menu => {
                if key == Key::Up {
                    self.options.len() > 0
                } else if key == Key::Down {
                    self.options.len() > 0 && self.selected < usize::MAX
                } else {
                    true
                }
            },
            SettingsState::EditingPath => key == Key::Tab || self.path_input.accepts(key),
            SettingsState::EditingParallel => true,
        }
    }

    /// In the menu the arrows move the selection; while the path is edited
    /// keys edit it, and Tab asks for completion: the result is `true` then,
    /// and the caller lists the directory `completion_dir` names and hands
    /// the names of its subdirectories to `complete_path`. While the
    /// parallel value is edited the arrows change it within 1 to 10.
    pub fn handle_key(&mut self, key: Key) -> (r: bool)
        requires
            old(self).accepts_key(key),
        ensures
            r == (old(self).state == SettingsState::EditingPath && key == Key::Tab),
            settings_stepped(*old(self), *final(self), key),
    {
        match self.state {
            SettingsState::Menu => {
                if key == Key::Up {
                    self.previous();
                } else if key == Key::Down {
                    self.next();
                }
                false
            },
            SettingsState::EditingPath => {
                if key == Key::Tab {
                    true
                } else {
                    self.path_input.handle_key(key);
                    false
                }
            },
            SettingsState::EditingParallel => {
                if key == Key::Up || key == Key::Right {
                    if self.parallel_value < 10 {
                        self.parallel_value = self.parallel_value + 1;
                    }
                } else if key == Key::Down || key == Key::Left {
                    if self.parallel_value > 1 {
                        self.parallel_value = self.parallel_value - 1;
                    }
                }
                false
            },
        }
    }

    /// The directory to list when Tab is pressed in the path field, on a
    /// platform whose path separator is `sep`.
    pub fn completion_dir(&self, sep: char) -> (r: String)
        ensures
            r@ == completion_base(self.path_input.value@, sep).0,
    {
        completion_base_of(self.path_input.value.as_str(), sep).0
    }

    /// Completes the path field from `names`, the subdirectories of
    /// `completion_dir(sep)`: the field moves to the next offered directory
    /// and the cursor to its end; with none offered nothing changes.
    pub fn complete_path(&mut self, sep: char, names: Vec<String>)
        ensures
            ({
                let input = old(self).path_input.value@;
                let cur = completion_current(input);
                let prefix = completion_base(input, sep).1;
                let nv = strings_view(names@);
                &&& !has_offer(nv, cur, prefix) ==> *final(self) == *old(self)
                &&& has_offer(nv, cur, prefix) ==> *final(self) == (SettingsScreen {
                    path_input: final(self).path_input,
                    ..*old(self)
                }) && exists|x: Seq<char>|
                    completion_choice(nv, cur, prefix, x) && path_field_holds(
                        old(self).path_input,
                        final(self).path_input,
                        #[trigger] completed_path(input, sep, x),
                    )
            }),
    {
        let input = self.path_input.value.clone();
        let (dir, prefix) = completion_base_of(input.as_str(), sep);
        let cur = match crate::paths::path_file_name(input.as_str()) {
            Some(f) => f,
            None => String::new(),
        };
        let next = match next_completion_name(&names, cur.as_str(), prefix.as_str()) {
            Some(x) => x,
            None => {
                return ;
            },
        };
        proof {
            reveal_strlit(".");
            reveal_strlit("./");
        }
        let text = if crate::paths::paths_equal(dir.as_str(), ".") {
            if str_starts_with(input.as_str(), "./") {
                crate::text::concat("./", next.as_str())
            } else {
                next.clone()
            }
        } else {
            crate::paths::path_join(dir.as_str(), next.as_str())
        };
        assert(text@ == completed_path(input@, sep, next@));
        set_field_text(&mut self.path_input, text);
    }
}

/// While the parallel value is edited it stays within 1 to 10, and an
/// arrow up followed by an arrow down (or down, then up) gives back the
/// value unless it stood at the end that the first arrow pushed against.
pub proof fn law_parallel_stays_in_range(v: u8, key: Key)
    requires
        parallel_min() <= v <= parallel_max(),
    ensures
        parallel_min() <= parallel_after(v, key) <= parallel_max(),
        v < parallel_max() ==> parallel_after(parallel_after(v, Key::Up), Key::Down) == v,
        v > parallel_min() ==> parallel_after(parallel_after(v, Key::Down), Key::Up) == v,
{
}

/// Tab moves to a directory that was listed and offered; when the typed
/// name is listed once and some listed name comes after it, Tab moves
/// forward in text order; when the typed name is not listed, or is the
/// last listed, Tab moves to the first offered name.
pub proof fn law_completion_moves_forward(names: Seq<Seq<char>>, cur: Seq<char>, prefix: Seq<char>, x: Seq<char>)
    requires
        completion_choice(names, cur, prefix, x),
    ensures
        names.contains(x),
        offered(names, cur, prefix, x),
        names.contains(cur) && !occurs_twice(names, cur) && has_later(names, cur) ==> text_less(cur, x),
        !(names.contains(cur) && (occurs_twice(names, cur) || has_later(names, cur))) ==> forall|
            i: int,
        |
            0 <= i < names.len() && offered(names, cur, prefix, #[trigger] names[i]) ==> !text_less(
                names[i],
                x,
            ),
{
}

} // verus!
