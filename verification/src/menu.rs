//! The main menu.

use vstd::prelude::*;

verus! {

/// What the main menu offers.
#[derive(Debug, Clone, Copy, PartialEq, Eq, Structural)]
pub enum MenuAction {
    SearchDownload,
    DownloadVideo,
    DownloadAudio,
    DownloadPlaylist,
    DownloadThumbnail,
    WebInterface,
    Separator,
    Settings,
    Exit,
}

/// A line of the main menu.
pub struct MenuItem {
    pub icon: &'static str,
    pub label: &'static str,
    pub id: MenuAction,
    pub is_separator: bool,
}

/// The number of lines of the main menu.
pub open spec fn menu_len() -> int {
    9
}

/// The line of the menu that separates the downloads from the rest.
pub open spec fn separator_line() -> int {
    6
}

/// The action of each line of the main menu, top to bottom.
pub open spec fn action_at(i: int) -> MenuAction {
    if i == 0 {
        MenuAction::SearchDownload
    } else if i == 1 {
        MenuAction::DownloadVideo
    } else if i == 2 {
        MenuAction::DownloadAudio
    } else if i == 3 {
        MenuAction::DownloadPlaylist
    } else if i == 4 {
        MenuAction::DownloadThumbnail
    } else if i == 5 {
        MenuAction::WebInterface
    } else if i == 6 {
        MenuAction::Separator
    } else if i == 7 {
        MenuAction::Settings
    } else {
        MenuAction::Exit
    }
}

/// The label of each line of the main menu.
pub open spec fn label_at(i: int) -> Seq<char> {
    if i == 0 {
        "Search & Download"@
    } else if i == 1 {
        "Download Video (URL)"@
    } else if i == 2 {
        "Download Audio (URL)"@
    } else if i == 3 {
        "Download Playlist (URL)"@
    } else if i == 4 {
        "Download Thumbnail (URL)"@
    } else if i == 5 {
        "Launch Web Interface"@
    } else if i == 6 {
        "────────────────────────"@
    } else if i == 7 {
        "Settings"@
    } else {
        "Exit"@
    }
}

/// The icon of each line of the main menu.
pub open spec fn icon_at(i: int) -> Seq<char> {
    if i == 0 {
        "🔍"@
    } else if i == 1 {
        "🎬"@
    } else if i == 2 {
        "🎵"@
    } else if i == 3 {
        "📦"@
    } else if i == 4 {
        "🖼️"@
    } else if i == 5 {
        "🌐"@
    } else if i == 6 {
        " "@
    } else if i == 7 {
        "⚙️"@
    } else {
        "🚪"@
    }
}

/// The items are the lines of the main menu, in order.
pub open spec fn is_main_menu(items: Seq<MenuItem>) -> bool {
    &&& items.len() == menu_len()
    &&& forall|i: int|
        0 <= i < menu_len() ==> {
            &&& (#[trigger] items[i]).id == action_at(i)
            &&& items[i].is_separator == (i == separator_line())
            &&& items[i].label@ == label_at(i)
            &&& items[i].icon@ == icon_at(i)
        }
}

fn item(icon: &'static str, label: &'static str, id: MenuAction, is_separator: bool) -> (r: MenuItem)
    ensures
        r.icon == icon,
        r.label == label,
        r.id == id,
        r.is_separator == is_separator,
{
    MenuItem { icon, label, id, is_separator }
}

impl MenuAction {
    /// The lines of the main menu, top to bottom.
    pub fn all() -> (r: Vec<MenuItem>)
        ensures
            is_main_menu(r@),
    {
        let mut v: Vec<MenuItem> = Vec::new();
        v.push(item("🔍", "Search & Download", MenuAction::SearchDownload, false));
        v.push(item("🎬", "Download Video (URL)", MenuAction::DownloadVideo, false));
        v.push(item("🎵", "Download Audio (URL)", MenuAction::DownloadAudio, false));
        v.push(item("📦", "Download Playlist (URL)", MenuAction::DownloadPlaylist, false));
        v.push(item("🖼️", "Download Thumbnail (URL)", MenuAction::DownloadThumbnail, false));
        v.push(item("🌐", "Launch Web Interface", MenuAction::WebInterface, false));
        v.push(item(" ", "────────────────────────", MenuAction::Separator, true));
        v.push(item("⚙️", "Settings", MenuAction::Settings, false));
        v.push(item("🚪", "Exit", MenuAction::Exit, false));
        v
    }
}

/// The line below `i`, skipping the separator, from the last back to the first.
pub open spec fn menu_next(i: int) -> int {
    if (i + 1) % menu_len() == separator_line() {
        separator_line() + 1
    } else {
        (i + 1) % menu_len()
    }
}

/// The line above `i`, skipping the separator, from the first round to the last.
pub open spec fn menu_prev(i: int) -> int {
    let j = if i == 0 {
        menu_len() - 1
    } else {
        i - 1
    };
    if j == separator_line() {
        separator_line() - 1
    } else {
        j
    }
}

/// A line that can be selected: in the menu and not the separator.
pub open spec fn selectable(i: int) -> bool {
    0 <= i < menu_len() && i != separator_line()
}

/// Moving down or up from a selectable line selects a selectable line
/// (never the separator), and moving down then up, or up then down, comes
/// back to where it started.
pub proof fn law_menu_moves_undo(i: int)
    requires
        selectable(i),
    ensures
        selectable(menu_next(i)),
        selectable(menu_prev(i)),
        menu_prev(menu_next(i)) == i,
        menu_next(menu_prev(i)) == i,
{
}

/// The main menu: its lines, one of them (never the separator) selected.
pub struct MainMenu {
    items: Vec<MenuItem>,
    selected: usize,
}

impl MainMenu {
    #[verifier::type_invariant]
    spec fn inv(self) -> bool {
        &&& is_main_menu(self.items@)
        &&& self.selected < menu_len()
        &&& self.selected != separator_line()
    }

    /// The selected line.
    pub closed spec fn selection(self) -> int {
        self.selected as int
    }

    /// The menu with its first line selected.
    pub fn new() -> (r: Self)
        ensures
            r.selection() == 0,
    {
        MainMenu { items: MenuAction::all(), selected: 0 }
    }

    /// Selects the line below, skipping the separator.
    pub fn next(&mut self)
        ensures
            final(self).selection() == menu_next(old(self).selection()),
    {
        proof {
            use_type_invariant(&*self);
        }
        let len = self.items.len();
        let mut new_idx = (self.selected + 1) % len;
        while self.items[new_idx].is_separator
            invariant
                len == self.items@.len(),
                is_main_menu(self.items@),
                self.selected < menu_len(),
                self.selected != separator_line(),
                new_idx < len,
                new_idx == (self.selected + 1) % menu_len() || (new_idx == separator_line() + 1
                    && (self.selected + 1) % menu_len() == separator_line()),
            decreases (if new_idx == separator_line() {
                1int
            } else {
                0int
            }),
        {
            assert(self.items@[new_idx as int].is_separator);
            new_idx = (new_idx + 1) % len;
        }
        assert(!self.items@[new_idx as int].is_separator);
        self.selected = new_idx;
    }

    /// Selects the line above, skipping the separator.
    pub fn previous(&mut self)
        ensures
            final(self).selection() == menu_prev(old(self).selection()),
    {
        proof {
            use_type_invariant(&*self);
        }
        let len = self.items.len();
        let mut new_idx = if self.selected == 0 {
            len - 1
        } else {
            self.selected - 1
        };
        let ghost first = new_idx;
        while self.items[new_idx].is_separator
            invariant
                len == self.items@.len(),
                is_main_menu(self.items@),
                self.selected < menu_len(),
                self.selected != separator_line(),
                new_idx < len,
                first == (if self.selected == 0 {
                    menu_len() - 1
                } else {
                    self.selected - 1
                }),
                new_idx == first || (new_idx == separator_line() - 1 && first == separator_line()),
            decreases (if new_idx == separator_line() {
                1int
            } else {
                0int
            }),
        {
            assert(self.items@[new_idx as int].is_separator);
            new_idx = if new_idx == 0 {
                len - 1
            } else {
                new_idx - 1
            };
        }
        assert(!self.items@[new_idx as int].is_separator);
        self.selected = new_idx;
    }

    /// The action of the selected line.
    pub fn selected_action(&self) -> (r: MenuAction)
        ensures
            r == action_at(self.selection()),
    {
        proof {
            use_type_invariant(self);
        }
        self.items[self.selected].id
    }

    /// The lines of the menu.
    pub fn items(&self) -> (r: &Vec<MenuItem>)
        ensures
            is_main_menu(r@),
    {
        proof {
            use_type_invariant(self);
        }
        &self.items
    }

    /// The selected line.
    pub fn selected_index(&self) -> (r: usize)
        ensures
            r == self.selection(),
            r < menu_len(),
            r != separator_line(),
    {
        proof {
            use_type_invariant(self);
        }
        self.selected
    }
}

impl Default for MainMenu {
    /// The menu with its first line selected.
    fn default() -> (r: Self)
        ensures
            r.selection() == 0,
    {
        Self::new()
    }
}

} // verus!
