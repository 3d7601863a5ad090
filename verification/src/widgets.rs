//! The state of the widgets that the screens are made of: text input,
//! selection lists, progress bars and spinners.

use vstd::prelude::*;
use vstd::string::StringSliceAdditionalSpecFns;

verus! {

/// A key that the screens react to.
#[derive(Debug, Clone, Copy, PartialEq, Eq, Structural)]
pub enum Key {
    Char(char),
    Up,
    Down,
    Left,
    Right,
    Enter,
    Esc,
    Backspace,
    Delete,
    Home,
    End,
    Tab,
    Other,
}

/// The UTF-8 bytes of a text.
pub open spec fn bytes_of(s: Seq<char>) -> Seq<u8> {
    vstd::utf8::encode_utf8(s)
}

/// `b` with the character that starts at byte `i` removed.
pub open spec fn remove_char_at(b: Seq<u8>, i: int) -> Seq<u8> {
    b.take(i) + b.skip(i + vstd::utf8::length_of_first_scalar(b.skip(i)))
}

/// `String::insert`: puts `c` into `s` at the byte position `idx`, which
/// must lie on a character boundary (else it panics). The contract claims
/// the bytes of the result: the bytes before `idx`, those of `c`, the rest.
#[verifier::external_body]
pub(crate) fn string_insert(s: &mut String, idx: usize, c: char)
    requires
        vstd::utf8::is_char_boundary(bytes_of(old(s)@), idx as int),
    ensures
        bytes_of(final(s)@) == bytes_of(old(s)@).take(idx as int) + bytes_of(seq![c]) + bytes_of(
            old(s)@,
        ).skip(idx as int),
{
    s.insert(idx, c);
}

/// `String::remove`: takes the character that starts at the byte position
/// `idx` out of `s`; `idx` must lie on a character boundary before the end
/// (else it panics). The contract claims the bytes of the result.
#[verifier::external_body]
pub(crate) fn string_remove(s: &mut String, idx: usize)
    requires
        idx < bytes_of(old(s)@).len(),
        vstd::utf8::is_char_boundary(bytes_of(old(s)@), idx as int),
    ensures
        bytes_of(final(s)@) == remove_char_at(bytes_of(old(s)@), idx as int),
{
    s.remove(idx);
}

/// A text input field. The cursor is a byte position in the value.
pub struct InputField {
    pub label: String,
    pub value: String,
    pub cursor_position: usize,
    pub is_active: bool,
}

/// The keys that an input field can take without panicking: a character
/// is put in, and a character taken out, only at a character boundary.
pub open spec fn edit_allowed(b: Seq<u8>, cur: usize, key: Key) -> bool {
    match key {
        Key::Char(_) => vstd::utf8::is_char_boundary(b, cur as int) && cur < usize::MAX,
        Key::Backspace => cur > 0 ==> (cur - 1 < b.len() && vstd::utf8::is_char_boundary(
            b,
            cur - 1,
        )),
        Key::Delete => cur < b.len() ==> vstd::utf8::is_char_boundary(b, cur as int),
        _ => true,
    }
}

/// The bytes of the value after a key.
pub open spec fn edit_bytes(b: Seq<u8>, cur: int, key: Key) -> Seq<u8> {
    match key {
        Key::Char(c) => b.take(cur) + bytes_of(seq![c]) + b.skip(cur),
        Key::Backspace => if cur > 0 {
            remove_char_at(b, cur - 1)
        } else {
            b
        },
        Key::Delete => if cur < b.len() {
            remove_char_at(b, cur)
        } else {
            b
        },
        _ => b,
    }
}

/// The cursor after a key.
pub open spec fn edit_cursor(b: Seq<u8>, cur: int, key: Key) -> int {
    match key {
        Key::Char(_) => cur + 1,
        Key::Backspace => if cur > 0 {
            cur - 1
        } else {
            cur
        },
        Key::Left => if cur > 0 {
            cur - 1
        } else {
            cur
        },
        Key::Right => if cur < b.len() {
            cur + 1
        } else {
            cur
        },
        Key::Home => 0,
        Key::End => b.len() as int,
        _ => cur,
    }
}

/// `b` is the field `a` after the key.
pub open spec fn input_stepped(a: InputField, b: InputField, key: Key) -> bool {
    &&& b.label == a.label
    &&& b.is_active == a.is_active
    &&& b.bytes() == edit_bytes(a.bytes(), a.cursor_position as int, key)
    &&& b.cursor_position == edit_cursor(a.bytes(), a.cursor_position as int, key)
}

/// `b` is the field `a` emptied.
pub open spec fn input_cleared(a: InputField, b: InputField) -> bool {
    &&& b.label == a.label
    &&& b.is_active == a.is_active
    &&& b.value@ == Seq::<char>::empty()
    &&& b.cursor_position == 0
}

/// `f` is a new, empty, active field labelled `label`.
pub open spec fn input_fresh(f: InputField, label: Seq<char>) -> bool {
    &&& f.label@ == label
    &&& f.value@ == Seq::<char>::empty()
    &&& f.cursor_position == 0
    &&& f.is_active
}

impl InputField {
    /// The bytes of the value.
    pub open spec fn bytes(&self) -> Seq<u8> {
        bytes_of(self.value@)
    }

    /// An empty, active field labelled `label`.
    pub fn new(label: &str) -> (r: Self)
        ensures
            input_fresh(r, label@),
    {
        InputField {
            label: label.to_owned(),
            value: String::new(),
            cursor_position: 0,
            is_active: true,
        }
    }

    /// The field can take `key` without panicking.
    pub open spec fn accepts_key(&self, key: Key) -> bool {
        edit_allowed(self.bytes(), self.cursor_position, key)
    }

    /// Whether the field can take `key` without panicking.
    pub fn accepts(&self, key: Key) -> (r: bool)
        ensures
            r == self.accepts_key(key),
    {
        let s = self.value.as_str();
        let n = s.as_bytes().len();
        let cur = self.cursor_position;
        assert(s.spec_bytes() == self.bytes());
        match key {
            Key::Char(_) => s.is_char_boundary(cur) && cur < usize::MAX,
            Key::Backspace => cur == 0 || (cur - 1 < n && s.is_char_boundary(cur - 1)),
            Key::Delete => cur >= n || s.is_char_boundary(cur),
            _ => true,
        }
    }

    /// Edits the value or moves the cursor: characters go in at the cursor,
    /// Backspace and Delete take out the character before or at the cursor,
    /// the arrows, Home and End move the cursor; other keys do nothing.
    pub fn handle_key(&mut self, key: Key)
        requires
            old(self).accepts_key(key),
        ensures
            input_stepped(*old(self), *final(self), key),
    {
        let n = self.value.as_str().as_bytes().len();
        match key {
            Key::Char(c) => {
                string_insert(&mut self.value, self.cursor_position, c);
                self.cursor_position = self.cursor_position + 1;
            },
            Key::Backspace => {
                if self.cursor_position > 0 {
                    self.cursor_position = self.cursor_position - 1;
                    string_remove(&mut self.value, self.cursor_position);
                }
            },
            Key::Delete => {
                if self.cursor_position < n {
                    string_remove(&mut self.value, self.cursor_position);
                }
            },
            Key::Left => {
                if self.cursor_position > 0 {
                    self.cursor_position = self.cursor_position - 1;
                }
            },
            Key::Right => {
                if self.cursor_position < n {
                    self.cursor_position = self.cursor_position + 1;
                }
            },
            Key::Home => {
                self.cursor_position = 0;
            },
            Key::End => {
                self.cursor_position = n;
            },
            _ => {},
        }
    }

    /// Empties the field.
    pub fn clear(&mut self)
        ensures
            input_cleared(*old(self), *final(self)),
    {
        self.value = String::new();
        self.cursor_position = 0;
    }
}

/// `b` is the list `a` with the next item selected.
pub open spec fn list_next<T>(a: SelectionList<T>, b: SelectionList<T>) -> bool {
    &&& b.items@ == a.items@
    &&& b.title == a.title
    &&& b.selected == (if a.items@.len() == 0 {
        a.selected as int
    } else {
        (a.selected + 1) % (a.items@.len() as int)
    })
}

/// `b` is the list `a` with the previous item selected.
pub open spec fn list_prev<T>(a: SelectionList<T>, b: SelectionList<T>) -> bool {
    &&& b.items@ == a.items@
    &&& b.title == a.title
    &&& b.selected == (if a.items@.len() == 0 {
        a.selected as int
    } else if a.selected == 0 {
        a.items@.len() - 1
    } else {
        a.selected - 1
    })
}

/// `l` is a new, empty list titled `title`.
pub open spec fn list_fresh<T>(l: SelectionList<T>, title: Seq<char>) -> bool {
    &&& l.items@.len() == 0
    &&& l.selected == 0
    &&& l.title@ == title
}

/// A list of labelled items, one of them selected.
pub struct SelectionList<T> {
    pub items: Vec<(String, T)>,
    pub selected: usize,
    pub title: String,
}

impl<T> SelectionList<T> {
    /// An empty list titled `title`.
    pub fn new(title: &str) -> (r: Self)
        ensures
            list_fresh(r, title@),
    {
        SelectionList { items: Vec::new(), selected: 0, title: title.to_owned() }
    }

    /// Replaces the items and selects the first.
    pub fn set_items(&mut self, items: Vec<(String, T)>)
        ensures
            final(self).items == items,
            final(self).selected == 0,
            final(self).title == old(self).title,
    {
        self.items = items;
        self.selected = 0;
    }

    /// Selects the next item, from the last back to the first.
    pub fn next(&mut self)
        requires
            old(self).selected < usize::MAX,
        ensures
            list_next(*old(self), *final(self)),
    {
        if self.items.len() > 0 {
            self.selected = (self.selected + 1) % self.items.len();
        }
    }

    /// Selects the previous item, from the first round to the last.
    pub fn previous(&mut self)
        ensures
            list_prev(*old(self), *final(self)),
    {
        if self.items.len() > 0 {
            self.selected = if self.selected == 0 {
                self.items.len() - 1
            } else {
                self.selected - 1
            };
        }
    }

    /// The selected item, if the selection lies in the list.
    pub fn selected_item(&self) -> (r: Option<&T>)
        ensures
            r == (if self.selected < self.items@.len() {
                Some(&self.items@[self.selected as int].1)
            } else {
                None
            }),
    {
        if self.selected < self.items.len() {
            Some(&self.items[self.selected].1)
        } else {
            None
        }
    }

    /// Drops all items.
    pub fn clear_items(&mut self)
        ensures
            final(self).items@.len() == 0,
            final(self).selected == old(self).selected,
            final(self).title == old(self).title,
    {
        self.items = Vec::new();
    }
}

/// The most a progress bar shows: 100 %, in hundredths of a percent.
pub open spec fn full_progress() -> u32 {
    10000
}

/// `p` is a new, empty bar labelled `label`.
pub open spec fn progress_fresh(p: ProgressBar, label: Seq<char>) -> bool {
    &&& p.progress == 0
    &&& p.label@ == label
    &&& p.status@ == Seq::<char>::empty()
}

/// `s` is a new spinner.
pub open spec fn spinner_fresh(s: Spinner) -> bool {
    &&& s.frames@.len() == 10
    &&& s.current_frame == 0
}

/// A progress bar. The progress is held in hundredths of a percent.
pub struct ProgressBar {
    pub progress: u32,
    pub label: String,
    pub status: String,
}

impl ProgressBar {
    /// An empty bar labelled `label`.
    pub fn new(label: &str) -> (r: Self)
        ensures
            progress_fresh(r, label@),
    {
        ProgressBar { progress: 0, label: label.to_owned(), status: String::new() }
    }

    /// Sets the progress, capped at 100 %.
    pub fn set_progress(&mut self, progress: u32)
        ensures
            final(self).progress == (if progress > full_progress() {
                full_progress()
            } else {
                progress
            }),
            final(self).label == old(self).label,
            final(self).status == old(self).status,
    {
        self.progress = if progress > 10000 {
            10000
        } else {
            progress
        };
    }
}

/// A spinner that turns one frame per tick.
pub struct Spinner {
    pub frames: Vec<&'static str>,
    pub current_frame: usize,
}

impl Spinner {
    /// A spinner of ten frames, at the first.
    pub fn new() -> (r: Self)
        ensures
            spinner_fresh(r),
    {
        let mut frames: Vec<&'static str> = Vec::new();
        frames.push("⠋");
        frames.push("⠙");
        frames.push("⠹");
        frames.push("⠸");
        frames.push("⠼");
        frames.push("⠴");
        frames.push("⠦");
        frames.push("⠧");
        frames.push("⠇");
        frames.push("⠏");
        Spinner { frames, current_frame: 0 }
    }

    /// Turns to the next frame, from the last back to the first.
    pub fn tick(&mut self)
        requires
            old(self).frames@.len() > 0,
            old(self).current_frame < usize::MAX,
        ensures
            final(self).frames@ == old(self).frames@,
            final(self).current_frame == (old(self).current_frame + 1) % (old(
                self,
            ).frames@.len() as int),
    {
        self.current_frame = (self.current_frame + 1) % self.frames.len();
    }
}

/// On a list with items, moving down then up, or up then down, comes back
/// to the item it started at; the selection stays on an item.
pub proof fn law_list_moves_undo<T>(
    a: SelectionList<T>,
    b: SelectionList<T>,
    c: SelectionList<T>,
    d: SelectionList<T>,
    e: SelectionList<T>,
)
    requires
        a.items@.len() > 0,
        a.selected < a.items@.len(),
        list_next(a, b),
        list_prev(b, c),
        list_prev(a, d),
        list_next(d, e),
    ensures
        b.selected < b.items@.len(),
        d.selected < d.items@.len(),
        c.selected == a.selected && c.items@ == a.items@ && c.title == a.title,
        e.selected == a.selected && e.items@ == a.items@ && e.title == a.title,
{
    let n = a.items@.len();
    if a.selected + 1 < n {
        vstd::arithmetic::div_mod::lemma_small_mod((a.selected + 1) as nat, n);
    } else {
        vstd::arithmetic::div_mod::lemma_mod_self_0(n as int);
    }
    if a.selected == 0 {
        vstd::arithmetic::div_mod::lemma_mod_self_0(n as int);
    } else {
        vstd::arithmetic::div_mod::lemma_small_mod(a.selected as nat, n);
    }
}

/// Typing a character and then Backspace leaves the field as it was.
pub proof fn law_type_then_backspace(a: InputField, b: InputField, c: InputField, ch: char)
    requires
        a.accepts_key(Key::Char(ch)),
        input_stepped(a, b, Key::Char(ch)),
        input_stepped(b, c, Key::Backspace),
    ensures
        a.accepts_key(Key::Char(ch)),
        b.accepts_key(Key::Backspace),
        c.value@ == a.value@,
        c.cursor_position == a.cursor_position,
        c.label == a.label,
        c.is_active == a.is_active,
{
    let bytes = a.bytes();
    let cur = a.cursor_position as int;
    let enc = bytes_of(seq![ch]);
    vstd::utf8::encode_utf8_valid_utf8(a.value@);
    assert(0 <= cur <= bytes.len());
    vstd::utf8::encode_utf8_first_scalar(seq![ch]);
    assert(enc.len() > 0);
    let mid = b.bytes();
    assert(mid == bytes.take(cur) + enc + bytes.skip(cur));
    assert(mid.skip(cur)[0] == enc[0]);
    assert(mid[cur] == enc[0]);
    vstd::utf8::encode_utf8_valid_utf8(b.value@);
    vstd::utf8::encode_utf8_valid_utf8(seq![ch]);
    vstd::utf8::is_char_boundary_start_end_of_seq(enc);
    vstd::utf8::is_char_boundary_iff_not_is_continuation_byte(enc, 0);
    vstd::utf8::is_char_boundary_iff_not_is_continuation_byte(mid, cur);
    assert(vstd::utf8::is_char_boundary(mid, cur));
    assert(vstd::utf8::length_of_first_scalar(mid.skip(cur)) == vstd::utf8::length_of_first_scalar(
        enc,
    ));
    assert(seq![ch].drop_first() =~= Seq::<char>::empty());
    assert(enc =~= vstd::utf8::encode_scalar(ch as u32)) by {
        reveal_with_fuel(vstd::utf8::encode_utf8, 2);
        assert(seq![ch][0] == ch);
    }
    assert(vstd::utf8::length_of_first_scalar(mid.skip(cur)) == enc.len());
    assert(mid.take(cur) =~= bytes.take(cur));
    assert(mid.skip(cur + enc.len()) =~= bytes.skip(cur));
    assert(bytes.take(cur) + bytes.skip(cur) =~= bytes);
    assert(remove_char_at(mid, cur) =~= bytes);
    assert(c.bytes() == bytes);
    vstd::utf8::encode_utf8_decode_utf8(c.value@);
    vstd::utf8::encode_utf8_decode_utf8(a.value@);
}

/// Every character of `s` is ASCII.
pub open spec fn is_ascii_text(s: Seq<char>) -> bool {
    forall|i: int| 0 <= i < s.len() ==> (#[trigger] s[i] as u32) <= 0x7f
}

/// The bytes of ASCII text: one per character, none above 0x7f.
proof fn lemma_ascii_bytes(s: Seq<char>)
    requires
        is_ascii_text(s),
    ensures
        bytes_of(s).len() == s.len(),
        forall|i: int| 0 <= i < s.len() ==> #[trigger] bytes_of(s)[i] <= 0x7f,
    decreases s.len(),
{
    if s.len() > 0 {
        let x = s[0] as u32;
        assert(x <= 0x7f);
        assert(((x & 0x7Fu32) as u8) <= 0x7Fu8) by (bit_vector);
        assert forall|i: int| 0 <= i < s.drop_first().len() implies (#[trigger] s.drop_first()[i]
            as u32) <= 0x7f by {
            assert(s.drop_first()[i] == s[i + 1]);
        }
        lemma_ascii_bytes(s.drop_first());
        let e = vstd::utf8::encode_scalar(x);
        assert(e =~= seq![vstd::utf8::leading_byte_width_1(x)]);
        assert forall|i: int| 0 <= i < s.len() implies #[trigger] bytes_of(s)[i] <= 0x7f by {
            if i > 0 {
                assert(bytes_of(s)[i] == bytes_of(s.drop_first())[i - 1]);
            }
        }
    }
}

/// The bytes of joined texts are the joined bytes.
proof fn lemma_bytes_concat(x: Seq<char>, y: Seq<char>)
    ensures
        bytes_of(x + y) == bytes_of(x) + bytes_of(y),
    decreases x.len(),
{
    if x.len() == 0 {
        assert(x + y =~= y);
        assert(bytes_of(x) =~= Seq::<u8>::empty());
        assert(bytes_of(x) + bytes_of(y) =~= bytes_of(y));
    } else {
        assert((x + y)[0] == x[0]);
        assert((x + y).drop_first() =~= x.drop_first() + y);
        lemma_bytes_concat(x.drop_first(), y);
        assert(bytes_of(x + y) =~= bytes_of(x) + bytes_of(y));
    }
}

/// In ASCII text, splitting the characters at `i` splits the bytes at `i`.
proof fn lemma_ascii_split(s: Seq<char>, i: int)
    requires
        is_ascii_text(s),
        0 <= i <= s.len(),
    ensures
        bytes_of(s).take(i) == bytes_of(s.take(i)),
        bytes_of(s).skip(i) == bytes_of(s.skip(i)),
{
    assert(s =~= s.take(i) + s.skip(i));
    lemma_bytes_concat(s.take(i), s.skip(i));
    assert forall|k: int| 0 <= k < s.take(i).len() implies (#[trigger] s.take(i)[k] as u32)
        <= 0x7f by {
        assert(s.take(i)[k] == s[k]);
    }
    lemma_ascii_bytes(s.take(i));
    assert(bytes_of(s).take(i) =~= bytes_of(s.take(i)));
    assert(bytes_of(s).skip(i) =~= bytes_of(s.skip(i)));
}

/// In ASCII text every position is a character boundary, and every
/// character is one byte.
proof fn lemma_ascii_boundaries(s: Seq<char>, i: int)
    requires
        is_ascii_text(s),
        0 <= i <= s.len(),
    ensures
        vstd::utf8::is_char_boundary(bytes_of(s), i),
        i < s.len() ==> vstd::utf8::length_of_first_scalar(bytes_of(s).skip(i)) == 1,
{
    lemma_ascii_bytes(s);
    vstd::utf8::encode_utf8_valid_utf8(s);
    if i == s.len() {
        vstd::utf8::is_char_boundary_start_end_of_seq(bytes_of(s));
    } else {
        assert(bytes_of(s)[i] <= 0x7f);
        vstd::utf8::is_char_boundary_iff_not_is_continuation_byte(bytes_of(s), i);
        assert(bytes_of(s).skip(i)[0] == bytes_of(s)[i]);
    }
}

/// Texts with the same bytes are the same text.
proof fn lemma_same_bytes(x: Seq<char>, y: Seq<char>)
    requires
        bytes_of(x) == bytes_of(y),
    ensures
        x == y,
{
    vstd::utf8::encode_utf8_decode_utf8(x);
    vstd::utf8::encode_utf8_decode_utf8(y);
}

/// The value after a key, for ASCII text, in characters.
pub open spec fn ascii_edit(v: Seq<char>, cur: int, key: Key) -> Seq<char> {
    match key {
        Key::Char(c) => v.take(cur) + seq![c] + v.skip(cur),
        Key::Backspace => if cur > 0 {
            v.take(cur - 1) + v.skip(cur)
        } else {
            v
        },
        Key::Delete => if cur < v.len() {
            v.take(cur) + v.skip(cur + 1)
        } else {
            v
        },
        _ => v,
    }
}

/// On an ASCII field whose cursor lies within the value, an ASCII
/// character or any other key is taken without panicking; the value stays
/// ASCII and the cursor within it; characters go in and out at the cursor;
/// the arrows, Home and End move only the cursor (Home to the start, End to
/// the end); other keys change nothing; the label and the active flag never
/// change.
pub proof fn law_ascii_field_kept(a: InputField, b: InputField, key: Key)
    requires
        is_ascii_text(a.value@),
        a.cursor_position <= a.value@.len(),
        key matches Key::Char(c) ==> (c as u32) <= 0x7f && a.cursor_position < usize::MAX,
        input_stepped(a, b, key),
    ensures
        a.accepts_key(key),
        is_ascii_text(b.value@),
        b.cursor_position <= b.value@.len(),
        b.value@ == ascii_edit(a.value@, a.cursor_position as int, key),
        b.label == a.label,
        b.is_active == a.is_active,
        key == Key::Left || key == Key::Right || key == Key::Home || key == Key::End ==> b.value@
            == a.value@,
        key == Key::Home ==> b.cursor_position == 0,
        key == Key::End ==> b.cursor_position == b.value@.len(),
        !(key is Char || key == Key::Backspace || key == Key::Delete || key == Key::Left || key
            == Key::Right || key == Key::Home || key == Key::End) ==> b.value@ == a.value@
            && b.cursor_position == a.cursor_position,
{
    let v = a.value@;
    let n = v.len() as int;
    let cur = a.cursor_position as int;
    lemma_ascii_bytes(v);
    lemma_ascii_boundaries(v, cur);
    if cur > 0 {
        lemma_ascii_boundaries(v, cur - 1);
    }
    let t = ascii_edit(v, cur, key);
    match key {
        Key::Char(c) => {
            lemma_ascii_split(v, cur);
            lemma_bytes_concat(v.take(cur), seq![c]);
            lemma_bytes_concat(v.take(cur) + seq![c], v.skip(cur));
        },
        Key::Backspace => {
            if cur > 0 {
                lemma_ascii_split(v, cur - 1);
                lemma_ascii_split(v, cur);
                lemma_bytes_concat(v.take(cur - 1), v.skip(cur));
                assert(v.skip(cur - 1).skip(1) =~= v.skip(cur));
                assert(bytes_of(v).skip(cur - 1 + 1) =~= bytes_of(v).skip(cur));
            }
        },
        Key::Delete => {
            if cur < n {
                lemma_ascii_split(v, cur);
                lemma_ascii_split(v, cur + 1);
                lemma_bytes_concat(v.take(cur), v.skip(cur + 1));
            }
        },
        _ => {},
    }
    assert(bytes_of(t) == b.bytes());
    lemma_same_bytes(b.value@, t);
    assert forall|i: int| 0 <= i < t.len() implies (#[trigger] t[i] as u32) <= 0x7f by {
        match key {
            Key::Char(c) => {
                if i < cur {
                    assert(t[i] == v[i]);
                } else if i > cur {
                    assert(t[i] == v[i - 1]);
                }
            },
            Key::Backspace => {
                if cur > 0 {
                    if i < cur - 1 {
                        assert(t[i] == v[i]);
                    } else {
                        assert(t[i] == v[i + 1]);
                    }
                }
            },
            Key::Delete => {
                if cur < n {
                    if i < cur {
                        assert(t[i] == v[i]);
                    } else {
                        assert(t[i] == v[i + 1]);
                    }
                }
            },
            _ => {},
        }
    }
}

/// On an ASCII field whose cursor lies within the value, every key that is
/// not a non-ASCII character is taken without panicking (a character while
/// the cursor is below the largest `usize`): `handle_key` may be called
/// with it.
pub proof fn law_ascii_key_accepted(a: InputField, key: Key)
    requires
        is_ascii_text(a.value@),
        a.cursor_position <= a.value@.len(),
        key matches Key::Char(c) ==> (c as u32) <= 0x7f && a.cursor_position < usize::MAX,
    ensures
        a.accepts_key(key),
{
    let cur = a.cursor_position as int;
    lemma_ascii_bytes(a.value@);
    lemma_ascii_boundaries(a.value@, cur);
    if cur > 0 {
        lemma_ascii_boundaries(a.value@, cur - 1);
    }
}

/// On an ASCII field whose cursor lies within the value, an ASCII
/// character is taken, then Backspace is taken, and the two give back the
/// value and the cursor.
pub proof fn law_ascii_type_then_backspace(a: InputField, b: InputField, c: InputField, ch: char)
    requires
        is_ascii_text(a.value@),
        a.cursor_position <= a.value@.len(),
        a.cursor_position < usize::MAX,
        (ch as u32) <= 0x7f,
        input_stepped(a, b, Key::Char(ch)),
        input_stepped(b, c, Key::Backspace),
    ensures
        a.accepts_key(Key::Char(ch)),
        b.accepts_key(Key::Backspace),
        c.value@ == a.value@,
        c.cursor_position == a.cursor_position,
{
    law_ascii_field_kept(a, b, Key::Char(ch));
    law_ascii_key_accepted(b, Key::Backspace);
    law_type_then_backspace(a, b, c, ch);
}

} // verus!
