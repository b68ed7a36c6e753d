//! The state of the login form, with the animation behind it.

use vstd::prelude::*;
use vstd::string::StringSliceAdditionalSpecFns;
use vstd::utf8::encode_utf8;
use crate::animation::{Animation, Drain, ReadOutcome, Rect};
use crate::decoder::parser_events;
use crate::utils::{byte_len, can_cut, last_n_chars, tail_bytes};

verus! {

/// `String::push`: the character is appended to the text.
pub assume_specification[ String::push ](text: &mut String, ch: char)
    ensures
        final(text)@ == old(text)@.push(ch),
;

/// `String::pop`: the last character leaves the text and is returned; an
/// empty text stays empty and gives `None`.
pub assume_specification[ String::pop ](text: &mut String) -> (ch: Option<char>)
    ensures
        old(text)@.len() == 0 ==> ch is None && final(text)@ == old(text)@,
        old(text)@.len() > 0 ==> ch == Some(old(text)@.last()) && final(text)@ == old(
            text,
        )@.drop_last(),
;

/// `String::clear`: the text is empty afterwards.
pub assume_specification[ String::clear ](text: &mut String)
    ensures
        final(text)@ == Seq::<char>::empty(),
;

/// A key press, as far as the form tells keys apart.
#[derive(Debug, PartialEq, Eq, Clone, Copy)]
pub enum Key {
    Esc,
    Tab,
    Char(char),
    Backspace,
    Enter,
    Other,
}

/// What the event loop is to do after a key press.
#[derive(Debug, PartialEq, Eq, Clone, Copy)]
pub enum KeyAction {
    /// Leave the event loop.
    Quit,
    /// Go on with this turn of the loop: tick and redraw.
    Continue,
    /// Drop the rest of this turn of the loop.
    Skip,
    /// Check the credentials and report the result with `on_authenticated`.
    Authenticate,
}

/// The field of the form that takes the keys.
#[derive(Debug, PartialEq, Eq, Clone, Copy)]
pub enum ActiveField {
    Username,
    Password,
}

/// What changes from one turn of the event loop to the next.
pub struct App {
    pub username: String,
    pub password: String,
    pub active_field: ActiveField,
    pub animation: Option<Animation>,
}

/// How many bytes of a text of `len` bytes a field of the given width shows:
/// the border takes two cells.
pub open spec fn shown_len(len: usize, field_width: u16) -> int {
    if len <= field_width - 2 {
        len as int
    } else {
        field_width - 2
    }
}

/// Where the terminal's cursor goes in a field at `area` that holds `len`
/// bytes: behind the text, one cell in from the border, if the field has
/// room for it and the position is one that the frame can have.
pub open spec fn cursor_in_field(area: Rect, len: usize) -> Option<(u16, u16)> {
    if (len == 0 || area.width > len + 1) && area.x + len + 1 <= u16::MAX && area.y + 1
        <= u16::MAX {
        Some(((area.x + len + 1) as u16, (area.y + 1) as u16))
    } else {
        None
    }
}

/// The cursor's position in a field, if it is to be shown there.
pub fn field_cursor(area: Rect, len: usize) -> (position: Option<(u16, u16)>)
    ensures
        position == cursor_in_field(area, len),
{
    if len != 0 && (len >= u16::MAX as usize || area.width as usize <= len + 1) {
        return None;
    }
    let offset: u16 = len as u16 + 1;
    match (area.x.checked_add(offset), area.y.checked_add(1)) {
        (Some(x), Some(y)) => Some((x, y)),
        _ => None,
    }
}

/// As many asterisks as `count` where the password is to be hinted at, none otherwise.
pub fn password_mask(show_password: bool, count: usize) -> (mask: String)
    ensures
        mask@ == if show_password {
            Seq::new(count as nat, |i: int| '*')
        } else {
            Seq::<char>::empty()
        },
{
    let mut mask = String::new();
    if show_password {
        let mut i: usize = 0;
        while i < count
            invariant
                i <= count,
                mask@ == Seq::new(i as nat, |k: int| '*'),
            decreases count - i,
        {
            mask.push('*');
            i += 1;
        }
    }
    mask
}

impl App {
    /// Whether the animation, where there is one, meets its invariant.
    pub open spec fn wf(&self) -> bool {
        self.animation matches Some(animation) ==> animation.wf()
    }

    /// An empty form without an animation, the user name first.
    pub fn new() -> (app: App)
        ensures
            app.wf(),
            app.username@ == Seq::<char>::empty(),
            app.password@ == Seq::<char>::empty(),
            app.active_field == ActiveField::Username,
            app.animation is None,
    {
        App {
            username: String::new(),
            password: String::new(),
            active_field: ActiveField::Username,
            animation: None,
        }
    }

    /// The text of the field that takes the keys.
    pub open spec fn active_text(&self) -> Seq<char> {
        match self.active_field {
            ActiveField::Username => self.username@,
            ActiveField::Password => self.password@,
        }
    }

    /// The form with `text` in the field that takes the keys.
    pub open spec fn has_active_text(&self, before: &App, text: Seq<char>) -> bool {
        &&& self.active_field == before.active_field
        &&& self.animation == before.animation
        &&& match before.active_field {
            ActiveField::Username => self.username@ == text && self.password == before.password,
            ActiveField::Password => self.password@ == text && self.username == before.username,
        }
    }

    /// What a key asks of the event loop. `login` says whether a real login
    /// is going on; without one, Enter on a filled form ends the program.
    pub open spec fn key_action(&self, key: Key, login: bool) -> KeyAction {
        match key {
            Key::Esc => KeyAction::Quit,
            Key::Enter => if self.username@.len() == 0 || self.password@.len() == 0 {
                KeyAction::Skip
            } else if login {
                KeyAction::Authenticate
            } else {
                KeyAction::Quit
            },
            _ => KeyAction::Continue,
        }
    }

    /// Takes a key press: Tab changes the field, a character is appended to
    /// the active field, Backspace removes its last character; Esc, Enter and
    /// every other key leave the form as it is.
    pub fn on_key(&mut self, key: Key, login: bool) -> (action: KeyAction)
        ensures
            action == old(self).key_action(key, login),
            match key {
                Key::Tab => {
                    &&& final(self).username == old(self).username
                    &&& final(self).password == old(self).password
                    &&& final(self).animation == old(self).animation
                    &&& final(self).active_field == match old(self).active_field {
                        ActiveField::Username => ActiveField::Password,
                        ActiveField::Password => ActiveField::Username,
                    }
                },
                Key::Char(c) => final(self).has_active_text(old(self), old(self).active_text().push(c)),
                Key::Backspace => final(self).has_active_text(
                    old(self),
                    if old(self).active_text().len() > 0 {
                        old(self).active_text().drop_last()
                    } else {
                        old(self).active_text()
                    },
                ),
                _ => *final(self) == *old(self),
            },
    {
        match key {
            Key::Esc => KeyAction::Quit,
            Key::Tab => {
                self.active_field = match self.active_field {
                    ActiveField::Username => ActiveField::Password,
                    ActiveField::Password => ActiveField::Username,
                };
                KeyAction::Continue
            },
            Key::Char(c) => {
                match self.active_field {
                    ActiveField::Username => self.username.push(c),
                    ActiveField::Password => self.password.push(c),
                }
                KeyAction::Continue
            },
            Key::Backspace => {
                match self.active_field {
                    ActiveField::Username => {
                        self.username.pop();
                    },
                    ActiveField::Password => {
                        self.password.pop();
                    },
                }
                KeyAction::Continue
            },
            Key::Enter => {
                if self.username.as_str().is_empty() || self.password.as_str().is_empty() {
                    KeyAction::Skip
                } else if login {
                    KeyAction::Authenticate
                } else {
                    KeyAction::Quit
                }
            },
            Key::Other => KeyAction::Continue,
        }
    }

    /// Takes the result of checking the credentials: accepted, the loop ends
    /// and the form stays; rejected, both fields are emptied and the loop goes on.
    pub fn on_authenticated(&mut self, accepted: bool) -> (action: KeyAction)
        ensures
            final(self).active_field == old(self).active_field,
            final(self).animation == old(self).animation,
            accepted ==> action == KeyAction::Quit && *final(self) == *old(self),
            !accepted ==> {
                &&& action == KeyAction::Continue
                &&& final(self).username@ == Seq::<char>::empty()
                &&& final(self).password@ == Seq::<char>::empty()
            },
    {
        if accepted {
            KeyAction::Quit
        } else {
            self.username.clear();
            self.password.clear();
            KeyAction::Continue
        }
    }

    /// The end of the user name that fits into a field of the given width.
    pub fn visible_username(&self, field_width: u16) -> (text: &str)
        requires
            field_width >= 2,
            can_cut(encode_utf8(self.username@), (field_width - 2) as usize),
        ensures
            text.spec_bytes() == tail_bytes(
                encode_utf8(self.username@),
                (field_width - 2) as usize,
            ),
    {
        last_n_chars(self.username.as_str(), (field_width - 2) as usize)
    }

    /// What a field of the given width shows for the password: one asterisk
    /// for each byte that fits where the password is to be hinted at, nothing
    /// otherwise.
    pub fn masked_password(&self, field_width: u16, show_password: bool) -> (mask: String)
        requires
            field_width >= 2,
        ensures
            mask@ == if show_password {
                Seq::new(
                    shown_len(byte_len(encode_utf8(self.password@)), field_width) as nat,
                    |i: int| '*',
                )
            } else {
                Seq::<char>::empty()
            },
    {
        let width: usize = (field_width - 2) as usize;
        let len = self.password.as_str().len();
        password_mask(show_password, if len <= width { len } else { width })
    }

    /// Where the terminal's cursor goes: into the field that takes the keys,
    /// behind its text; nowhere while the password is typed unseen.
    pub fn cursor(&self, username_area: Rect, password_area: Rect, show_password: bool) -> (position:
        Option<(u16, u16)>)
        ensures
            position == match self.active_field {
                ActiveField::Username => cursor_in_field(
                    username_area,
                    byte_len(encode_utf8(self.username@)),
                ),
                ActiveField::Password => if show_password {
                    cursor_in_field(password_area, byte_len(encode_utf8(self.password@)))
                } else {
                    None
                },
            },
    {
        match self.active_field {
            ActiveField::Username => field_cursor(username_area, self.username.as_str().len()),
            ActiveField::Password => if show_password {
                field_cursor(password_area, self.password.as_str().len())
            } else {
                None
            },
        }
    }

    /// One read of a tick's drain: the animation, where there is one, takes
    /// it; without an animation the drain is over and nothing was updated.
    pub fn on_tick(&mut self, drain: Drain, outcome: &ReadOutcome) -> (next: Drain)
        requires
            old(self).wf(),
        ensures
            final(self).wf(),
            final(self).username == old(self).username,
            final(self).password == old(self).password,
            final(self).active_field == old(self).active_field,
            match old(self).animation {
                Some(before) => {
                    &&& next == drain.step(*outcome)
                    &&& final(self).animation matches Some(after)
                    &&& outcome.has_data() ==> after@ == before@.run(
                        parser_events(before.decoder().state(), outcome.bytes()),
                    )
                    &&& !outcome.has_data() ==> after == before
                },
                None => {
                    &&& next == (Drain { updated: false, finished: true })
                    &&& final(self).animation is None
                },
            },
    {
        if let Some(anim) = &mut self.animation {
            anim.update(drain, outcome)
        } else {
            Drain { updated: false, finished: true }
        }
    }
}

} // verus!
