//! The login screen's state and its reaction to each key press.
//!
//! The screen holds a user name and a password being typed, which of the two
//! has the focus, a clock offset in minutes that the user can move, and the
//! session command, if any. Each key press moves it to a new state and asks
//! the caller for one action: redraw, quit, or check the credentials.
use vstd::prelude::*;

use crate::text::{repeat_char, string_clear, string_pop, string_push};

verus! {

/// Which input line receives typed characters.
#[derive(Clone, Copy, Debug, PartialEq, Eq, Structural)]
pub enum FocusedField {
    Username,
    Password,
}

/// Whether the credentials have been accepted.
#[derive(Clone, Copy, Debug, PartialEq, Eq, Structural)]
pub enum AuthState {
    Idle,
    Success,
}

/// A key, as far as the login screen tells keys apart.
#[derive(Clone, Copy, Debug, PartialEq, Eq, Structural)]
pub enum Key {
    Char(char),
    Up,
    Down,
    Left,
    Right,
    Enter,
    Backspace,
    Esc,
    Other,
}

/// One key press: the key, and whether Control was held.
#[derive(Clone, Copy, Debug, PartialEq, Eq, Structural)]
pub struct KeyPress {
    pub key: Key,
    pub ctrl: bool,
}

/// The login screen's state.
pub struct App {
    pub username: String,
    pub password: String,
    pub focused: FocusedField,
    pub state: AuthState,
    pub time_offset_minutes: i64,
    pub session: Option<String>,
}

/// A request to check credentials against a PAM service.
pub struct AuthRequest {
    pub service: String,
    pub user: String,
    pub password: String,
}

/// What the caller is to do after a key press.
pub enum Action {
    /// Redraw and wait for the next event.
    Continue,
    /// Leave the screen.
    Quit,
    /// Check the credentials, then report with `finish_auth`.
    Authenticate(AuthRequest),
}

/// The state of the login screen as values.
pub struct AppView {
    pub username: Seq<char>,
    pub password: Seq<char>,
    pub focused: FocusedField,
    pub state: AuthState,
    pub offset: int,
    pub session: Option<Seq<char>>,
}

/// An action as values.
pub enum ActionView {
    Continue,
    Quit,
    Authenticate { service: Seq<char>, user: Seq<char>, password: Seq<char> },
}

/// An optional string as an optional character sequence.
pub open spec fn option_string_view(o: Option<String>) -> Option<Seq<char>> {
    match o {
        Some(s) => Some(s@),
        None => None,
    }
}

impl View for App {
    type V = AppView;

    open spec fn view(&self) -> AppView {
        AppView {
            username: self.username@,
            password: self.password@,
            focused: self.focused,
            state: self.state,
            offset: self.time_offset_minutes as int,
            session: option_string_view(self.session),
        }
    }
}

impl View for Action {
    type V = ActionView;

    open spec fn view(&self) -> ActionView {
        match self {
            Action::Continue => ActionView::Continue,
            Action::Quit => ActionView::Quit,
            Action::Authenticate(r) => ActionView::Authenticate {
                service: r.service@,
                user: r.user@,
                password: r.password@,
            },
        }
    }
}

/// The PAM service that checks the credentials: "login" when a session
/// command was given, "strikeface" otherwise.
pub open spec fn service_for(session: Option<Seq<char>>) -> Seq<char> {
    if session is Some {
        "login"@
    } else {
        "strikeface"@
    }
}

/// Control-C.
pub open spec fn is_interrupt(k: KeyPress) -> bool {
    k.ctrl && k.key == Key::Char('c')
}

/// The clock offset that `key` sets, when it is a clock key for this state.
/// Clock keys act only while the user name is not focused: `+`, `=` and Right
/// add a minute, `-`, `_` and Left take one away, `]` adds ten, `[` takes ten
/// away, and `r` resets the offset to zero while the password is empty.
pub open spec fn time_adjust(s: AppView, key: Key) -> Option<int> {
    if s.focused == FocusedField::Username {
        None
    } else {
        match key {
            Key::Char(c) => if c == '+' || c == '=' {
                Some(s.offset + 1)
            } else if c == '-' || c == '_' {
                Some(s.offset - 1)
            } else if c == ']' {
                Some(s.offset + 10)
            } else if c == '[' {
                Some(s.offset - 10)
            } else if c == 'r' && s.password.len() == 0 {
                Some(0)
            } else {
                None
            },
            Key::Right => Some(s.offset + 1),
            Key::Left => Some(s.offset - 1),
            _ => None,
        }
    }
}

/// The key press keeps the clock offset within `i64`.
pub open spec fn offset_fits(s: AppView, k: KeyPress) -> bool {
    !is_interrupt(k) && time_adjust(s, k.key) is Some ==> i64::MIN <= time_adjust(
        s,
        k.key,
    )->0 <= i64::MAX
}

/// The state after removing the last character of the focused line.
pub open spec fn erase(s: AppView) -> AppView {
    match s.focused {
        FocusedField::Username => AppView {
            username: if s.username.len() > 0 {
                s.username.drop_last()
            } else {
                s.username
            },
            ..s
        },
        FocusedField::Password => AppView {
            password: if s.password.len() > 0 {
                s.password.drop_last()
            } else {
                s.password
            },
            ..s
        },
    }
}

/// The state after typing `c` into the focused line.
pub open spec fn type_char(s: AppView, c: char) -> AppView {
    match s.focused {
        FocusedField::Username => AppView { username: s.username.push(c), ..s },
        FocusedField::Password => AppView { password: s.password.push(c), ..s },
    }
}

/// The new state and the action for one key press.
pub open spec fn step(s: AppView, k: KeyPress) -> (AppView, ActionView) {
    if is_interrupt(k) {
        (s, ActionView::Quit)
    } else if time_adjust(s, k.key) is Some {
        (AppView { offset: time_adjust(s, k.key)->0, ..s }, ActionView::Continue)
    } else {
        match k.key {
            Key::Up => (AppView { focused: FocusedField::Username, ..s }, ActionView::Continue),
            Key::Down => (AppView { focused: FocusedField::Password, ..s }, ActionView::Continue),
            Key::Enter => if s.focused == FocusedField::Username {
                (AppView { focused: FocusedField::Password, ..s }, ActionView::Continue)
            } else if s.password.len() == 0 {
                (s, ActionView::Continue)
            } else {
                (
                    s,
                    ActionView::Authenticate {
                        service: service_for(s.session),
                        user: s.username,
                        password: s.password,
                    },
                )
            },
            Key::Backspace => (erase(s), ActionView::Continue),
            Key::Char(c) => (type_char(s, c), ActionView::Continue),
            Key::Esc => if s.password.len() > 0 {
                (AppView { password: Seq::empty(), ..s }, ActionView::Continue)
            } else {
                (s, ActionView::Quit)
            },
            _ => (s, ActionView::Continue),
        }
    }
}

/// The state after a credential check: unlocked when accepted; otherwise the
/// password is wiped and the focus goes back to it.
pub open spec fn after_auth(s: AppView, accepted: bool) -> AppView {
    if accepted {
        AppView { state: AuthState::Success, ..s }
    } else {
        AppView { password: Seq::empty(), focused: FocusedField::Password, ..s }
    }
}

/// The user name line: `> name <` while it has the focus, the bare name
/// otherwise.
pub open spec fn user_line_text(s: AppView) -> Seq<char> {
    if s.focused == FocusedField::Username {
        "> "@ + s.username + " <"@
    } else {
        s.username
    }
}

/// The block character that masks the password.
pub const MASK_CHAR: char = '\u{2588}';

/// One mask block per byte of the password's UTF-8 encoding.
pub open spec fn password_mask(s: AppView) -> Seq<char> {
    repeat_char(MASK_CHAR, vstd::utf8::encode_utf8(s.password).len())
}

/// Typing a character and then pressing Backspace gives back the state one
/// started from, for any character that is not taken as a clock key there
/// (and is not Control-C).
pub proof fn lemma_type_then_erase(s: AppView, c: char, ctrl: bool, ctrl2: bool)
    requires
        !is_interrupt(KeyPress { key: Key::Char(c), ctrl }),
        time_adjust(s, Key::Char(c)) is None,
    ensures
        ({
            let typed = step(s, KeyPress { key: Key::Char(c), ctrl });
            &&& typed.1 == ActionView::Continue
            &&& step(typed.0, KeyPress { key: Key::Backspace, ctrl: ctrl2 }) == (
                s,
                ActionView::Continue,
            )
        }),
{
    let t = step(s, KeyPress { key: Key::Char(c), ctrl }).0;
    assert(t.username.len() > 0 || t.password.len() > 0);
    match s.focused {
        FocusedField::Username => assert(t.username.drop_last() =~= s.username),
        FocusedField::Password => assert(t.password.drop_last() =~= s.password),
    }
}

/// With the password focused, every character but the clock keys `+ = - _ ] [`
/// (and `r` while the password is empty) is typed into the password, and the
/// offset, user name, focus and session stay as they were; only Control-C
/// leaves.
pub proof fn lemma_typing_into_password(s: AppView, c: char, ctrl: bool)
    requires
        s.focused == FocusedField::Password,
        c != '+' && c != '=' && c != '-' && c != '_' && c != ']' && c != '[',
        !(c == 'r' && s.password.len() == 0),
        !(ctrl && c == 'c'),
    ensures
        step(s, KeyPress { key: Key::Char(c), ctrl }) == (
            AppView { password: s.password.push(c), ..s },
            ActionView::Continue,
        ),
{
}

/// With the user name focused, every character is typed into it (clock keys
/// included); only Control-C leaves.
pub proof fn lemma_typing_into_username(s: AppView, c: char, ctrl: bool)
    requires
        s.focused == FocusedField::Username,
        !(ctrl && c == 'c'),
    ensures
        step(s, KeyPress { key: Key::Char(c), ctrl }) == (
            AppView { username: s.username.push(c), ..s },
            ActionView::Continue,
        ),
{
}

/// With the password focused, the clock keys move the offset and nothing
/// else: `+`, `=` and Right by one minute forward, `-`, `_` and Left by one
/// back, `]` ten forward, `[` ten back, and `r` on an empty password back to
/// zero.
pub proof fn lemma_clock_key_effects(s: AppView, ctrl: bool)
    requires
        s.focused == FocusedField::Password,
    ensures
        step(s, KeyPress { key: Key::Char('+'), ctrl }).0 == (AppView { offset: s.offset + 1, ..s }),
        step(s, KeyPress { key: Key::Char('='), ctrl }).0 == (AppView { offset: s.offset + 1, ..s }),
        step(s, KeyPress { key: Key::Right, ctrl }).0 == (AppView { offset: s.offset + 1, ..s }),
        step(s, KeyPress { key: Key::Char('-'), ctrl }).0 == (AppView { offset: s.offset - 1, ..s }),
        step(s, KeyPress { key: Key::Char('_'), ctrl }).0 == (AppView { offset: s.offset - 1, ..s }),
        step(s, KeyPress { key: Key::Left, ctrl }).0 == (AppView { offset: s.offset - 1, ..s }),
        step(s, KeyPress { key: Key::Char(']'), ctrl }).0 == (AppView { offset: s.offset + 10, ..s }),
        step(s, KeyPress { key: Key::Char('['), ctrl }).0 == (AppView { offset: s.offset - 10, ..s }),
        s.password.len() == 0 ==> step(s, KeyPress { key: Key::Char('r'), ctrl }).0 == (AppView {
            offset: 0,
            ..s
        }),
{
}

/// Clock keys undo each other: one minute forward then back, or ten minutes
/// forward then back, leaves the state as it was, while the password has the
/// focus.
pub proof fn lemma_clock_keys_undo(s: AppView)
    requires
        s.focused == FocusedField::Password,
    ensures
        step(step(s, KeyPress { key: Key::Char('+'), ctrl: false }).0, KeyPress { key: Key::Char('-'), ctrl: false }).0 == s,
        step(step(s, KeyPress { key: Key::Right, ctrl: false }).0, KeyPress { key: Key::Left, ctrl: false }).0 == s,
        step(step(s, KeyPress { key: Key::Char(']'), ctrl: false }).0, KeyPress { key: Key::Char('['), ctrl: false }).0 == s,
{
}

/// A clock key changes nothing but the clock offset.
pub proof fn lemma_clock_keys_keep_credentials(s: AppView, k: KeyPress)
    requires
        !is_interrupt(k),
        time_adjust(s, k.key) is Some,
    ensures
        step(s, k).0 == (AppView { offset: time_adjust(s, k.key)->0, ..s }),
        step(s, k).1 == ActionView::Continue,
{
}

/// A credential check is asked for only on Enter, with the password focused
/// and not empty; it carries the typed user name and password and the service
/// chosen by the session, and leaves the state as it was.
pub proof fn lemma_authenticate_only_on_enter(s: AppView, k: KeyPress)
    requires
        step(s, k).1 is Authenticate,
    ensures
        k.key == Key::Enter,
        s.focused == FocusedField::Password,
        s.password.len() > 0,
        step(s, k).0 == s,
        step(s, k).1 == (ActionView::Authenticate {
            service: service_for(s.session),
            user: s.username,
            password: s.password,
        }),
{
}

/// The screen quits only on Control-C, or on Escape with an empty password.
pub proof fn lemma_quit_only_on_interrupt_or_escape(s: AppView, k: KeyPress)
    requires
        step(s, k).1 == ActionView::Quit,
    ensures
        is_interrupt(k) || (k.key == Key::Esc && s.password.len() == 0),
        step(s, k).0 == s,
{
}

/// No key press changes the session or the unlock state; the user name changes
/// only while it has the focus, and the password only while it has the focus
/// or on Escape.
pub proof fn lemma_key_press_frame(s: AppView, k: KeyPress)
    ensures
        step(s, k).0.session == s.session,
        step(s, k).0.state == s.state,
        step(s, k).0.username != s.username ==> s.focused == FocusedField::Username,
        step(s, k).0.password != s.password ==> s.focused == FocusedField::Password || k.key
            == Key::Esc,
{
}

/// A rejected check wipes the password and gives it the focus, keeping the
/// user name, the offset, the session and the lock; an accepted one unlocks
/// and changes nothing else.
pub proof fn lemma_after_auth(s: AppView)
    ensures
        after_auth(s, false).password.len() == 0,
        after_auth(s, false).focused == FocusedField::Password,
        after_auth(s, false).username == s.username,
        after_auth(s, false).offset == s.offset,
        after_auth(s, false).session == s.session,
        after_auth(s, false).state == s.state,
        after_auth(s, true) == (AppView { state: AuthState::Success, ..s }),
{
}

impl App {
    /// A fresh screen for `user`, focused on the empty password, offset zero.
    pub fn new(user: String, session: Option<String>) -> (app: App)
        ensures
            app@ == (AppView {
                username: user@,
                password: Seq::empty(),
                focused: FocusedField::Password,
                state: AuthState::Idle,
                offset: 0,
                session: option_string_view(session),
            }),
    {
        App {
            username: user,
            password: String::new(),
            focused: FocusedField::Password,
            state: AuthState::Idle,
            time_offset_minutes: 0,
            session,
        }
    }

    /// The PAM service for this screen's credential checks.
    pub fn service(&self) -> (service: String)
        ensures
            service@ == service_for(self@.session),
    {
        if self.session.is_some() {
            "login".to_owned()
        } else {
            "strikeface".to_owned()
        }
    }

    /// Sets the clock offset.
    fn set_offset(&mut self, offset: i64)
        ensures
            final(self)@ == (AppView { offset: offset as int, ..old(self)@ }),
    {
        self.time_offset_minutes = offset;
    }

    /// Reacts to one key press: updates the state and says what to do next.
    pub fn handle_key(&mut self, key: KeyPress) -> (action: Action)
        requires
            offset_fits(old(self)@, key),
        ensures
            (final(self)@, action@) == step(old(self)@, key),
    {
        if key.ctrl && key.key == Key::Char('c') {
            return Action::Quit;
        }
        if self.focused != FocusedField::Username {
            let o = self.time_offset_minutes;
            match key.key {
                Key::Char(c) => {
                    if c == '+' || c == '=' {
                        self.set_offset(o + 1);
                        return Action::Continue;
                    } else if c == '-' || c == '_' {
                        self.set_offset(o - 1);
                        return Action::Continue;
                    } else if c == ']' {
                        self.set_offset(o + 10);
                        return Action::Continue;
                    } else if c == '[' {
                        self.set_offset(o - 10);
                        return Action::Continue;
                    } else if c == 'r' && self.password.as_str().is_empty() {
                        self.set_offset(0);
                        return Action::Continue;
                    }
                },
                Key::Right => {
                    self.set_offset(o + 1);
                    return Action::Continue;
                },
                Key::Left => {
                    self.set_offset(o - 1);
                    return Action::Continue;
                },
                _ => {},
            }
        }
        match key.key {
            Key::Up => {
                self.focused = FocusedField::Username;
                Action::Continue
            },
            Key::Down => {
                self.focused = FocusedField::Password;
                Action::Continue
            },
            Key::Enter => match self.focused {
                FocusedField::Username => {
                    self.focused = FocusedField::Password;
                    Action::Continue
                },
                FocusedField::Password => {
                    if self.password.as_str().is_empty() {
                        Action::Continue
                    } else {
                        Action::Authenticate(
                            AuthRequest {
                                service: self.service(),
                                user: self.username.clone(),
                                password: self.password.clone(),
                            },
                        )
                    }
                },
            },
            Key::Backspace => {
                match self.focused {
                    FocusedField::Username => {
                        string_pop(&mut self.username);
                    },
                    FocusedField::Password => {
                        string_pop(&mut self.password);
                    },
                }
                Action::Continue
            },
            Key::Char(c) => {
                match self.focused {
                    FocusedField::Username => string_push(&mut self.username, c),
                    FocusedField::Password => string_push(&mut self.password, c),
                }
                Action::Continue
            },
            Key::Esc => {
                if !self.password.as_str().is_empty() {
                    string_clear(&mut self.password);
                    Action::Continue
                } else {
                    Action::Quit
                }
            },
            _ => Action::Continue,
        }
    }

    /// Records the outcome of a credential check.
    pub fn finish_auth(&mut self, accepted: bool)
        ensures
            final(self)@ == after_auth(old(self)@, accepted),
    {
        if accepted {
            self.state = AuthState::Success;
        } else {
            string_clear(&mut self.password);
            self.focused = FocusedField::Password;
        }
    }

    /// Whether the credentials were accepted.
    pub fn is_unlocked(&self) -> (unlocked: bool)
        ensures
            unlocked == (self@.state == AuthState::Success),
    {
        self.state == AuthState::Success
    }

    /// The process exit status: 0 once unlocked, 1 otherwise.
    pub fn exit_code(&self) -> (code: i32)
        ensures
            code == (if self@.state == AuthState::Success {
                0i32
            } else {
                1i32
            }),
    {
        match self.state {
            AuthState::Success => 0,
            AuthState::Idle => 1,
        }
    }

    /// The text of the user name line.
    pub fn user_line(&self) -> (line: String)
        ensures
            line@ == user_line_text(self@),
    {
        if self.focused == FocusedField::Username {
            let mut line = "> ".to_owned();
            line.append(self.username.as_str());
            line.append(" <");
            line
        } else {
            self.username.clone()
        }
    }

    /// The mask shown for the password: one block per byte it takes.
    pub fn password_mask(&self) -> (mask: String)
        ensures
            mask@ == password_mask(self@),
    {
        let n = self.password.as_str().as_bytes().len();
        crate::text::repeat(MASK_CHAR, n)
    }
}

} // verus!
