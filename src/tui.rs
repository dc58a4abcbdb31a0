use vstd::prelude::*;
use crate::text::{decimal_digits, decimal_text, is_white_space, lemma_trimmed_plain, trim_text, trimmed};
use crate::tmux::{TmuxClient, TmuxSession};

verus! {

pub const WELCOME_TEXT: &'static str = "Welcome to tmux-ui! Press 'h' for help.";

pub const HELP_TEXT: &'static str = "Commands: q=quit, n=new session, d=delete session, a=attach, r=rename, w=new window, x=detach, R=refresh, ↑↓=navigate, Enter=attach";

pub const CREATE_PROMPT: &'static str = "Enter session name (ESC to cancel, Enter to create):";

pub const RENAME_PROMPT: &'static str = "Enter new session name (ESC to cancel, Enter to rename):";

pub const CANCELLED_TEXT: &'static str = "Cancelled";

pub const REFRESHED_TEXT: &'static str = "Sessions refreshed!";

/// What the keyboard is currently used for.
#[derive(Debug, Clone, Copy, PartialEq, Eq, Structural)]
pub enum InputMode {
    Normal,
    CreatingSession,
    RenamingSession,
}

/// A key press, as far as the controller tells keys apart.
#[derive(Debug, Clone, Copy, PartialEq, Eq, Structural)]
pub enum Key {
    Char(char),
    Enter,
    Backspace,
    Esc,
    Up,
    Down,
    Other,
}

/// A command for the tmux server that a key press asks for.
#[derive(Debug, Clone, PartialEq, Eq)]
pub enum Request {
    Create(String),
    Kill(String),
    Rename(String, String),
    Switch(String),
    Detach(String),
    NewWindow(String),
}

/// What the event loop does after a key press.
#[derive(Debug, Clone, PartialEq, Eq)]
pub enum Action {
    /// Nothing more: draw and wait for the next key.
    Continue,
    /// Leave the loop.
    Quit,
    /// Read the session list again.
    Refresh,
    /// Issue the request, then report its outcome through `App::complete`.
    Run(Request),
}

/// State of the interactive session manager.
pub struct App {
    pub client: TmuxClient,
    pub sessions: Vec<TmuxSession>,
    pub selected: Option<usize>,
    pub input: String,
    pub input_mode: InputMode,
    pub status_message: String,
    pub attach_on_exit: Option<String>,
}

/// The selection kept after the session list has been replaced by one of
/// `len` sessions: none for an empty list, else the previous index where it
/// is still in range, else the last index.
pub open spec fn repaired(prev: Option<usize>, len: nat) -> Option<usize> {
    if len == 0 {
        None
    } else {
        match prev {
            Some(i) => if i < len { Some(i) } else { Some((len - 1) as usize) },
            None => Some(0),
        }
    }
}

/// `b` is `a` after its session list was replaced by `list`.
pub open spec fn refreshed(a: App, b: App, list: Seq<TmuxSession>) -> bool {
    &&& b.sessions@ == list
    &&& b.selected == repaired(a.selected, list.len())
    &&& b.input@ == a.input@
    &&& b.input_mode == a.input_mode
    &&& b.status_message@ == a.status_message@
    &&& b.attach_on_exit == a.attach_on_exit
}

/// `a` and `b` agree on everything but the status message.
pub open spec fn same_but_status(a: App, b: App) -> bool {
    &&& a.sessions@ == b.sessions@
    &&& a.selected == b.selected
    &&& a.input@ == b.input@
    &&& a.input_mode == b.input_mode
    &&& a.attach_on_exit == b.attach_on_exit
}

/// `a` and `b` agree on everything but the input buffer.
pub open spec fn same_but_input(a: App, b: App) -> bool {
    &&& a.sessions@ == b.sessions@
    &&& a.selected == b.selected
    &&& a.input_mode == b.input_mode
    &&& a.status_message@ == b.status_message@
    &&& a.attach_on_exit == b.attach_on_exit
}

/// `a` and `b` agree on everything but the selection.
pub open spec fn same_but_selection(a: App, b: App) -> bool {
    &&& a.sessions@ == b.sessions@
    &&& a.input@ == b.input@
    &&& a.input_mode == b.input_mode
    &&& a.status_message@ == b.status_message@
    &&& a.attach_on_exit == b.attach_on_exit
}

/// `a` and `b` hold the same sessions and selection, and no attach target is
/// set on the way from `a` to `b`.
pub open spec fn same_sessions(a: App, b: App) -> bool {
    &&& a.sessions@ == b.sessions@
    &&& a.selected == b.selected
    &&& a.attach_on_exit == b.attach_on_exit
}

/// `a` and `b` agree on everything the controller holds.
pub open spec fn unchanged(a: App, b: App) -> bool {
    same_but_status(a, b) && a.status_message@ == b.status_message@
}

/// The selection after moving down one row, wrapping from the last to the first.
pub open spec fn next_index(i: usize, len: nat) -> usize {
    if i + 1 >= len { 0 } else { (i + 1) as usize }
}

/// The selection after moving up one row, wrapping from the first to the last.
pub open spec fn prev_index(i: usize, len: nat) -> usize {
    if i == 0 { (len - 1) as usize } else { (i - 1) as usize }
}

/// `name` between two fixed texts.
pub open spec fn quoted(before: &str, name: Seq<char>, after: &str) -> Seq<char> {
    before@ + name + after@
}

/// The status message that reports the outcome of `req`.
pub open spec fn outcome_message(req: Request, outcome: Result<(), String>) -> Seq<char> {
    match req {
        Request::Create(n) => match outcome {
            Ok(_) => quoted("Session '", n@, "' created!"),
            Err(e) => "Error creating session: "@ + e@,
        },
        Request::Kill(n) => match outcome {
            Ok(_) => quoted("Session '", n@, "' deleted!"),
            Err(e) => "Error deleting session: "@ + e@,
        },
        Request::Rename(o, n) => match outcome {
            Ok(_) => quoted("Session renamed from '", o@, "' to '") + n@ + "'!"@,
            Err(e) => "Error renaming session: "@ + e@,
        },
        Request::Switch(n) => match outcome {
            Ok(_) => quoted("Switched to session '", n@, "'"),
            Err(e) => "Error switching to session: "@ + e@,
        },
        Request::Detach(n) => quoted("Detached from session '", n@, "'"),
        Request::NewWindow(n) => match outcome {
            Ok(_) => quoted("New window created in session '", n@, "'"),
            Err(e) => "Error creating window: "@ + e@,
        },
    }
}

/// Whether the session list must be read again after `req` had `outcome`:
/// after every success, and after a detach whatever came of it.
pub open spec fn refresh_after(req: Request, outcome: Result<(), String>) -> bool {
    req is Detach || outcome is Ok
}

/// Whether `key` means something in normal mode.
pub open spec fn is_normal_command(key: Key) -> bool {
    ||| key == Key::Enter
    ||| key == Key::Up
    ||| key == Key::Down
    ||| key == Key::Char('q')
    ||| key == Key::Char('h')
    ||| key == Key::Char('n')
    ||| key == Key::Char('r')
    ||| key == Key::Char('d')
    ||| key == Key::Char('a')
    ||| key == Key::Char('x')
    ||| key == Key::Char('w')
    ||| key == Key::Char('R')
}

/// The effect of a key other than Enter in an editing mode.
pub open spec fn edited(a: App, b: App, key: Key) -> bool {
    match key {
        Key::Char(c) => same_but_input(a, b) && b.input@ == a.input@.push(c),
        Key::Backspace => same_but_input(a, b) && b.input@ == (if a.input@.len() == 0 {
            a.input@
        } else {
            a.input@.drop_last()
        }),
        Key::Esc => {
            &&& same_sessions(a, b)
            &&& b.input@.len() == 0
            &&& b.input_mode == InputMode::Normal
            &&& b.status_message@ == CANCELLED_TEXT@
        },
        _ => unchanged(a, b),
    }
}

/// Back to normal mode with an empty input; the outcome of the request
/// will set the status message.
pub open spec fn left_editing(a: App, b: App) -> bool {
    &&& same_sessions(a, b)
    &&& b.input@.len() == 0
    &&& b.input_mode == InputMode::Normal
    &&& b.status_message@ == a.status_message@
}

fn prefixed(before: &str, rest: &str) -> (r: String)
    ensures
        r@ == before@ + rest@,
{
    let mut r = String::from_str(before);
    r.append(rest);
    r
}

/// The effect of `key` in normal mode, taking `a` to `b` with action `r`.
pub open spec fn normal_step(a: App, b: App, key: Key, inside_tmux: bool, r: Action) -> bool {
    &&& (b.sessions@ == a.sessions@)
    &&& (key == Key::Char('q') ==> r == Action::Quit && unchanged(a, b))
    &&& (key == Key::Char('h') ==> r == Action::Continue && same_but_status(a, b)
        && b.status_message@ == HELP_TEXT@)
    &&& (key == Key::Char('n') ==> r == Action::Continue && same_sessions(a, b)
        && b.input_mode == InputMode::CreatingSession && b.input@.len() == 0
        && b.status_message@ == CREATE_PROMPT@)
    &&& (key == Key::Char('r') ==> r == Action::Continue && match a.selected {
        Some(_) => same_sessions(a, b)
            && b.input_mode == InputMode::RenamingSession && b.input@.len() == 0
            && b.status_message@ == RENAME_PROMPT@,
        None => unchanged(a, b),
    })
    &&& (key == Key::Char('d') ==> unchanged(a, b) && match a.selected_name() {
        Some(n) => r == Action::Run(Request::Kill(n)),
        None => r == Action::Continue,
    })
    &&& ((key == Key::Char('a') || key == Key::Enter) ==> match a.selected_name() {
        Some(n) => if inside_tmux {
            r == Action::Run(Request::Switch(n)) && unchanged(a, b)
        } else {
            &&& r == Action::Quit
            &&& b.attach_on_exit == Some(n)
            &&& b.status_message@ == quoted("Attaching to session '", n@, "'...")
            &&& b.selected == a.selected
            &&& b.input@ == a.input@
            &&& b.input_mode == a.input_mode
        },
        None => r == Action::Continue && unchanged(a, b),
    })
    &&& (key == Key::Char('x') ==> unchanged(a, b) && match a.selected_name() {
        Some(n) => r == Action::Run(Request::Detach(n)),
        None => r == Action::Continue,
    })
    &&& (key == Key::Char('w') ==> unchanged(a, b) && match a.selected_name() {
        Some(n) => r == Action::Run(Request::NewWindow(n)),
        None => r == Action::Continue,
    })
    &&& (key == Key::Down ==> r == Action::Continue && same_but_selection(a, b)
        && b.selected == match a.selected {
            Some(i) => Some(next_index(i, a.sessions@.len())),
            None => None,
        })
    &&& (key == Key::Up ==> r == Action::Continue && same_but_selection(a, b)
        && b.selected == match a.selected {
            Some(i) => Some(prev_index(i, a.sessions@.len())),
            None => None,
        })
    &&& (key == Key::Char('R') ==> r == Action::Refresh && same_but_status(a, b)
        && b.status_message@ == REFRESHED_TEXT@)
    &&& (!is_normal_command(key) ==> r == Action::Continue && unchanged(a, b))
}

/// The effect of `key` while a new session's name is typed.
pub open spec fn creating_step(a: App, b: App, key: Key, r: Action) -> bool {
    &&& (key != Key::Enter ==> r == Action::Continue && edited(a, b, key))
    &&& (key == Key::Enter ==> if trimmed(a.input@).len() > 0 {
        &&& r matches Action::Run(Request::Create(n)) && n@ == trimmed(a.input@)
        &&& left_editing(a, b)
    } else {
        r == Action::Continue && unchanged(a, b)
    })
}

/// The effect of `key` while a new name for the selected session is typed.
pub open spec fn renaming_step(a: App, b: App, key: Key, r: Action) -> bool {
    &&& (key != Key::Enter ==> r == Action::Continue && edited(a, b, key))
    &&& (key == Key::Enter ==> match a.selected_name() {
        Some(o) => if trimmed(a.input@).len() > 0 {
            &&& r matches Action::Run(Request::Rename(from, to)) && from == o && to@ == trimmed(a.input@)
            &&& left_editing(a, b)
        } else {
            r == Action::Continue && unchanged(a, b)
        },
        None => r == Action::Continue && unchanged(a, b),
    })
}

fn joined(before: &str, middle: &str, after: &str) -> (r: String)
    ensures
        r@ == before@ + middle@ + after@,
{
    let mut r = String::from_str(before);
    r.append(middle);
    r.append(after);
    r
}

impl App {
    /// Selection is absent exactly when there are no sessions, and is a valid
    /// index otherwise.
    pub open spec fn wf(&self) -> bool {
        match self.selected {
            None => self.sessions@.len() == 0,
            Some(i) => i < self.sessions@.len(),
        }
    }

    pub fn new(client: TmuxClient) -> (r: Self)
        ensures
            r.wf(),
            r.sessions@.len() == 0,
            r.selected is None,
            r.input@.len() == 0,
            r.input_mode == InputMode::Normal,
            r.status_message@ == WELCOME_TEXT@,
            r.attach_on_exit is None,
    {
        App {
            client,
            sessions: Vec::new(),
            selected: None,
            input: String::new(),
            input_mode: InputMode::Normal,
            status_message: String::from_str(WELCOME_TEXT),
            attach_on_exit: None,
        }
    }

    /// Replaces the session list with a fresh one and repairs the selection.
    pub fn refresh_sessions(&mut self, sessions: Vec<TmuxSession>)
        ensures
            final(self).wf(),
            refreshed(*old(self), *final(self), sessions@),
    {
        let len = sessions.len();
        self.sessions = sessions;
        if len == 0 {
            self.selected = None;
        } else {
            match self.selected {
                Some(i) => {
                    if i >= len {
                        self.selected = Some(len - 1);
                    }
                },
                None => {
                    self.selected = Some(0);
                },
            }
        }
    }
    /// Name of the selected session, if any.
    pub open spec fn selected_name(&self) -> Option<String> {
        match self.selected {
            Some(i) => Some(self.sessions@[i as int].name),
            None => None,
        }
    }

    fn selected_session_name(&self) -> (r: Option<String>)
        requires
            self.wf(),
        ensures
            r == self.selected_name(),
    {
        match self.selected {
            Some(i) => Some(self.sessions[i].name.clone()),
            None => None,
        }
    }

    /// Handles a key in normal mode. `inside_tmux` tells whether this process
    /// runs inside a tmux session, where attaching means switching the client.
    pub fn handle_normal_input(&mut self, key: Key, inside_tmux: bool) -> (r: Action)
        requires
            old(self).wf(),
            old(self).input_mode == InputMode::Normal,
        ensures
            final(self).wf(),
            normal_step(*old(self), *final(self), key, inside_tmux, r),
    {
        match key {
            Key::Char('q') => Action::Quit,
            Key::Char('h') => {
                self.status_message = String::from_str(HELP_TEXT);
                Action::Continue
            },
            Key::Char('n') => {
                self.input_mode = InputMode::CreatingSession;
                self.input = String::new();
                self.status_message = String::from_str(CREATE_PROMPT);
                Action::Continue
            },
            Key::Char('r') => {
                if self.selected.is_some() {
                    self.input_mode = InputMode::RenamingSession;
                    self.input = String::new();
                    self.status_message = String::from_str(RENAME_PROMPT);
                }
                Action::Continue
            },
            Key::Char('d') => match self.selected_session_name() {
                Some(n) => Action::Run(Request::Kill(n)),
                None => Action::Continue,
            },
            Key::Char('a') | Key::Enter => match self.selected_session_name() {
                Some(n) => {
                    if inside_tmux {
                        Action::Run(Request::Switch(n))
                    } else {
                        self.status_message = joined("Attaching to session '", n.as_str(), "'...");
                        self.attach_on_exit = Some(n);
                        Action::Quit
                    }
                },
                None => Action::Continue,
            },
            Key::Char('x') => match self.selected_session_name() {
                Some(n) => Action::Run(Request::Detach(n)),
                None => Action::Continue,
            },
            Key::Char('w') => match self.selected_session_name() {
                Some(n) => Action::Run(Request::NewWindow(n)),
                None => Action::Continue,
            },
            Key::Down => {
                if let Some(i) = self.selected {
                    assert(i < self.sessions@.len());
                    if i >= self.sessions.len() - 1 {
                        self.selected = Some(0);
                    } else {
                        self.selected = Some(i + 1);
                    }
                }
                Action::Continue
            },
            Key::Up => {
                if let Some(i) = self.selected {
                    if i == 0 {
                        self.selected = Some(self.sessions.len() - 1);
                    } else {
                        self.selected = Some(i - 1);
                    }
                }
                Action::Continue
            },
            Key::Char('R') => {
                self.status_message = String::from_str(REFRESHED_TEXT);
                Action::Refresh
            },
            _ => Action::Continue,
        }
    }
    /// Handles a key in an editing mode: characters, backspace and escape
    /// act on the input buffer; Enter is left to the caller.
    fn edit_input(&mut self, key: Key)
        requires
            old(self).wf(),
            old(self).input_mode != InputMode::Normal,
            key != Key::Enter,
        ensures
            final(self).wf(),
            edited(*old(self), *final(self), key),
    {
        match key {
            Key::Char(c) => {
                self.input.push(c);
            },
            Key::Backspace => {
                self.input.pop();
            },
            Key::Esc => {
                self.input = String::new();
                self.input_mode = InputMode::Normal;
                self.status_message = String::from_str(CANCELLED_TEXT);
            },
            _ => {},
        }
    }

    /// Handles a key while a name for a new session is typed.
    pub fn handle_creating_input(&mut self, key: Key) -> (r: Action)
        requires
            old(self).wf(),
            old(self).input_mode == InputMode::CreatingSession,
        ensures
            final(self).wf(),
            creating_step(*old(self), *final(self), key, r),
    {
        if key == Key::Enter {
            let name = trim_text(self.input.as_str());
            if name.as_str().unicode_len() > 0 {
                self.input = String::new();
                self.input_mode = InputMode::Normal;
                Action::Run(Request::Create(name))
            } else {
                Action::Continue
            }
        } else {
            self.edit_input(key);
            Action::Continue
        }
    }

    /// Handles a key while a new name for the selected session is typed.
    pub fn handle_renaming_input(&mut self, key: Key) -> (r: Action)
        requires
            old(self).wf(),
            old(self).input_mode == InputMode::RenamingSession,
        ensures
            final(self).wf(),
            renaming_step(*old(self), *final(self), key, r),
    {
        if key == Key::Enter {
            let name = trim_text(self.input.as_str());
            if name.as_str().unicode_len() > 0 {
                match self.selected_session_name() {
                    Some(o) => {
                        self.input = String::new();
                        self.input_mode = InputMode::Normal;
                        Action::Run(Request::Rename(o, name))
                    },
                    None => Action::Continue,
                }
            } else {
                Action::Continue
            }
        } else {
            self.edit_input(key);
            Action::Continue
        }
    }

    /// Handles a key press in whatever mode the application is in. In the
    /// editing modes no key selects, deletes, attaches or quits: a printable
    /// key only adds its character to the input.
    pub fn handle_key(&mut self, key: Key, inside_tmux: bool) -> (r: Action)
        requires
            old(self).wf(),
        ensures
            final(self).wf(),
            match old(self).input_mode {
                InputMode::Normal => normal_step(*old(self), *final(self), key, inside_tmux, r),
                InputMode::CreatingSession => creating_step(*old(self), *final(self), key, r),
                InputMode::RenamingSession => renaming_step(*old(self), *final(self), key, r),
            },
            old(self).input_mode != InputMode::Normal ==> {
                &&& r != Action::Quit
                &&& r != Action::Refresh
                &&& same_sessions(*old(self), *final(self))
                &&& (key == Key::Up || key == Key::Down || key == Key::Other)
                    ==> r == Action::Continue && unchanged(*old(self), *final(self))
                &&& key matches Key::Char(c) ==> r == Action::Continue
                    && same_but_input(*old(self), *final(self))
                    && final(self).input@ == old(self).input@.push(c)
            },
    {
        match self.input_mode {
            InputMode::Normal => self.handle_normal_input(key, inside_tmux),
            InputMode::CreatingSession => self.handle_creating_input(key),
            InputMode::RenamingSession => self.handle_renaming_input(key),
        }
    }

    /// Records in the status message how `req` went. Returns whether the
    /// session list must be read again.
    pub fn complete(&mut self, req: &Request, outcome: Result<(), String>) -> (r: bool)
        requires
            old(self).wf(),
        ensures
            final(self).wf(),
            same_but_status(*old(self), *final(self)),
            final(self).status_message@ == outcome_message(*req, outcome),
            r == refresh_after(*req, outcome),
    {
        let refresh = match outcome {
            Ok(_) => true,
            Err(_) => false,
        };
        match req {
            Request::Create(n) => {
                self.status_message = match outcome {
                    Ok(_) => joined("Session '", n.as_str(), "' created!"),
                    Err(e) => prefixed("Error creating session: ", e.as_str()),
                };
                refresh
            },
            Request::Kill(n) => {
                self.status_message = match outcome {
                    Ok(_) => joined("Session '", n.as_str(), "' deleted!"),
                    Err(e) => prefixed("Error deleting session: ", e.as_str()),
                };
                refresh
            },
            Request::Rename(o, n) => {
                self.status_message = match outcome {
                    Ok(_) => {
                        let mut m = joined("Session renamed from '", o.as_str(), "' to '");
                        m.append(n.as_str());
                        m.append("'!");
                        m
                    },
                    Err(e) => prefixed("Error renaming session: ", e.as_str()),
                };
                refresh
            },
            Request::Switch(n) => {
                self.status_message = match outcome {
                    Ok(_) => joined("Switched to session '", n.as_str(), "'"),
                    Err(e) => prefixed("Error switching to session: ", e.as_str()),
                };
                refresh
            },
            Request::Detach(n) => {
                self.status_message = joined("Detached from session '", n.as_str(), "'");
                true
            },
            Request::NewWindow(n) => {
                self.status_message = match outcome {
                    Ok(_) => joined("New window created in session '", n.as_str(), "'"),
                    Err(e) => prefixed("Error creating window: ", e.as_str()),
                };
                refresh
            },
        }
    }
    /// Records that reading the session list failed, with the reason; the
    /// sessions and the selection stay as they were.
    pub fn refresh_failed(&mut self, detail: &str)
        requires
            old(self).wf(),
        ensures
            final(self).wf(),
            same_but_status(*old(self), *final(self)),
            final(self).status_message@ == "Error refreshing sessions: "@ + detail@,
    {
        self.status_message = prefixed("Error refreshing sessions: ", detail);
    }

    /// Title of the session list, with the number of sessions.
    pub fn list_title(&self) -> (r: String)
        ensures
            r@ == "tmux Sessions ("@ + decimal_digits(self.sessions@.len()) + ")"@,
    {
        let count = decimal_text(self.sessions.len());
        joined("tmux Sessions (", count.as_str(), ")")
    }

    /// Text of the status bar: the status message in normal mode, else the
    /// input typed so far behind a label for the mode.
    pub fn status_text(&self) -> (r: String)
        ensures
            r@ == match self.input_mode {
                InputMode::Normal => self.status_message@,
                InputMode::CreatingSession => "New session name: "@ + self.input@,
                InputMode::RenamingSession => "Rename to: "@ + self.input@,
            },
    {
        match self.input_mode {
            InputMode::Normal => self.status_message.clone(),
            InputMode::CreatingSession => prefixed("New session name: ", self.input.as_str()),
            InputMode::RenamingSession => prefixed("Rename to: ", self.input.as_str()),
        }
    }
}

/// The marker drawn before a session: filled when a client is attached.
pub open spec fn marker(attached: bool) -> Seq<char> {
    if attached { "●"@ } else { "○"@ }
}

fn marker_text(attached: bool) -> (r: &'static str)
    ensures
        r@ == marker(attached),
{
    if attached { "●" } else { "○" }
}

/// Row of the session list for `s`: marker, name and window count.
pub fn session_label(s: &TmuxSession) -> (r: String)
    ensures
        r@ == marker(s.attached) + " "@ + s.name@ + " ("@ + decimal_digits(s.windows as nat) + " windows)"@,
{
    let mut r = joined(marker_text(s.attached), " ", s.name.as_str());
    let count = decimal_text(s.windows);
    r.append(" (");
    r.append(count.as_str());
    r.append(" windows)");
    r
}

/// Line of the plain session listing for `s`: marker, name and window count.
pub fn listing_line(s: &TmuxSession) -> (r: String)
    ensures
        r@ == "  "@ + marker(s.attached) + " "@ + s.name@ + " - "@ + decimal_digits(s.windows as nat) + " window(s)"@,
{
    let mut r = joined("  ", marker_text(s.attached), " ");
    let count = decimal_text(s.windows);
    r.append(s.name.as_str());
    r.append(" - ");
    r.append(count.as_str());
    r.append(" window(s)");
    r
}

/// Every state that a refresh leaves is well formed: no selection exactly
/// when there are no sessions, else a valid index.
pub proof fn lemma_refresh_keeps_selection_valid(a: App, b: App, list: Seq<TmuxSession>)
    requires
        refreshed(a, b, list),
    ensures
        b.wf(),
        b.selected is None <==> b.sessions@.len() == 0,
{
}

/// Refreshing twice against the same list gives what refreshing once gave:
/// the same sessions and the same selection.
pub proof fn lemma_refresh_idempotent(a: App, b: App, c: App, list: Seq<TmuxSession>)
    requires
        refreshed(a, b, list),
        refreshed(b, c, list),
    ensures
        c.sessions@ == b.sessions@,
        c.selected == b.selected,
{
}

/// Typing a name that neither begins nor ends with white space and
/// confirming it asks for a session of exactly that name and returns to
/// normal mode with an empty input. Once the request has been reported and
/// the session list read again, a session of that name that the server lists
/// stands in the list at the same place.
pub proof fn lemma_create_then_refresh(
    a: App,
    b: App,
    r: Action,
    c: App,
    d: App,
    list: Seq<TmuxSession>,
    j: int,
)
    requires
        a.input_mode == InputMode::CreatingSession,
        a.input@.len() > 0,
        !is_white_space(a.input@[0]),
        !is_white_space(a.input@.last()),
        creating_step(a, b, Key::Enter, r),
        same_but_status(b, c),
        refreshed(c, d, list),
        0 <= j < list.len(),
        list[j].name@ == a.input@,
    ensures
        r matches Action::Run(Request::Create(n)) && n@ == a.input@,
        d.input_mode == InputMode::Normal,
        d.input@.len() == 0,
        d.sessions@[j].name@ == a.input@,
{
    lemma_trimmed_plain(a.input@);
}

/// Once the last session is gone, a refresh leaves no sessions and no
/// selection.
pub proof fn lemma_refresh_empty_clears_selection(a: App, b: App)
    requires
        refreshed(a, b, Seq::empty()),
    ensures
        b.sessions@.len() == 0,
        b.selected is None,
{
}

} // verus!
