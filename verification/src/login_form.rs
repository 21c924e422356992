//! The login form: the one piece of shared state the two UI threads work on.
//! Key dispatch, the focus moves, the status line, and the login protocol —
//! read the buffers, resolve the chosen session kind, and step through
//! authentication and session start — are decided here. Reading terminal
//! events, drawing, locking, and calling the authentication and session
//! collaborators are the caller's edge work: each decision function consumes
//! an outcome and leaves the form in the state the protocol prescribes.

use vstd::prelude::*;

use crate::input_mode::InputMode;
use crate::post_login::{EnvironmentStartError, PostLoginEnvironment, UserInfo};
use crate::status_message::{ErrorStatusMessage, InfoStatusMessage, StatusMessage};

verus! {

pub assume_specification[ String::push ](s: &mut String, ch: char)
    ensures
        final(s)@ == old(s)@.push(ch),
;

pub assume_specification[ String::pop ](s: &mut String) -> (r: Option<char>)
    ensures
        old(s)@.len() == 0 ==> r is None && final(s)@ == old(s)@,
        old(s)@.len() > 0 ==> r == Some(old(s)@.last()) && final(s)@ == old(s)@.drop_last(),
;

/// Which field owns the focus when the form comes up.
#[derive(Clone, Copy, PartialEq, Eq, Structural, Debug)]
pub enum FocusBehaviour {
    NoFocus,
    Environment,
    Username,
    Password,
    /// The first field the user still has to fill: the password when a
    /// remembered username is preset, the username otherwise.
    FirstNonCached,
}

/// The configuration the form needs: the terminal it serves, where focus
/// starts, and whether the username is remembered between runs.
#[derive(Clone, Copy, PartialEq, Eq, Structural, Debug)]
pub struct Config {
    pub tty: u8,
    pub focus_behaviour: FocusBehaviour,
    pub remember_username: bool,
}

/// What the event side asks of the render side.
#[derive(Clone, Copy, PartialEq, Eq, Structural, Debug)]
pub enum UIThreadRequest {
    Redraw,
    StopDrawing,
}

/// A key event, as the form understands it.
#[derive(Clone, Copy, PartialEq, Eq, Structural, Debug)]
pub enum Key {
    Enter,
    Up,
    Down,
    Tab,
    BackTab,
    Esc,
    Char(char),
    Backspace,
    Left,
    Right,
}

/// What a key press asks the caller to do next.
#[derive(Clone, Copy, PartialEq, Eq, Structural, Debug)]
pub enum KeyOutcome {
    /// The form handled the key; nothing to do but redraw.
    Handled,
    /// Enter on the password field: run the login protocol.
    Submit,
    /// Enter on the password field in preview mode: play the simulated
    /// two-phase status sequence instead of authenticating.
    PreviewLoginSequence,
    /// Esc at idle in preview mode: stop the render loop.
    Stop,
}

/// The credentials and session kind a submit resolved to; what the
/// authentication collaborator is called with.
#[derive(PartialEq, Debug)]
pub struct LoginRequest {
    pub username: String,
    pub password: String,
    pub environment: PostLoginEnvironment,
}

/// An accepted authentication: the identity to launch, and the username to
/// persist for the next run when remembering is on.
#[derive(PartialEq, Debug)]
pub struct AuthAccepted {
    pub user: UserInfo,
    pub persist_username: Option<String>,
}

/// The request queue grows by one entry when a channel is attached, and is
/// untouched when none is.
pub open spec fn spec_channel_after_send(
    pre: Option<Vec<UIThreadRequest>>,
    post: Option<Vec<UIThreadRequest>>,
    req: UIThreadRequest,
) -> bool {
    match pre {
        None => post is None,
        Some(q) => post matches Some(q2) && q2@ == q@.push(req),
    }
}

/// The state of the application.
pub struct LoginForm {
    /// Whether the application is running in preview mode.
    pub preview: bool,
    /// The offered session kinds, by display name.
    pub environments: Vec<(String, PostLoginEnvironment)>,
    /// The switcher's position; meaningful only while the list is non-empty.
    pub selected_env: usize,
    /// Contents of the username input field.
    pub username: String,
    /// Contents of the password input field.
    pub password: String,
    /// Current input mode.
    pub input_mode: InputMode,
    /// Message that is displayed.
    pub status_message: Option<StatusMessage>,
    /// The configuration for the app.
    pub config: Config,
    /// The requests queued for the render side; None until the event side
    /// attaches its channel.
    pub send_redraw_channel: Option<Vec<UIThreadRequest>>,
}

/// The fields a status change never touches.
pub open spec fn spec_same_but_status(a: LoginForm, b: LoginForm) -> bool {
    &&& a.preview == b.preview
    &&& a.environments == b.environments
    &&& a.selected_env == b.selected_env
    &&& a.username == b.username
    &&& a.password == b.password
    &&& a.input_mode == b.input_mode
    &&& a.config == b.config
}

/// What one clear of the status line does to the form.
pub open spec fn spec_clear_transition(pre: LoginForm, post: LoginForm) -> bool {
    &&& spec_same_but_status(pre, post)
    &&& post.status_message is None
    &&& spec_channel_after_send(
        pre.send_redraw_channel,
        post.send_redraw_channel,
        UIThreadRequest::Redraw,
    )
}

/// The fields a key press never touches.
pub open spec fn spec_same_but_input(a: LoginForm, b: LoginForm) -> bool {
    &&& a.preview == b.preview
    &&& a.environments == b.environments
    &&& a.config == b.config
    &&& a.status_message == b.status_message
    &&& a.send_redraw_channel == b.send_redraw_channel
}

impl PostLoginEnvironment {
    /// An owned copy of the kind.
    pub fn duplicate(&self) -> (r: Self)
        ensures
            r == *self,
    {
        match self {
            PostLoginEnvironment::X { xinitrc_path } => PostLoginEnvironment::X {
                xinitrc_path: xinitrc_path.clone(),
            },
            PostLoginEnvironment::Wayland { script_path } => PostLoginEnvironment::Wayland {
                script_path: script_path.clone(),
            },
            PostLoginEnvironment::Shell => PostLoginEnvironment::Shell,
        }
    }
}

impl LoginForm {
    /// While sessions are offered, the switcher points at one of them.
    pub open spec fn wf(self) -> bool {
        self.environments@.len() > 0 ==> (self.selected_env as int) < self.environments@.len()
    }

    /// A fresh form: password empty, no status, no channel yet; the username
    /// preset from the cache only when remembering is on, and the focus where
    /// the configuration puts it.
    pub fn new(
        config: Config,
        preview: bool,
        environments: Vec<(String, PostLoginEnvironment)>,
        cached_username: Option<String>,
    ) -> (r: LoginForm)
        ensures
            r.preview == preview,
            r.config == config,
            r.environments == environments,
            r.selected_env == 0,
            r.password@ == Seq::<char>::empty(),
            r.status_message is None,
            r.send_redraw_channel is None,
            ({
                let preset = if config.remember_username {
                    cached_username
                } else {
                    None
                };
                &&& (preset matches Some(u) ==> r.username == u)
                &&& (preset is None ==> r.username@ == Seq::<char>::empty())
                &&& r.input_mode == match config.focus_behaviour {
                    FocusBehaviour::NoFocus => InputMode::Normal,
                    FocusBehaviour::Environment => InputMode::Switcher,
                    FocusBehaviour::Username => InputMode::Username,
                    FocusBehaviour::Password => InputMode::Password,
                    FocusBehaviour::FirstNonCached => if preset is Some {
                        InputMode::Password
                    } else {
                        InputMode::Username
                    },
                }
            }),
            r.wf(),
    {
        let preset_username: Option<String> = if config.remember_username {
            cached_username
        } else {
            None
        };
        let input_mode = match config.focus_behaviour {
            FocusBehaviour::NoFocus => InputMode::Normal,
            FocusBehaviour::Environment => InputMode::Switcher,
            FocusBehaviour::Username => InputMode::Username,
            FocusBehaviour::Password => InputMode::Password,
            FocusBehaviour::FirstNonCached => match &preset_username {
                Some(_) => InputMode::Password,
                None => InputMode::Username,
            },
        };
        let username = match preset_username {
            Some(u) => u,
            None => String::new(),
        };
        LoginForm {
            preview,
            environments,
            selected_env: 0,
            username,
            password: String::new(),
            input_mode,
            status_message: None,
            config,
            send_redraw_channel: None,
        }
    }

    /// Attach the channel to the render side; from here on every change
    /// queues a redraw request.
    pub fn attach_redraw_channel(&mut self)
        ensures
            spec_same_but_status(*old(self), *final(self)),
            final(self).status_message == old(self).status_message,
            final(self).send_redraw_channel matches Some(q) && q@ == Seq::<UIThreadRequest>::empty(),
    {
        self.send_redraw_channel = Some(Vec::new());
    }

    /// Hand the queued requests to the render side, leaving the queue empty.
    pub fn take_pending_requests(&mut self) -> (r: Vec<UIThreadRequest>)
        ensures
            spec_same_but_status(*old(self), *final(self)),
            final(self).status_message == old(self).status_message,
            old(self).send_redraw_channel is None ==> r@ == Seq::<UIThreadRequest>::empty() && final(self).send_redraw_channel is None,
            old(self).send_redraw_channel matches Some(q) ==> r@ == q@ && (final(self).send_redraw_channel matches Some(q2) && q2@ == Seq::<UIThreadRequest>::empty()),
    {
        match &mut self.send_redraw_channel {
            Some(q) => {
                let mut taken: Vec<UIThreadRequest> = Vec::new();
                core::mem::swap(q, &mut taken);
                taken
            },
            None => Vec::new(),
        }
    }

    /// Queue a redraw request — when the channel is attached; a form without
    /// one (or whose render side is gone) changes nothing and never fails.
    pub fn try_redraw(&mut self)
        ensures
            spec_same_but_status(*old(self), *final(self)),
            final(self).status_message == old(self).status_message,
            spec_channel_after_send(
                old(self).send_redraw_channel,
                final(self).send_redraw_channel,
                UIThreadRequest::Redraw,
            ),
    {
        match &mut self.send_redraw_channel {
            Some(q) => {
                q.push(UIThreadRequest::Redraw);
            },
            None => {},
        }
    }

    /// Show a status message, replacing any previous one.
    pub fn set_status_message(&mut self, status: StatusMessage)
        ensures
            spec_same_but_status(*old(self), *final(self)),
            final(self).status_message == Some(status),
            spec_channel_after_send(
                old(self).send_redraw_channel,
                final(self).send_redraw_channel,
                UIThreadRequest::Redraw,
            ),
    {
        self.status_message = Some(status);
        self.try_redraw();
    }

    /// Clear the status line.
    pub fn clear_status_message(&mut self)
        ensures
            spec_clear_transition(*old(self), *final(self)),
    {
        self.status_message = None;
        self.try_redraw();
    }

    /// Begin a login attempt: read the buffers and resolve the chosen session
    /// kind. With nothing to choose from, the attempt ends here — no
    /// credentials leave the form, so the authentication collaborator is
    /// never called — and the form shows that no environment was selected.
    /// Otherwise the form shows that authentication is under way and the
    /// request carries what the collaborator is to be called with.
    pub fn attempt_login(&mut self) -> (r: Option<LoginRequest>)
        requires
            old(self).wf(),
        ensures
            final(self).wf(),
            spec_same_but_status(*old(self), *final(self)),
            spec_channel_after_send(
                old(self).send_redraw_channel,
                final(self).send_redraw_channel,
                UIThreadRequest::Redraw,
            ),
            old(self).environments@.len() == 0 ==> r is None && final(self).status_message == Some(
                StatusMessage::Error(ErrorStatusMessage::NoGraphicalEnvironment),
            ),
            old(self).environments@.len() > 0 ==> (r matches Some(req) && req.username == old(self).username && req.password == old(self).password && req.environment == old(self).environments@[old(self).selected_env as int].1 && final(self).status_message == Some(
                StatusMessage::Info(InfoStatusMessage::Authenticating),
            )),
    {
        if self.environments.len() == 0 {
            self.set_status_message(
                StatusMessage::Error(ErrorStatusMessage::NoGraphicalEnvironment),
            );
            None
        } else {
            let username = self.username.clone();
            let password = self.password.clone();
            let environment = self.environments[self.selected_env].1.duplicate();
            self.set_status_message(StatusMessage::Info(InfoStatusMessage::Authenticating));
            Some(LoginRequest { username, password, environment })
        }
    }

    /// Take the authentication collaborator's verdict. A rejection shows the
    /// reason verbatim, clears the password buffer and only it — the username
    /// is retained — and ends the attempt. An acceptance shows that the
    /// session is starting and hands back the identity to launch, with the
    /// username to persist when remembering is on.
    pub fn handle_auth_result(&mut self, result: Result<UserInfo, String>) -> (r: Option<
        AuthAccepted,
    >)
        ensures
            final(self).wf() == old(self).wf(),
            final(self).preview == old(self).preview,
            final(self).environments == old(self).environments,
            final(self).selected_env == old(self).selected_env,
            final(self).input_mode == old(self).input_mode,
            final(self).config == old(self).config,
            final(self).username == old(self).username,
            spec_channel_after_send(
                old(self).send_redraw_channel,
                final(self).send_redraw_channel,
                UIThreadRequest::Redraw,
            ),
            result matches Err(reason) ==> r is None && final(self).status_message == Some(
                StatusMessage::Error(ErrorStatusMessage::AuthenticationError(reason)),
            ) && final(self).password@ == Seq::<char>::empty(),
            result matches Ok(user) ==> (r matches Some(acc) && acc.user == user && final(self).password == old(self).password && final(self).status_message == Some(
                StatusMessage::Info(InfoStatusMessage::LoggingIn),
            ) && (old(self).config.remember_username ==> acc.persist_username == Some(
                old(self).username,
            )) && (!old(self).config.remember_username ==> acc.persist_username is None)),
    {
        match result {
            Err(reason) => {
                self.set_status_message(
                    StatusMessage::Error(ErrorStatusMessage::AuthenticationError(reason)),
                );
                self.password = String::new();
                None
            },
            Ok(user) => {
                let persist_username: Option<String> = if self.config.remember_username {
                    Some(self.username.clone())
                } else {
                    None
                };
                self.set_status_message(StatusMessage::Info(InfoStatusMessage::LoggingIn));
                Some(AuthAccepted { user, persist_username })
            },
        }
    }

    /// Take the session launcher's verdict, once the session has ended. A
    /// failed start shows that the environment failed to start; a completed
    /// session clears the status line — the form is ready for another
    /// attempt.
    pub fn handle_start_result(&mut self, result: Result<(), EnvironmentStartError>)
        ensures
            spec_same_but_status(*old(self), *final(self)),
            spec_channel_after_send(
                old(self).send_redraw_channel,
                final(self).send_redraw_channel,
                UIThreadRequest::Redraw,
            ),
            result is Err ==> final(self).status_message == Some(
                StatusMessage::Error(ErrorStatusMessage::FailedGraphicalEnvironment),
            ),
            result is Ok ==> final(self).status_message is None,
    {
        match result {
            Err(_) => {
                self.set_status_message(
                    StatusMessage::Error(ErrorStatusMessage::FailedGraphicalEnvironment),
                );
            },
            Ok(()) => {
                self.clear_status_message();
            },
        }
    }

    /// Dispatch one key press: Enter on the password field submits (or plays
    /// the preview sequence), Enter, Down and Tab advance the focus, Up and
    /// Shift+Tab reverse it, Esc at idle stops the render loop only in
    /// preview mode and otherwise forces idle; every other key goes to the
    /// widget the current mode owns.
    pub fn handle_key(&mut self, key: Key) -> (r: KeyOutcome)
        requires
            old(self).wf(),
        ensures
            final(self).wf(),
            spec_same_but_input(*old(self), *final(self)),
            key == Key::Enter && old(self).input_mode is Password ==> *final(self) == *old(self)
                && (old(self).preview ==> r == KeyOutcome::PreviewLoginSequence) && (!old(self).preview ==> r == KeyOutcome::Submit),
            ((key == Key::Enter && !(old(self).input_mode is Password)) || key == Key::Down || key
                == Key::Tab) ==> r == KeyOutcome::Handled && *final(self) == (LoginForm {
                input_mode: old(self).input_mode.spec_next(),
                ..*old(self)
            }),
            (key == Key::Up || key == Key::BackTab) ==> r == KeyOutcome::Handled && *final(self)
                == (LoginForm { input_mode: old(self).input_mode.spec_prev(), ..*old(self) }),
            key == Key::Esc && old(self).input_mode is Normal ==> *final(self) == *old(self) && (
            old(self).preview ==> r == KeyOutcome::Stop) && (!old(self).preview ==> r
                == KeyOutcome::Handled),
            key == Key::Esc && !(old(self).input_mode is Normal) ==> r == KeyOutcome::Handled
                && *final(self) == (LoginForm { input_mode: InputMode::Normal, ..*old(self) }),
            key matches Key::Char(c) ==> r == KeyOutcome::Handled && (match old(self).input_mode {
                InputMode::Username => *final(self) == (LoginForm {
                    username: final(self).username,
                    ..*old(self)
                }) && final(self).username@ == old(self).username@.push(c),
                InputMode::Password => *final(self) == (LoginForm {
                    password: final(self).password,
                    ..*old(self)
                }) && final(self).password@ == old(self).password@.push(c),
                _ => *final(self) == *old(self),
            }),
            key == Key::Backspace ==> r == KeyOutcome::Handled && (match old(self).input_mode {
                InputMode::Username => *final(self) == (LoginForm {
                    username: final(self).username,
                    ..*old(self)
                }) && (old(self).username@.len() > 0 ==> final(self).username@ == old(self).username@.drop_last()) && (old(self).username@.len() == 0 ==> final(self).username@ == old(self).username@),
                InputMode::Password => *final(self) == (LoginForm {
                    password: final(self).password,
                    ..*old(self)
                }) && (old(self).password@.len() > 0 ==> final(self).password@ == old(self).password@.drop_last()) && (old(self).password@.len() == 0 ==> final(self).password@ == old(self).password@),
                _ => *final(self) == *old(self),
            }),
            (key == Key::Left || key == Key::Right) ==> r == KeyOutcome::Handled && (match old(self).input_mode {
                InputMode::Switcher => *final(self) == (LoginForm {
                    selected_env: final(self).selected_env,
                    ..*old(self)
                }) && final(self).selected_env == (if key == Key::Left {
                    if old(self).selected_env > 0 {
                        (old(self).selected_env - 1) as usize
                    } else {
                        0
                    }
                } else {
                    if old(self).selected_env + 1 < old(self).environments@.len() {
                        (old(self).selected_env + 1) as usize
                    } else {
                        old(self).selected_env
                    }
                }),
                _ => *final(self) == *old(self),
            }),
    {
        match (key, self.input_mode) {
            (Key::Enter, InputMode::Password) => {
                if self.preview {
                    KeyOutcome::PreviewLoginSequence
                } else {
                    KeyOutcome::Submit
                }
            },
            (Key::Enter, _) | (Key::Down, _) | (Key::Tab, _) => {
                self.input_mode.next();
                KeyOutcome::Handled
            },
            (Key::Up, _) | (Key::BackTab, _) => {
                self.input_mode.prev();
                KeyOutcome::Handled
            },
            (Key::Esc, InputMode::Normal) => {
                if self.preview {
                    KeyOutcome::Stop
                } else {
                    KeyOutcome::Handled
                }
            },
            (Key::Esc, _) => {
                self.input_mode = InputMode::Normal;
                KeyOutcome::Handled
            },
            (Key::Char(c), InputMode::Username) => {
                self.username.push(c);
                KeyOutcome::Handled
            },
            (Key::Char(c), InputMode::Password) => {
                self.password.push(c);
                KeyOutcome::Handled
            },
            (Key::Backspace, InputMode::Username) => {
                let _ = self.username.pop();
                KeyOutcome::Handled
            },
            (Key::Backspace, InputMode::Password) => {
                let _ = self.password.pop();
                KeyOutcome::Handled
            },
            (Key::Left, InputMode::Switcher) => {
                if self.selected_env > 0 {
                    self.selected_env = self.selected_env - 1;
                }
                KeyOutcome::Handled
            },
            (Key::Right, InputMode::Switcher) => {
                if self.environments.len() > 0 && self.selected_env < self.environments.len() - 1 {
                    self.selected_env = self.selected_env + 1;
                }
                KeyOutcome::Handled
            },
            (_, _) => KeyOutcome::Handled,
        }
    }
}

/// Law: clearing the status line twice in a row is equivalent to clearing it
/// once — the second clear leaves every field the form shows exactly as the
/// first left it.
pub proof fn lemma_clear_status_idempotent(orig: LoginForm, once: LoginForm, twice: LoginForm)
    requires
        spec_clear_transition(orig, once),
        spec_clear_transition(once, twice),
    ensures
        twice.status_message == once.status_message,
        spec_same_but_status(once, twice),
{
}

} // verus!
