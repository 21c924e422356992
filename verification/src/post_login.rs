//! The post-login side: which session kinds a scan of the session-discovery
//! directories offers, and the launcher state machine that runs one session —
//! set the environment, drop privileges in the child, spawn, register the
//! accounting record once the pid is real, wait, and always close the record
//! exactly once, whatever path leaves the launch.
//!
//! The launcher is driven step by step: each step consumes the outcome of the
//! previous outside action (a spawn, a wait, a record open) and hands back the
//! next action to perform. The decisions live here, verified; performing the
//! actions is the caller's edge work.

use vstd::prelude::*;
use vstd::string::StringExecFns;

use crate::env_variables::{
    env_pairs_view, init_environment, set_xdg_env, spec_init_env, spec_xdg_env,
};

verus! {

/// The chosen post-login program category: a windowing session started from a
/// startup script, a compositor session started from a launch script, or the
/// user's plain shell.
#[derive(Clone, PartialEq, Debug)]
pub enum PostLoginEnvironment {
    X { xinitrc_path: String },
    Wayland { script_path: String },
    Shell,
}

/// The launcher's failure vocabulary, one terminal error per way a launch can
/// fail. A non-zero exit of the session itself is not among them: that is a
/// recoverable, logged event.
#[derive(Clone, Copy, PartialEq, Eq, Structural, Debug)]
pub enum EnvironmentStartError {
    /// The compositor session could not be spawned.
    WaylandStartError,
    /// The windowing session's setup step failed.
    XSetupError,
    /// The windowing session could not be started.
    XStartEnvError,
    /// The plain shell could not be spawned.
    ShellStartError,
    /// Waiting for the windowing session failed after it started.
    WaitingForEnv,
}

/// Result of a successful authentication: the identity a session runs as.
#[derive(Clone, PartialEq, Debug)]
pub struct UserInfo {
    pub username: String,
    /// The home directory path.
    pub home: String,
    /// The login shell path.
    pub shell: String,
    pub uid: u32,
    pub gid: u32,
}

/// What a directory scan saw of one entry: its name and full path (None where
/// the form on disk is not valid text), and its permission bits (None where
/// the metadata could not be read).
#[derive(Clone, PartialEq, Debug)]
pub struct DirEntryInfo {
    pub file_name: Option<String>,
    pub path: Option<String>,
    pub mode: Option<u32>,
}

/// An entry becomes a session offer when its name and path are readable text
/// and it is executable; unreadable metadata is forgiven, a plainly
/// non-executable entry is not.
pub open spec fn spec_entry_kept(e: DirEntryInfo) -> bool {
    &&& e.file_name is Some
    &&& e.path is Some
    &&& (e.mode is Some ==> e.mode.unwrap() & 0o111 != 0)
}

pub open spec fn spec_env_entry(e: DirEntryInfo, wayland: bool) -> (String, PostLoginEnvironment) {
    (
        e.file_name.unwrap(),
        if wayland {
            PostLoginEnvironment::Wayland { script_path: e.path.unwrap() }
        } else {
            PostLoginEnvironment::X { xinitrc_path: e.path.unwrap() }
        },
    )
}

/// The session offers a scan of one directory yields, in scan order.
pub open spec fn spec_envs_from(entries: Seq<DirEntryInfo>, wayland: bool) -> Seq<
    (String, PostLoginEnvironment),
>
    decreases entries.len(),
{
    if entries.len() == 0 {
        Seq::empty()
    } else {
        spec_envs_from(entries.drop_last(), wayland) + if spec_entry_kept(entries.last()) {
            seq![spec_env_entry(entries.last(), wayland)]
        } else {
            Seq::empty()
        }
    }
}

fn push_envs_from(
    envs: &mut Vec<(String, PostLoginEnvironment)>,
    entries: &Vec<DirEntryInfo>,
    wayland: bool,
)
    ensures
        final(envs)@ == old(envs)@ + spec_envs_from(entries@, wayland),
{
    let mut i: usize = 0;
    while i < entries.len()
        invariant
            0 <= i <= entries@.len(),
            envs@ == old(envs)@ + spec_envs_from(entries@.take(i as int), wayland),
        decreases entries@.len() - i,
    {
        let e = &entries[i];
        let executable = match &e.mode {
            Some(mode) => *mode & 0o111 != 0,
            None => true,
        };
        if executable {
            match (&e.file_name, &e.path) {
                (Some(name), Some(path)) => {
                    let entry = if wayland {
                        PostLoginEnvironment::Wayland { script_path: path.clone() }
                    } else {
                        PostLoginEnvironment::X { xinitrc_path: path.clone() }
                    };
                    envs.push((name.clone(), entry));
                },
                _ => {},
            }
        }
        proof {
            assert(entries@.take(i + 1).drop_last() =~= entries@.take(i as int));
            assert(entries@.take(i + 1).last() == entries@[i as int]);
            assert(envs@ =~= old(envs)@ + spec_envs_from(entries@.take(i + 1), wayland));
        }
        i += 1;
    }
    proof {
        assert(entries@.take(entries@.len() as int) =~= entries@);
    }
}

/// Turn what the two session-discovery scans saw into the offered list: every
/// executable windowing-session entry, then every executable
/// compositor-session entry, and — when nothing was discovered or the caller
/// asked for it — one implicit plain-shell entry, named distinctly.
pub fn get_envs(
    x_entries: &Vec<DirEntryInfo>,
    wayland_entries: &Vec<DirEntryInfo>,
    with_tty_shell: bool,
) -> (r: Vec<(String, PostLoginEnvironment)>)
    ensures
        ({
            let discovered = spec_envs_from(x_entries@, false) + spec_envs_from(
                wayland_entries@,
                true,
            );
            if discovered.len() == 0 || with_tty_shell {
                &&& r@.len() == discovered.len() + 1
                &&& r@.drop_last() == discovered
                &&& r@.last().0@ == "TTYSHELL"@
                &&& r@.last().1 is Shell
            } else {
                r@ == discovered
            }
        }),
{
    let mut envs: Vec<(String, PostLoginEnvironment)> = Vec::new();
    push_envs_from(&mut envs, x_entries, false);
    push_envs_from(&mut envs, wayland_entries, true);
    if envs.len() == 0 || with_tty_shell {
        envs.push((String::from_str("TTYSHELL"), PostLoginEnvironment::Shell));
        proof {
            assert(envs@.drop_last() =~= spec_envs_from(x_entries@, false) + spec_envs_from(
                wayland_entries@,
                true,
            ));
        }
    }
    envs
}

/// What the result of removing leading and trailing whitespace from a string
/// is; fixed by the characters alone.
pub uninterp spec fn trimmed_of(s: Seq<char>) -> Seq<char>;

/// Relies on str::trim: removes leading and trailing whitespace; the result
/// depends on the characters alone, and an empty string stays empty.
#[verifier::external_body]
fn trim_str(s: &str) -> (r: String)
    ensures
        r@ == trimmed_of(s@),
        s@.len() == 0 ==> r@.len() == 0,
{
    s.trim().to_owned()
}

/// How a wait for the session child ended: not at all, or with an exit status
/// and whatever diagnostic output the child wrote (None where that output was
/// not valid text — it is then only logged about, never surfaced).
#[derive(Clone, PartialEq, Debug)]
pub enum WaitOutcome {
    WaitFailed,
    Exited { success: bool, stderr: Option<String> },
}

/// The outcome of the previous outside action, fed back into the launcher.
#[derive(Clone, PartialEq, Debug)]
pub enum LaunchEvent {
    /// Start the launch.
    Begin,
    /// The environment variables have been applied.
    EnvReady,
    /// Whether the windowing session's setup step succeeded.
    XSetupResult(bool),
    /// The child's pid, or None when the spawn failed.
    SpawnResult(Option<u32>),
    /// The accounting record has been opened.
    RecordOpened,
    /// How the wait for the child ended.
    WaitResult(WaitOutcome),
    /// The accounting record has been closed.
    RecordClosed,
}

/// The next outside action the launcher asks for.
#[derive(PartialEq, Debug)]
pub enum LaunchAction {
    /// Apply these variables process-wide and change the working directory to
    /// the home (a failed directory change is logged, not fatal).
    SetEnvironment(Vec<(String, String)>),
    /// Perform the windowing session's setup step.
    SetupX,
    /// Start the windowing session from this startup script.
    SpawnX { xinitrc_path: String },
    /// Spawn the compositor launch script as the target user, with the
    /// privilege drop in the child and standard streams suppressed.
    SpawnWayland { script_path: String, username: String, uid: u32, gid: u32 },
    /// Spawn the user's shell as the target user, with the privilege drop in
    /// the child and standard streams connected to the terminal.
    SpawnShell { shell: String, username: String, uid: u32, gid: u32 },
    /// Open the accounting record for this session; the pid is real.
    OpenRecord { username: String, tty: u8, pid: u32 },
    /// Wait for the session child to exit.
    WaitChild,
    /// Close the accounting record.
    CloseRecord,
    /// The launch is over: its result, and a diagnostic warning to log when
    /// the session exited non-zero with output.
    Finish { result: Result<(), EnvironmentStartError>, warning: Option<String> },
}

/// Where the launcher stands between two actions.
#[derive(Clone, Copy, PartialEq, Eq, Structural, Debug)]
pub enum LaunchPhase {
    Ready,
    InitializingEnv,
    SettingUpX,
    Spawning,
    OpeningRecord,
    Waiting,
    ClosingRecord,
    Done,
}

/// The launcher for one session run: the chosen kind, the authenticated
/// identity, the terminal, and the progress of the run, with a count of the
/// accounting records opened and closed so far.
pub struct SessionLauncher {
    pub kind: PostLoginEnvironment,
    pub user: UserInfo,
    pub tty: u8,
    pub phase: LaunchPhase,
    /// The result to surface once the record is closed.
    pub pending_result: Result<(), EnvironmentStartError>,
    /// The warning to surface once the record is closed.
    pub pending_warning: Option<String>,
    pub records_opened: u32,
    pub records_closed: u32,
}

impl SessionLauncher {
    /// The record-keeping invariant: a record is open exactly between the
    /// record-open and record-close steps, and never more than one.
    pub open spec fn wf(self) -> bool {
        &&& (self.phase is Ready || self.phase is InitializingEnv || self.phase is SettingUpX
            || self.phase is Spawning || self.phase is OpeningRecord ==> self.records_opened == 0
            && self.records_closed == 0)
        &&& (self.phase is Waiting || self.phase is ClosingRecord ==> self.records_opened == 1
            && self.records_closed == 0)
        &&& (self.phase is Done ==> self.records_opened == self.records_closed
            && self.records_opened <= 1)
        &&& (self.phase is SettingUpX ==> self.kind is X)
    }

    /// Which event the launcher expects next, given where it stands.
    pub open spec fn spec_event_fits(self, event: LaunchEvent) -> bool {
        match event {
            LaunchEvent::Begin => self.phase is Ready,
            LaunchEvent::EnvReady => self.phase is InitializingEnv,
            LaunchEvent::XSetupResult(_) => self.phase is SettingUpX,
            LaunchEvent::SpawnResult(_) => self.phase is Spawning,
            LaunchEvent::RecordOpened => self.phase is OpeningRecord,
            LaunchEvent::WaitResult(_) => self.phase is Waiting,
            LaunchEvent::RecordClosed => self.phase is ClosingRecord,
        }
    }

    /// Runtime mirror of `spec_event_fits`, for a caller that must check
    /// before stepping.
    pub fn expects(&self, event: &LaunchEvent) -> (r: bool)
        ensures
            r == self.spec_event_fits(*event),
    {
        match event {
            LaunchEvent::Begin => matches!(self.phase, LaunchPhase::Ready),
            LaunchEvent::EnvReady => matches!(self.phase, LaunchPhase::InitializingEnv),
            LaunchEvent::XSetupResult(_) => matches!(self.phase, LaunchPhase::SettingUpX),
            LaunchEvent::SpawnResult(_) => matches!(self.phase, LaunchPhase::Spawning),
            LaunchEvent::RecordOpened => matches!(self.phase, LaunchPhase::OpeningRecord),
            LaunchEvent::WaitResult(_) => matches!(self.phase, LaunchPhase::Waiting),
            LaunchEvent::RecordClosed => matches!(self.phase, LaunchPhase::ClosingRecord),
        }
    }

    /// A launcher at the start of a run.
    pub fn new(kind: PostLoginEnvironment, user: UserInfo, tty: u8) -> (r: SessionLauncher)
        ensures
            r.kind == kind,
            r.user == user,
            r.tty == tty,
            r.phase is Ready,
            r.records_opened == 0,
            r.records_closed == 0,
            r.wf(),
    {
        SessionLauncher {
            kind,
            user,
            tty,
            phase: LaunchPhase::Ready,
            pending_result: Ok(()),
            pending_warning: None,
            records_opened: 0,
            records_closed: 0,
        }
    }

    /// One step of the launch: consume the outcome of the previous action and
    /// hand back the next one. The transition table is the contract; every
    /// path that opens the accounting record reaches the close step before it
    /// finishes.
    pub fn step(&mut self, event: LaunchEvent) -> (a: LaunchAction)
        requires
            old(self).wf(),
            old(self).spec_event_fits(event),
        ensures
            final(self).wf(),
            final(self).kind == old(self).kind,
            final(self).user == old(self).user,
            final(self).tty == old(self).tty,
            final(self).records_opened >= old(self).records_opened,
            final(self).records_closed >= old(self).records_closed,
            // Begin: hand out the whole variable set, then wait for it to be applied.
            event is Begin ==> final(self).phase is InitializingEnv && (a matches
                LaunchAction::SetEnvironment(env) && env_pairs_view(env@) == spec_init_env(
                old(self).user.username@,
                old(self).user.home@,
            ) + spec_xdg_env(old(self).user.uid as nat, old(self).user.home@, old(self).tty as nat)),
            // EnvReady: branch on the kind.
            event is EnvReady && old(self).kind is X ==> final(self).phase is SettingUpX && a
                == LaunchAction::SetupX,
            event is EnvReady ==> (old(self).kind matches PostLoginEnvironment::Wayland {
                script_path,
            } ==> final(self).phase is Spawning && a == (LaunchAction::SpawnWayland {
                script_path,
                username: old(self).user.username,
                uid: old(self).user.uid,
                gid: old(self).user.gid,
            })),
            event is EnvReady && old(self).kind is Shell ==> final(self).phase is Spawning && a
                == (LaunchAction::SpawnShell {
                shell: old(self).user.shell,
                username: old(self).user.username,
                uid: old(self).user.uid,
                gid: old(self).user.gid,
            }),
            // X setup: a failure ends the launch; no record was open.
            event matches LaunchEvent::XSetupResult(ok) ==> (ok ==> (old(self).kind matches
                PostLoginEnvironment::X { xinitrc_path } ==> final(self).phase is Spawning && a
                == (LaunchAction::SpawnX { xinitrc_path }))),
            event matches LaunchEvent::XSetupResult(ok) ==> (!ok ==> final(self).phase is Done && a
                == (LaunchAction::Finish {
                result: Err(EnvironmentStartError::XSetupError),
                warning: None,
            })),
            // Spawn: only a real pid opens the record; a failure ends the
            // launch with the kind-specific start error.
            event matches LaunchEvent::SpawnResult(p) ==> (p matches Some(pid) ==> final(self).phase
                is OpeningRecord && a == (LaunchAction::OpenRecord {
                username: old(self).user.username,
                tty: old(self).tty,
                pid,
            })),
            event matches LaunchEvent::SpawnResult(p) ==> (p is None ==> final(self).phase is Done
                && a == (LaunchAction::Finish {
                result: Err(
                    match old(self).kind {
                        PostLoginEnvironment::X { .. } => EnvironmentStartError::XStartEnvError,
                        PostLoginEnvironment::Wayland { .. } => EnvironmentStartError::WaylandStartError,
                        PostLoginEnvironment::Shell => EnvironmentStartError::ShellStartError,
                    },
                ),
                warning: None,
            })),
            // The record is open exactly from here ...
            event is RecordOpened ==> final(self).phase is Waiting && final(self).records_opened
                == old(self).records_opened + 1 && a == LaunchAction::WaitChild,
            // Wait: whatever came of it, the record is closed before the
            // launch finishes. A failed wait for a windowing session surfaces
            // WaitingForEnv; for the other kinds the launch still ends well.
            // A non-zero exit with non-blank diagnostic output becomes a
            // warning, never an error.
            event matches LaunchEvent::WaitResult(w) ==> final(self).phase is ClosingRecord && a
                == LaunchAction::CloseRecord && ({
                let res = final(self).pending_result;
                let warn = final(self).pending_warning;
                &&& (old(self).kind is X && w is WaitFailed ==> res == Err::<
                    (),
                    EnvironmentStartError,
                >(EnvironmentStartError::WaitingForEnv) && warn is None)
                &&& (old(self).kind is X && w is Exited ==> res == Ok::<(), EnvironmentStartError>(
                    (),
                ) && warn is None)
                &&& (!(old(self).kind is X) ==> res == Ok::<(), EnvironmentStartError>(()))
                &&& (!(old(self).kind is X) && w is WaitFailed ==> warn is None)
                &&& (w matches WaitOutcome::Exited { success, stderr } ==> (!(old(self).kind is X)
                    ==> {
                    &&& (success ==> warn is None)
                    &&& (!success ==> (stderr is None ==> warn is None))
                    &&& (!success ==> (stderr matches Some(s) ==> {
                        &&& (trimmed_of(s@).len() == 0 ==> warn is None)
                        &&& (trimmed_of(s@).len() != 0 ==> (warn matches Some(t) && t@
                            == trimmed_of(s@)))
                    }))
                }))
            }),
            // ... to here; then the launch reports what was pending.
            event is RecordClosed ==> final(self).phase is Done && final(self).records_closed
                == old(self).records_closed + 1 && a == (LaunchAction::Finish {
                result: old(self).pending_result,
                warning: old(self).pending_warning,
            }),
    {
        match event {
            LaunchEvent::Begin => {
                self.phase = LaunchPhase::InitializingEnv;
                let mut env = init_environment(
                    self.user.username.as_str(),
                    self.user.home.as_str(),
                    self.user.shell.as_str(),
                );
                let mut xdg = set_xdg_env(self.user.uid, self.user.home.as_str(), self.tty);
                env.append(&mut xdg);
                proof {
                    assert(env_pairs_view(env@) =~= spec_init_env(
                        self.user.username@,
                        self.user.home@,
                    ) + spec_xdg_env(self.user.uid as nat, self.user.home@, self.tty as nat));
                }
                LaunchAction::SetEnvironment(env)
            },
            LaunchEvent::EnvReady => {
                match &self.kind {
                    PostLoginEnvironment::X { .. } => {
                        self.phase = LaunchPhase::SettingUpX;
                        LaunchAction::SetupX
                    },
                    PostLoginEnvironment::Wayland { script_path } => {
                        self.phase = LaunchPhase::Spawning;
                        LaunchAction::SpawnWayland {
                            script_path: script_path.clone(),
                            username: self.user.username.clone(),
                            uid: self.user.uid,
                            gid: self.user.gid,
                        }
                    },
                    PostLoginEnvironment::Shell => {
                        self.phase = LaunchPhase::Spawning;
                        LaunchAction::SpawnShell {
                            shell: self.user.shell.clone(),
                            username: self.user.username.clone(),
                            uid: self.user.uid,
                            gid: self.user.gid,
                        }
                    },
                }
            },
            LaunchEvent::XSetupResult(ok) => {
                if ok {
                    match &self.kind {
                        PostLoginEnvironment::X { xinitrc_path } => {
                            let path = xinitrc_path.clone();
                            self.phase = LaunchPhase::Spawning;
                            LaunchAction::SpawnX { xinitrc_path: path }
                        },
                        _ => vstd::pervasive::unreached(),
                    }
                } else {
                    self.phase = LaunchPhase::Done;
                    LaunchAction::Finish {
                        result: Err(EnvironmentStartError::XSetupError),
                        warning: None,
                    }
                }
            },
            LaunchEvent::SpawnResult(spawned) => {
                match spawned {
                    Some(pid) => {
                        self.phase = LaunchPhase::OpeningRecord;
                        LaunchAction::OpenRecord {
                            username: self.user.username.clone(),
                            tty: self.tty,
                            pid,
                        }
                    },
                    None => {
                        let err = match &self.kind {
                            PostLoginEnvironment::X { .. } => EnvironmentStartError::XStartEnvError,
                            PostLoginEnvironment::Wayland {
                                ..
                            } => EnvironmentStartError::WaylandStartError,
                            PostLoginEnvironment::Shell => EnvironmentStartError::ShellStartError,
                        };
                        self.phase = LaunchPhase::Done;
                        LaunchAction::Finish { result: Err(err), warning: None }
                    },
                }
            },
            LaunchEvent::RecordOpened => {
                self.records_opened = self.records_opened + 1;
                self.phase = LaunchPhase::Waiting;
                LaunchAction::WaitChild
            },
            LaunchEvent::WaitResult(w) => {
                let is_x = matches!(&self.kind, PostLoginEnvironment::X { .. });
                let (res, warn): (Result<(), EnvironmentStartError>, Option<String>) = match w {
                    WaitOutcome::WaitFailed => {
                        if is_x {
                            (Err(EnvironmentStartError::WaitingForEnv), None)
                        } else {
                            (Ok(()), None)
                        }
                    },
                    WaitOutcome::Exited { success, stderr } => {
                        if is_x || success {
                            (Ok(()), None)
                        } else {
                            match stderr {
                                None => (Ok(()), None),
                                Some(s) => {
                                    let t = trim_str(s.as_str());
                                    if t.as_str().is_empty() {
                                        (Ok(()), None)
                                    } else {
                                        (Ok(()), Some(t))
                                    }
                                },
                            }
                        }
                    },
                };
                self.pending_result = res;
                self.pending_warning = warn;
                self.phase = LaunchPhase::ClosingRecord;
                LaunchAction::CloseRecord
            },
            LaunchEvent::RecordClosed => {
                self.records_closed = self.records_closed + 1;
                self.phase = LaunchPhase::Done;
                let mut warning: Option<String> = None;
                core::mem::swap(&mut warning, &mut self.pending_warning);
                LaunchAction::Finish { result: self.pending_result, warning }
            },
        }
    }
}

/// Law: once a launch is done, the accounting record was closed exactly as
/// often as it was opened — at most once, and once for every open, whichever
/// path ended the run.
pub proof fn lemma_records_balanced_when_done(l: SessionLauncher)
    requires
        l.wf(),
        l.phase is Done,
    ensures
        l.records_opened == l.records_closed,
        l.records_opened <= 1,
{
}

} // verus!
