//! The `use` command as a state machine. Each method takes the event that the
//! surrounding program observed and returns the next action for it to perform;
//! the session log brackets the whole invocation with one record.
use crate::activation::{activate, directive_text, write_outcome, ActivationError, ActivationPlan};
use crate::requirement::{valid_requirement, ParseError, VersionRequirement};
use crate::resolve::{any_admitted, is_highest, resolve, ResolveError};
use crate::session::{closed, opened, ActivityKind, ActivityRecord, Session};
use crate::version::ConcreteVersion;
use vstd::prelude::*;
use vstd::string::*;

verus! {

/// What the user asked for.
pub struct Invocation {
    /// The version requirement, as typed.
    pub version: String,
    /// Select the version for the current project instead of the shell.
    pub save: bool,
    /// Show the command's help instead.
    pub help: bool,
    /// The activation side-channel file supplied by the shell integration.
    pub postscript: Option<String>,
}

/// Why an invocation failed.
#[derive(Debug, Clone, PartialEq, Eq)]
pub enum Failure {
    Parse(ParseError),
    Resolve(ResolveError),
    Activation(ActivationError),
    /// Saving the selection to the project has no implementation yet.
    Unimplemented,
}

/// Where the command stands. Persisting a selection is not a resting point:
/// it ends at once in the `Unimplemented` failure.
#[derive(Clone, Copy, Debug, PartialEq, Eq, Structural)]
pub enum Stage {
    Idle,
    HelpRequested,
    Resolving,
    Installing,
    Activating,
    Done,
    Failed,
}

enum UseState {
    Idle,
    HelpRequested,
    Resolving { requirement: VersionRequirement, save: bool, postscript: Option<String> },
    Installing { version: ConcreteVersion, save: bool, postscript: Option<String> },
    Activating,
    Done,
    Failed(Failure),
}

/// What the surrounding program is to do next.
#[derive(Debug)]
pub enum Action {
    /// Print the help text, then report `help_shown`.
    ShowHelp,
    /// List the versions that are installed or installable, then report
    /// `versions_available` or `collaborator_failed`.
    ListVersions,
    /// Install (or find cached) this version, then report `installed` or
    /// `collaborator_failed`.
    Install(ConcreteVersion),
    /// Replace the file's contents as planned, then report `written`.
    Write(ActivationPlan),
    /// Exit with this code; a failure's message is in `failure_message`.
    Finish(i32),
}

/// The user-facing text of a failure.
pub open spec fn failure_text(f: Failure) -> Seq<char> {
    match f {
        Failure::Parse(ParseError::InvalidRequirement(s)) => "invalid version requirement: "@ + s@,
        Failure::Resolve(ResolveError::NoMatchingVersion) => "no available version matches the requirement"@,
        Failure::Resolve(ResolveError::InstallFailed(m)) => "could not install the version: "@ + m@,
        Failure::Activation(ActivationError::NoActivationChannel) =>
            "shell integration is not installed: there is no activation channel"@,
        Failure::Activation(ActivationError::WriteFailed(m)) => "could not write the activation file: "@ + m@,
        Failure::Unimplemented => "not yet implemented; in the meantime you can modify your package.json."@,
    }
}

/// The user-facing text of a failure.
pub fn message_of(f: &Failure) -> (r: String)
    ensures
        r@ == failure_text(*f),
{
    match f {
        Failure::Parse(ParseError::InvalidRequirement(s)) => {
            String::from_str("invalid version requirement: ").concat(s.as_str())
        },
        Failure::Resolve(ResolveError::NoMatchingVersion) => {
            String::from_str("no available version matches the requirement")
        },
        Failure::Resolve(ResolveError::InstallFailed(m)) => {
            String::from_str("could not install the version: ").concat(m.as_str())
        },
        Failure::Activation(ActivationError::NoActivationChannel) => {
            String::from_str("shell integration is not installed: there is no activation channel")
        },
        Failure::Activation(ActivationError::WriteFailed(m)) => {
            String::from_str("could not write the activation file: ").concat(m.as_str())
        },
        Failure::Unimplemented => {
            String::from_str("not yet implemented; in the meantime you can modify your package.json.")
        },
    }
}

/// The `use` command and the ghost record of when it began and ended.
pub struct UseCommand {
    state: UseState,
    log_before: Ghost<Seq<ActivityRecord>>,
    started: Ghost<u64>,
    ended: Ghost<u64>,
    save_mode: Ghost<bool>,
}

/// The exit code of a finished stage: zero on success only.
pub open spec fn exit_code_of(stage: Stage) -> i32 {
    if stage == Stage::Done {
        0
    } else {
        1
    }
}

impl UseCommand {
    pub closed spec fn stage(&self) -> Stage {
        match self.state {
            UseState::Idle => Stage::Idle,
            UseState::HelpRequested => Stage::HelpRequested,
            UseState::Resolving { .. } => Stage::Resolving,
            UseState::Installing { .. } => Stage::Installing,
            UseState::Activating => Stage::Activating,
            UseState::Done => Stage::Done,
            UseState::Failed(_) => Stage::Failed,
        }
    }

    pub open spec fn is_active(&self) -> bool {
        self.stage() == Stage::HelpRequested || self.stage() == Stage::Resolving || self.stage()
            == Stage::Installing || self.stage() == Stage::Activating
    }

    pub open spec fn is_finished(&self) -> bool {
        self.stage() == Stage::Done || self.stage() == Stage::Failed
    }

    /// The failure the command ended in, if it failed.
    pub closed spec fn failure(&self) -> Option<Failure> {
        match self.state {
            UseState::Failed(f) => Some(f),
            _ => None,
        }
    }

    /// The requirement being resolved.
    pub closed spec fn requirement(&self) -> VersionRequirement
        recommends
            self.stage() == Stage::Resolving,
    {
        match self.state {
            UseState::Resolving { requirement, .. } => requirement,
            _ => arbitrary(),
        }
    }

    /// The version chosen for installation.
    pub closed spec fn chosen(&self) -> ConcreteVersion
        recommends
            self.stage() == Stage::Installing,
    {
        match self.state {
            UseState::Installing { version, .. } => version,
            _ => arbitrary(),
        }
    }

    /// Whether the invocation asked to save the selection to the project.
    pub closed spec fn saving(&self) -> bool {
        match self.state {
            UseState::Resolving { save, .. } => save,
            UseState::Installing { save, .. } => save,
            _ => false,
        }
    }

    /// The activation side-channel path the invocation supplied.
    pub closed spec fn channel(&self) -> Option<String> {
        match self.state {
            UseState::Resolving { postscript, .. } => postscript,
            UseState::Installing { postscript, .. } => postscript,
            _ => None,
        }
    }

    /// The session log as it stood before the invocation began.
    pub closed spec fn log_before(&self) -> Seq<ActivityRecord> {
        self.log_before@
    }

    /// The invocation's own activity record, in its current state.
    pub closed spec fn own_record(&self) -> ActivityRecord {
        if self.is_finished() {
            closed(opened(ActivityKind::Use, self.started@), exit_code_of(self.stage()), self.ended@)
        } else {
            opened(ActivityKind::Use, self.started@)
        }
    }

    /// Once begun, the session log is the log before the invocation followed
    /// by the invocation's one record: open while the command runs, closed with
    /// its exit code once it has finished.
    pub open spec fn inv(&self, session: &Session) -> bool {
        &&& self.stage() != Stage::Idle ==> session.log() == self.log_before().push(self.own_record())
        &&& (self.stage() == Stage::Resolving || self.stage() == Stage::Installing) ==> self.saving()
            == self.save_requested()
        &&& self.save_requested() ==> self.stage() != Stage::HelpRequested && self.stage()
            != Stage::Activating && self.stage() != Stage::Done
    }

    /// Whether the invocation asked, without asking for help, to save the
    /// selection to the project.
    pub closed spec fn save_requested(&self) -> bool {
        self.save_mode@
    }

    /// A command that has not begun.
    pub fn new() -> (r: UseCommand)
        ensures
            r.stage() == Stage::Idle,
            !r.save_requested(),
    {
        UseCommand {
            state: UseState::Idle,
            log_before: Ghost(Seq::empty()),
            started: Ghost(0),
            ended: Ghost(0),
            save_mode: Ghost(false),
        }
    }

    /// Begins the invocation: opens its activity record, then asks for help,
    /// fails on a requirement that does not parse, or starts resolving it.
    pub fn start(&mut self, session: &mut Session, invocation: Invocation, now: u64) -> (r: Action)
        requires
            old(self).stage() == Stage::Idle,
        ensures
            final(self).inv(final(session)),
            final(self).log_before() == old(session).log(),
            final(self).save_requested() == (invocation.save && !invocation.help),
            invocation.help ==> final(self).stage() == Stage::HelpRequested && r is ShowHelp,
            !invocation.help && !valid_requirement(invocation.version@) ==> {
                &&& final(self).stage() == Stage::Failed
                &&& final(self).failure() matches Some(
                    Failure::Parse(ParseError::InvalidRequirement(s)),
                ) && s@ == invocation.version@
                &&& r == Action::Finish(1)
            },
            !invocation.help && valid_requirement(invocation.version@) ==> {
                &&& final(self).stage() == Stage::Resolving
                &&& final(self).requirement().source() == invocation.version@
                &&& final(self).saving() == invocation.save
                &&& final(self).channel() == invocation.postscript
                &&& r is ListVersions
            },
    {
        session.add_event_start(ActivityKind::Use, now);
        self.log_before = Ghost(old(session).log());
        self.started = Ghost(now);
        let save_mode = invocation.save && !invocation.help;
        self.save_mode = Ghost(save_mode);
        if invocation.help {
            self.state = UseState::HelpRequested;
            return Action::ShowHelp;
        }
        match VersionRequirement::parse(invocation.version.as_str()) {
            Ok(requirement) => {
                self.state = UseState::Resolving {
                    requirement,
                    save: invocation.save,
                    postscript: invocation.postscript,
                };
                Action::ListVersions
            },
            Err(e) => {
                assert(session.log() == self.log_before().push(self.own_record()));
                self.finish(session, Some(Failure::Parse(e)), now)
            },
        }
    }

    /// The help text was shown: the invocation is done.
    pub fn help_shown(&mut self, session: &mut Session, now: u64) -> (r: Action)
        requires
            old(self).stage() == Stage::HelpRequested,
            old(self).inv(old(session)),
        ensures
            final(self).stage() == Stage::Done,
            final(self).log_before() == old(self).log_before(),
            final(self).save_requested() == old(self).save_requested(),
            final(self).inv(final(session)),
            r == Action::Finish(0),
    {
        self.finish(session, None, now)
    }

    /// The collaborator listed the available versions: choose the highest one
    /// that satisfies the requirement and have it installed, or fail with
    /// `NoMatchingVersion` when none does.
    pub fn versions_available(&mut self, session: &mut Session, available: Vec<ConcreteVersion>, now: u64) -> (r: Action)
        requires
            old(self).stage() == Stage::Resolving,
            old(self).inv(old(session)),
        ensures
            final(self).log_before() == old(self).log_before(),
            final(self).save_requested() == old(self).save_requested(),
            final(self).inv(final(session)),
            any_admitted(&old(self).requirement(), available@) ==> {
                &&& final(self).stage() == Stage::Installing
                &&& exists|i: int|
                    is_highest(&old(self).requirement(), available@, i) && final(self).chosen()
                        == available@[i]
                &&& final(self).saving() == old(self).saving()
                &&& final(self).channel() == old(self).channel()
                &&& r matches Action::Install(v) && v@ == final(self).chosen()@
            },
            !any_admitted(&old(self).requirement(), available@) ==> {
                &&& final(self).stage() == Stage::Failed
                &&& final(self).failure() == Some(Failure::Resolve(ResolveError::NoMatchingVersion))
                &&& r == Action::Finish(1)
            },
    {
        let mut state = UseState::Idle;
        std::mem::swap(&mut self.state, &mut state);
        match state {
            UseState::Resolving { requirement, save, postscript } => {
                match resolve(&requirement, available) {
                    Ok(version) => {
                        let request = version.copied();
                        self.state = UseState::Installing { version, save, postscript };
                        Action::Install(request)
                    },
                    Err(e) => {
                        self.state = UseState::Resolving { requirement, save, postscript };
                        self.finish(session, Some(Failure::Resolve(e)), now)
                    },
                }
            },
            // excluded by the precondition on the stage
            _ => {
                self.state = state;
                Action::Finish(1)
            },
        }
    }

    /// The collaborator failed while listing or installing: the failure is
    /// reported as it came.
    pub fn collaborator_failed(&mut self, session: &mut Session, message: String, now: u64) -> (r: Action)
        requires
            old(self).stage() == Stage::Resolving || old(self).stage() == Stage::Installing,
            old(self).inv(old(session)),
        ensures
            final(self).stage() == Stage::Failed,
            final(self).failure() == Some(Failure::Resolve(ResolveError::InstallFailed(message))),
            final(self).log_before() == old(self).log_before(),
            final(self).save_requested() == old(self).save_requested(),
            final(self).inv(final(session)),
            r == Action::Finish(1),
    {
        self.finish(session, Some(Failure::Resolve(ResolveError::InstallFailed(message))), now)
    }

    /// The chosen version is installed. Saving to the project has no
    /// implementation and fails as `Unimplemented`; otherwise the version is
    /// activated through the side channel, which must have been supplied.
    pub fn installed(&mut self, session: &mut Session, now: u64) -> (r: Action)
        requires
            old(self).stage() == Stage::Installing,
            old(self).inv(old(session)),
        ensures
            final(self).log_before() == old(self).log_before(),
            final(self).save_requested() == old(self).save_requested(),
            final(self).inv(final(session)),
            old(self).saving() ==> {
                &&& final(self).stage() == Stage::Failed
                &&& final(self).failure() == Some(Failure::Unimplemented)
                &&& r == Action::Finish(1)
            },
            !old(self).saving() && old(self).channel() is None ==> {
                &&& final(self).stage() == Stage::Failed
                &&& final(self).failure() == Some(
                    Failure::Activation(ActivationError::NoActivationChannel),
                )
                &&& r == Action::Finish(1)
            },
            !old(self).saving() && old(self).channel() is Some ==> {
                &&& final(self).stage() == Stage::Activating
                &&& r matches Action::Write(plan) && Some(plan.path) == old(self).channel()
                    && plan.contents@ == directive_text(old(self).chosen()@)
            },
    {
        let mut state = UseState::Idle;
        std::mem::swap(&mut self.state, &mut state);
        match state {
            UseState::Installing { version, save, postscript } => {
                if save {
                    self.state = UseState::Installing { version, save, postscript };
                    return self.finish(session, Some(Failure::Unimplemented), now);
                }
                match activate(&version, postscript) {
                    Ok(plan) => {
                        self.state = UseState::Activating;
                        Action::Write(plan)
                    },
                    Err(e) => {
                        self.state = UseState::Installing { version, save, postscript: None };
                        self.finish(session, Some(Failure::Activation(e)), now)
                    },
                }
            },
            // excluded by the precondition on the stage
            _ => {
                self.state = state;
                Action::Finish(1)
            },
        }
    }

    /// The side-channel file was written, or the write failed with a message.
    pub fn written(&mut self, session: &mut Session, outcome: Result<(), String>, now: u64) -> (r: Action)
        requires
            old(self).stage() == Stage::Activating,
            old(self).inv(old(session)),
        ensures
            final(self).log_before() == old(self).log_before(),
            final(self).save_requested() == old(self).save_requested(),
            final(self).inv(final(session)),
            outcome is Ok ==> final(self).stage() == Stage::Done && r == Action::Finish(0),
            outcome matches Err(m) ==> {
                &&& final(self).stage() == Stage::Failed
                &&& final(self).failure() == Some(Failure::Activation(ActivationError::WriteFailed(m)))
                &&& r == Action::Finish(1)
            },
    {
        match write_outcome(outcome) {
            Ok(()) => self.finish(session, None, now),
            Err(e) => self.finish(session, Some(Failure::Activation(e)), now),
        }
    }

    /// The user-facing message of the failure the command ended in.
    pub fn failure_message(&self) -> (r: Option<String>)
        ensures
            self.failure() is None ==> r is None,
            self.failure() matches Some(f) ==> r matches Some(m) && m@ == failure_text(f),
    {
        match &self.state {
            UseState::Failed(f) => Some(message_of(f)),
            _ => None,
        }
    }

    /// Ends the invocation as `Done` (no failure) or in `failure`, closing its
    /// activity record with the exit code.
    fn finish(&mut self, session: &mut Session, failure: Option<Failure>, now: u64) -> (r: Action)
        requires
            !old(self).is_finished(),
            old(session).log() == old(self).log_before().push(old(self).own_record()),
            old(self).save_requested() ==> failure is Some,
        ensures
            final(self).stage() == (if failure is None { Stage::Done } else { Stage::Failed }),
            final(self).failure() == failure,
            final(self).log_before() == old(self).log_before(),
            final(self).save_requested() == old(self).save_requested(),
            final(self).inv(final(session)),
            r == Action::Finish(exit_code_of(final(self).stage())),
    {
        let code: i32 = if failure.is_none() { 0 } else { 1 };
        let closed_ok = session.add_event_end(ActivityKind::Use, code, now);
        assert(closed_ok);
        self.ended = Ghost(now);
        match failure {
            None => {
                self.state = UseState::Done;
            },
            Some(f) => {
                self.state = UseState::Failed(f);
            },
        }
        assert(session.log() =~= self.log_before().push(self.own_record()));
        Action::Finish(code)
    }
}

/// Every invocation, however it ends, adds exactly one activity record to the
/// session log, after the records that were there before it: a `Use` record
/// that was opened when the invocation began and is closed with its exit code.
pub proof fn lemma_invocation_bracketed(cmd: &UseCommand, session: &Session)
    requires
        cmd.inv(session),
        cmd.is_finished(),
    ensures
        session.log().len() == cmd.log_before().len() + 1,
        session.log().take(cmd.log_before().len() as int) == cmd.log_before(),
        session.log().last().kind == ActivityKind::Use,
        session.log().last().end is Some,
        session.log().last().exit_code == Some(exit_code_of(cmd.stage())),
{
    assert(session.log().take(cmd.log_before().len() as int) =~= cmd.log_before());
}

/// Saving to the project never succeeds: an invocation that asked for it ends
/// failed, with a nonzero exit code.
pub proof fn lemma_save_never_succeeds(cmd: &UseCommand, session: &Session)
    requires
        cmd.inv(session),
        cmd.is_finished(),
        cmd.save_requested(),
    ensures
        cmd.stage() == Stage::Failed,
        exit_code_of(cmd.stage()) != 0,
{
}

} // verus!
