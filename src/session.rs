//! The install and uninstall commands as a machine: each state says which
//! answer it awaits, and each answer gives the next state and the next step,
//! the lines to print and the one operation the caller performs.
use vstd::prelude::*;
use vstd::string::StringExecFns;
use crate::assoc::{
    delete_key, delete_key_text, ext_token, ext_token_text, handler_path,
    n_deletes, n_writes, strip_verbatim, write_data, write_data_text, write_key, write_key_text,
};
use crate::pathext::{
    add_spec, add_token, contains_token, has_token, lemma_add_token_present,
    lemma_remove_token_leaves_none, remove_spec, remove_token, split_spec, split_tokens, valid_token,
};

verus! {

/// The command to run.
#[derive(Debug, Clone, Copy, PartialEq, Eq, Structural)]
pub enum Args {
    Install { amend_pathext: bool },
    Uninstall,
}

/// The kind of a failed operation, as far as the decisions read it.
#[derive(Debug, Clone, Copy, PartialEq, Eq, Structural)]
pub enum IoKind {
    NotFound,
    PermissionDenied,
    Other,
}

impl Args {
    /// The command named by a subcommand and its flag; `None` for any other
    /// name.
    pub fn from_parts(name: &str, amend_pathext: bool) -> (r: Option<Args>)
        ensures
            name@ == "install"@ ==> r == Some(Args::Install { amend_pathext }),
            name@ == "uninstall"@ ==> r == Some(Args::Uninstall),
            name@ != "install"@ && name@ != "uninstall"@ ==> r is None,
    {
        proof {
            reveal_strlit("install");
            reveal_strlit("uninstall");
            assert("install"@.len() != "uninstall"@.len());
        }
        let given = String::from_str(name);
        if given == String::from_str("install") {
            Some(Args::Install { amend_pathext })
        } else if given == String::from_str("uninstall") {
            Some(Args::Uninstall)
        } else {
            None
        }
    }
}

/// Who is to blame for an error: the user's setup, or the system.
#[derive(Debug, Clone, Copy, PartialEq, Eq, Structural)]
pub enum Blame {
    Human,
    Internal,
}

/// Why a command failed.
#[derive(Debug)]
pub enum AssocError {
    /// The launcher is not beside the running program.
    LauncherMissing { path: String },
    /// The registry refused a write of the association.
    AccessDenied { detail: String },
    /// Any other failed operation, passed on as it came.
    Io { kind: IoKind, detail: String },
}

/// An error as the contracts see it.
pub enum AssocErrorV {
    LauncherMissing { path: Seq<char> },
    AccessDenied { detail: Seq<char> },
    Io { kind: IoKind, detail: Seq<char> },
}

impl View for AssocError {
    type V = AssocErrorV;

    open spec fn view(&self) -> AssocErrorV {
        match self {
            AssocError::LauncherMissing { path } => AssocErrorV::LauncherMissing { path: path@ },
            AssocError::AccessDenied { detail } => AssocErrorV::AccessDenied { detail: detail@ },
            AssocError::Io { kind, detail } => AssocErrorV::Io { kind: *kind, detail: detail@ },
        }
    }
}

impl AssocError {
    pub open spec fn blame_spec(&self) -> Blame {
        match self {
            AssocError::Io { .. } => Blame::Internal,
            _ => Blame::Human,
        }
    }

    /// A missing launcher and a refused write are the user's to mend.
    pub fn blame(&self) -> (r: Blame)
        ensures
            r == self.blame_spec(),
    {
        match self {
            AssocError::Io { .. } => Blame::Internal,
            _ => Blame::Human,
        }
    }
}

/// The answer to the last operation.
pub enum Event {
    /// It succeeded.
    Done,
    /// It failed.
    Failed { kind: IoKind, detail: String },
    /// The launcher's canonical path, and whether it exists.
    Launcher { path: String, exists: bool },
    /// The PATHEXT value that was read.
    Pathext { value: String },
}

/// An answer as the contracts see it.
pub enum EventV {
    Done,
    Failed { kind: IoKind, detail: Seq<char> },
    Launcher { path: Seq<char>, exists: bool },
    Pathext { value: Seq<char> },
}

impl View for Event {
    type V = EventV;

    open spec fn view(&self) -> EventV {
        match self {
            Event::Done => EventV::Done,
            Event::Failed { kind, detail } => EventV::Failed { kind: *kind, detail: detail@ },
            Event::Launcher { path, exists } => EventV::Launcher { path: path@, exists: *exists },
            Event::Pathext { value } => EventV::Pathext { value: value@ },
        }
    }
}

/// An operation for the caller to perform.
pub enum Op {
    /// Find the launcher beside the running program; answer `Launcher`.
    LocateLauncher,
    /// Create `key` under the classes root and set its default value.
    SetDefault { key: String, data: String },
    /// Delete `key` under the classes root.
    DeleteKey { key: String },
    /// Read PATHEXT from the system environment key; answer `Pathext`.
    ReadPathext,
    /// Write PATHEXT to the system environment key.
    WritePathext { value: String },
    /// Stop with this result.
    Exit { result: Result<i32, AssocError> },
}

/// An operation as the contracts see it.
pub enum OpV {
    LocateLauncher,
    SetDefault { key: Seq<char>, data: Seq<char> },
    DeleteKey { key: Seq<char> },
    ReadPathext,
    WritePathext { value: Seq<char> },
    Exit { result: Result<i32, AssocErrorV> },
}

impl View for Op {
    type V = OpV;

    open spec fn view(&self) -> OpV {
        match self {
            Op::LocateLauncher => OpV::LocateLauncher,
            Op::SetDefault { key, data } => OpV::SetDefault { key: key@, data: data@ },
            Op::DeleteKey { key } => OpV::DeleteKey { key: key@ },
            Op::ReadPathext => OpV::ReadPathext,
            Op::WritePathext { value } => OpV::WritePathext { value: value@ },
            Op::Exit { result } => OpV::Exit {
                result: match result {
                    Ok(c) => Ok(*c),
                    Err(e) => Err(e@),
                },
            },
        }
    }
}

/// Lines to print, then an operation.
pub struct Step {
    pub print: Vec<String>,
    pub op: Op,
}

/// A step as the contracts see it.
pub struct StepV {
    pub print: Seq<Seq<char>>,
    pub op: OpV,
}

impl View for Step {
    type V = StepV;

    open spec fn view(&self) -> StepV {
        StepV { print: self.print.deep_view(), op: self.op@ }
    }
}

/// Where a command stands.
pub enum Session {
    /// Install: waiting for the launcher's path.
    Locate { amend_pathext: bool },
    /// Install: waiting for the write numbered `done` of the record.
    Register { amend_pathext: bool, handler: String, done: usize },
    /// Install: waiting for PATHEXT.
    AmendRead,
    /// Install: waiting for PATHEXT to be written.
    AmendWrite,
    /// Uninstall: waiting for the deletion numbered `done`; `missing` once
    /// a key was found already gone.
    Delete { done: usize, missing: bool },
    /// Uninstall: waiting for PATHEXT.
    StripRead,
    /// Uninstall: waiting for PATHEXT to be written.
    StripWrite,
    /// Nothing more to do.
    Finished,
}

/// A state as the contracts see it.
pub enum SessionV {
    Locate { amend_pathext: bool },
    Register { amend_pathext: bool, handler: Seq<char>, done: nat },
    AmendRead,
    AmendWrite,
    Delete { done: nat, missing: bool },
    StripRead,
    StripWrite,
    Finished,
}

impl View for Session {
    type V = SessionV;

    open spec fn view(&self) -> SessionV {
        match self {
            Session::Locate { amend_pathext } => SessionV::Locate { amend_pathext: *amend_pathext },
            Session::Register { amend_pathext, handler, done } => SessionV::Register {
                amend_pathext: *amend_pathext,
                handler: handler@,
                done: *done as nat,
            },
            Session::AmendRead => SessionV::AmendRead,
            Session::AmendWrite => SessionV::AmendWrite,
            Session::Delete { done, missing } => SessionV::Delete {
                done: *done as nat,
                missing: *missing,
            },
            Session::StripRead => SessionV::StripRead,
            Session::StripWrite => SessionV::StripWrite,
            Session::Finished => SessionV::Finished,
        }
    }
}

pub open spec fn created_line() -> Seq<char> {
    "Created run-cargo-script registry entry."@
}

pub open spec fn handler_line(handler: Seq<char>) -> Seq<char> {
    "- Handler set to: "@ + handler
}

pub open spec fn denied_line() -> Seq<char> {
    "Access denied.  Make sure you run this command from an administrator prompt."@
}

pub open spec fn added_line() -> Seq<char> {
    "Added `.crs` to PATHEXT.  You may need to log out for the change to take effect."@
}

pub open spec fn ignored_line() -> Seq<char> {
    "Ignored some missing registry entries."@
}

pub open spec fn deleted_line() -> Seq<char> {
    "Deleted run-cargo-script registry entry."@
}

pub open spec fn removed_line() -> Seq<char> {
    "Removed `.crs` from PATHEXT.  You may need to log out for the change to take effect."@
}

/// Whether a session in state `s` takes the answer `ev`.
pub open spec fn awaits_spec(s: SessionV, ev: EventV) -> bool {
    match s {
        SessionV::Locate { .. } => ev is Launcher || ev is Failed,
        SessionV::Register { done, .. } => done < n_writes() && (ev is Done || ev is Failed),
        SessionV::AmendRead => ev is Pathext || ev is Failed,
        SessionV::AmendWrite => ev is Done || ev is Failed,
        SessionV::Delete { done, .. } => done < n_deletes() && (ev is Done || ev is Failed),
        SessionV::StripRead => ev is Pathext || ev is Failed,
        SessionV::StripWrite => ev is Done || ev is Failed,
        SessionV::Finished => false,
    }
}

pub open spec fn step_of(print: Seq<Seq<char>>, op: OpV) -> StepV {
    StepV { print, op }
}

/// Stop, printing `print` first.
pub open spec fn finish(print: Seq<Seq<char>>, result: Result<i32, AssocErrorV>) -> (
    SessionV,
    StepV,
) {
    (SessionV::Finished, step_of(print, OpV::Exit { result }))
}

/// A failure passed on as it came.
pub open spec fn fail_io(kind: IoKind, detail: Seq<char>) -> (SessionV, StepV) {
    finish(seq![], Err(AssocErrorV::Io { kind, detail }))
}

pub open spec fn set_op(i: int, handler: Seq<char>) -> OpV {
    OpV::SetDefault { key: write_key(i), data: write_data(i, handler) }
}

pub open spec fn delete_op(i: int) -> OpV {
    OpV::DeleteKey { key: delete_key(i) }
}

/// After the deletion numbered `done - 1`: the next one, or, after the
/// last, the notices and the read of PATHEXT.
pub open spec fn after_delete(done: nat, missing: bool) -> (SessionV, StepV) {
    if done < n_deletes() {
        (SessionV::Delete { done, missing }, step_of(seq![], delete_op(done as int)))
    } else {
        (
            SessionV::StripRead,
            step_of(
                if missing {
                    seq![ignored_line(), deleted_line()]
                } else {
                    seq![deleted_line()]
                },
                OpV::ReadPathext,
            ),
        )
    }
}

/// The first state and step of a command.
pub open spec fn start_spec(args: Args) -> (SessionV, StepV) {
    match args {
        Args::Install { amend_pathext } => (
            SessionV::Locate { amend_pathext },
            step_of(seq![], OpV::LocateLauncher),
        ),
        Args::Uninstall => (
            SessionV::Delete { done: 0, missing: false },
            step_of(seq![], delete_op(0)),
        ),
    }
}

/// Whether the operation that state `s` waits on writes to the registry or
/// to the environment.
pub open spec fn writes(s: SessionV) -> bool {
    s is Register || s is Delete || s is AmendWrite || s is StripWrite
}

/// The next state and step, for a state and an answer that it awaits.
pub open spec fn next_spec(s: SessionV, ev: EventV) -> (SessionV, StepV) {
    match ev {
        EventV::Failed { kind, detail } => if kind == IoKind::PermissionDenied && writes(s) {
            finish(seq![denied_line()], Err(AssocErrorV::AccessDenied { detail }))
        } else {
            match s {
                SessionV::Delete { done, missing } => if kind == IoKind::NotFound {
                    after_delete(done + 1, true)
                } else {
                    fail_io(kind, detail)
                },
                _ => fail_io(kind, detail),
            }
        },
        EventV::Launcher { path, exists } => if !exists {
            finish(seq![], Err(AssocErrorV::LauncherMissing { path }))
        } else {
            let amend_pathext = match s {
                SessionV::Locate { amend_pathext } => amend_pathext,
                _ => false,
            };
            (
                SessionV::Register { amend_pathext, handler: strip_verbatim(path), done: 0 },
                step_of(seq![], set_op(0, strip_verbatim(path))),
            )
        },
        EventV::Pathext { value } => match s {
            SessionV::AmendRead => if has_token(split_spec(value), ext_token()) {
                finish(seq![added_line()], Ok(0))
            } else {
                (
                    SessionV::AmendWrite,
                    step_of(seq![], OpV::WritePathext { value: add_spec(value, ext_token()) }),
                )
            },
            _ => if has_token(split_spec(value), ext_token()) {
                (
                    SessionV::StripWrite,
                    step_of(seq![], OpV::WritePathext { value: remove_spec(value, ext_token()) }),
                )
            } else {
                finish(seq![], Ok(0))
            },
        },
        EventV::Done => match s {
            SessionV::Register { amend_pathext, handler, done } => if done + 1 < n_writes() {
                (
                    SessionV::Register { amend_pathext, handler, done: done + 1 },
                    step_of(seq![], set_op(done + 1 as int, handler)),
                )
            } else {
                let lines = seq![created_line(), handler_line(handler)];
                if amend_pathext {
                    (SessionV::AmendRead, step_of(lines, OpV::ReadPathext))
                } else {
                    finish(lines, Ok(0))
                }
            },
            SessionV::Delete { done, missing } => after_delete(done + 1, missing),
            SessionV::AmendWrite => finish(seq![added_line()], Ok(0)),
            _ => finish(seq![removed_line()], Ok(0)),
        },
    }
}

/// The tool's token can stand in PATHEXT.
pub proof fn lemma_ext_token_valid()
    ensures
        valid_token(ext_token()),
{
    reveal_strlit(".CRS");
    assert(ext_token()[0] == '.');
    assert(!ext_token().contains(';')) by {
        if ext_token().contains(';') {
            let k = choose|k: int| 0 <= k < ext_token().len() && ext_token()[k] == ';';
            assert(ext_token()[k] == ';');
        }
    }
}

/// A write to the registry or the environment that is refused for want of
/// rights ends the command at once: the guidance to run elevated is printed,
/// the error is the user's to mend, and nothing more is read or written. In
/// an install this comes before PATHEXT is touched.
pub proof fn lemma_denied_write_stops(s: SessionV, detail: Seq<char>)
    requires
        writes(s),
    ensures
        ({
            let r = next_spec(s, EventV::Failed { kind: IoKind::PermissionDenied, detail });
            &&& r.0 == SessionV::Finished
            &&& r.1.print == seq![denied_line()]
            &&& r.1.op == OpV::Exit { result: Err(AssocErrorV::AccessDenied { detail }) }
            &&& forall|ev: EventV| !awaits_spec(r.0, ev)
        }),
{
}

/// A key found already gone does not fail the uninstall: the next key is
/// deleted, or, after the last, the notice of missing entries is printed
/// and PATHEXT is read.
pub proof fn lemma_missing_key_tolerated(done: nat, missing: bool, detail: Seq<char>)
    requires
        done < n_deletes(),
    ensures
        ({
            let r = next_spec(
                SessionV::Delete { done, missing },
                EventV::Failed { kind: IoKind::NotFound, detail },
            );
            &&& !(r.1.op is Exit)
            &&& done + 1 < n_deletes() ==> r.0 == SessionV::Delete { done: done + 1, missing: true }
            &&& done + 1 == n_deletes() ==> r.0 == SessionV::StripRead && r.1.print == seq![
                ignored_line(),
                deleted_line(),
            ]
        }),
{
}

/// An install that finds PATHEXT as an earlier install left it writes
/// nothing to it.
pub proof fn lemma_install_again_keeps_pathext(value: Seq<char>)
    ensures
        next_spec(SessionV::AmendRead, EventV::Pathext { value: add_spec(value, ext_token()) })
            == finish(seq![added_line()], Ok(0)),
{
    lemma_ext_token_valid();
    lemma_add_token_present(value, ext_token());
}

/// An uninstall that finds PATHEXT as an earlier uninstall left it writes
/// nothing to it and succeeds.
pub proof fn lemma_uninstall_again_keeps_pathext(value: Seq<char>)
    ensures
        next_spec(SessionV::StripRead, EventV::Pathext { value: remove_spec(value, ext_token()) })
            == finish(seq![], Ok(0)),
{
    lemma_ext_token_valid();
    lemma_remove_token_leaves_none(value, ext_token());
}

/// One line to print.
fn one_line(text: &str) -> (r: Vec<String>)
    ensures
        r.deep_view() == seq![text@],
{
    let mut v: Vec<String> = Vec::new();
    v.push(String::from_str(text));
    assert(v.deep_view() =~= seq![text@]);
    v
}

/// Stop with `result`, printing `print` first.
fn exit_with(print: Vec<String>, result: Result<i32, AssocError>) -> (r: (Session, Step))
    ensures
        r.0@ == SessionV::Finished,
        r.1@ == step_of(
            print.deep_view(),
            OpV::Exit {
                result: match result {
                    Ok(c) => Ok(c),
                    Err(e) => Err(e@),
                },
            },
        ),
{
    (Session::Finished, Step { print, op: Op::Exit { result } })
}

/// A failure passed on as it came.
fn exit_io(kind: IoKind, detail: String) -> (r: (Session, Step))
    ensures
        (r.0@, r.1@) == fail_io(kind, detail@),
{
    let r = exit_with(Vec::new(), Err(AssocError::Io { kind, detail }));
    assert(r.1@.print =~= Seq::<Seq<char>>::empty());
    r
}

/// The write numbered `i` of the record for `handler`.
fn set_step(i: usize, handler: &str) -> (r: Step)
    requires
        i < n_writes(),
    ensures
        r@ == step_of(seq![], set_op(i as int, handler@)),
{
    let r = Step {
        print: Vec::new(),
        op: Op::SetDefault { key: write_key_text(i), data: write_data_text(i, handler) },
    };
    assert(r.print.deep_view() =~= Seq::<Seq<char>>::empty());
    r
}

/// The step after the deletion numbered `done - 1`.
fn delete_step(done: usize, missing: bool) -> (r: (Session, Step))
    requires
        done <= n_deletes(),
    ensures
        (r.0@, r.1@) == after_delete(done as nat, missing),
{
    if done < 5 {
        let st = Step { print: Vec::new(), op: Op::DeleteKey { key: delete_key_text(done) } };
        assert(st.print.deep_view() =~= Seq::<Seq<char>>::empty());
        (Session::Delete { done, missing }, st)
    } else {
        let mut print: Vec<String> = Vec::new();
        if missing {
            print.push(String::from_str("Ignored some missing registry entries."));
        }
        print.push(String::from_str("Deleted run-cargo-script registry entry."));
        if missing {
            assert(print.deep_view() =~= seq![ignored_line(), deleted_line()]);
        } else {
            assert(print.deep_view() =~= seq![deleted_line()]);
        }
        (Session::StripRead, Step { print, op: Op::ReadPathext })
    }
}

/// Starts the command: its first state and the first step.
pub fn try_main(args: Args) -> (r: (Session, Step))
    ensures
        (r.0@, r.1@) == start_spec(args),
{
    match args {
        Args::Install { amend_pathext } => {
            let st = Step { print: Vec::new(), op: Op::LocateLauncher };
            assert(st.print.deep_view() =~= Seq::<Seq<char>>::empty());
            (Session::Locate { amend_pathext }, st)
        },
        Args::Uninstall => delete_step(0, false),
    }
}

impl Session {
    /// Whether this state takes the answer `ev`.
    pub fn awaits(&self, ev: &Event) -> (r: bool)
        ensures
            r == awaits_spec(self@, ev@),
    {
        match self {
            Session::Locate { .. } => matches!(ev, Event::Launcher { .. } | Event::Failed { .. }),
            Session::Register { done, .. } => *done < 3 && matches!(
                ev,
                Event::Done | Event::Failed { .. }
            ),
            Session::AmendRead => matches!(ev, Event::Pathext { .. } | Event::Failed { .. }),
            Session::AmendWrite => matches!(ev, Event::Done | Event::Failed { .. }),
            Session::Delete { done, .. } => *done < 5 && matches!(
                ev,
                Event::Done | Event::Failed { .. }
            ),
            Session::StripRead => matches!(ev, Event::Pathext { .. } | Event::Failed { .. }),
            Session::StripWrite => matches!(ev, Event::Done | Event::Failed { .. }),
            Session::Finished => false,
        }
    }

    /// Takes the answer to the last operation: the next state and step.
    pub fn next(self, ev: Event) -> (r: (Session, Step))
        requires
            awaits_spec(self@, ev@),
        ensures
            (r.0@, r.1@) == next_spec(self@, ev@),
    {
        match ev {
            Event::Failed { kind, detail } => {
                let writing = matches!(
                    self,
                    Session::Register { .. } | Session::Delete { .. } | Session::AmendWrite
                        | Session::StripWrite
                );
                if kind == IoKind::PermissionDenied && writing {
                    exit_with(
                        one_line(
                            "Access denied.  Make sure you run this command from an administrator prompt.",
                        ),
                        Err(AssocError::AccessDenied { detail }),
                    )
                } else {
                    match self {
                        Session::Delete { done, missing } => {
                            if kind == IoKind::NotFound {
                                delete_step(done + 1, true)
                            } else {
                                exit_io(kind, detail)
                            }
                        },
                        _ => exit_io(kind, detail),
                    }
                }
            },
            Event::Launcher { path, exists } => {
                if !exists {
                    let r = exit_with(Vec::new(), Err(AssocError::LauncherMissing { path }));
                    assert(r.1@.print =~= Seq::<Seq<char>>::empty());
                    r
                } else {
                    let amend_pathext = match self {
                        Session::Locate { amend_pathext } => amend_pathext,
                        _ => false,
                    };
                    let handler = handler_path(path.as_str());
                    let st = set_step(0, handler.as_str());
                    (Session::Register { amend_pathext, handler, done: 0 }, st)
                }
            },
            Event::Pathext { value } => {
                let toks = split_tokens(value.as_str());
                let tok = ext_token_text();
                let present = contains_token(&toks, tok.as_str());
                match self {
                    Session::AmendRead => {
                        if present {
                            exit_with(
                                one_line(
                                    "Added `.crs` to PATHEXT.  You may need to log out for the change to take effect.",
                                ),
                                Ok(0),
                            )
                        } else {
                            let st = Step {
                                print: Vec::new(),
                                op: Op::WritePathext { value: add_token(value.as_str()) },
                            };
                            assert(st.print.deep_view() =~= Seq::<Seq<char>>::empty());
                            (Session::AmendWrite, st)
                        }
                    },
                    _ => {
                        if present {
                            let st = Step {
                                print: Vec::new(),
                                op: Op::WritePathext {
                                    value: remove_token(value.as_str()),
                                },
                            };
                            assert(st.print.deep_view() =~= Seq::<Seq<char>>::empty());
                            (Session::StripWrite, st)
                        } else {
                            let r = exit_with(Vec::new(), Ok(0));
                            assert(r.1@.print =~= Seq::<Seq<char>>::empty());
                            r
                        }
                    },
                }
            },
            Event::Done => match self {
                Session::Register { amend_pathext, handler, done } => {
                    if done + 1 < 3 {
                        let st = set_step(done + 1, handler.as_str());
                        (Session::Register { amend_pathext, handler, done: done + 1 }, st)
                    } else {
                        let mut lines: Vec<String> = Vec::new();
                        lines.push(String::from_str("Created run-cargo-script registry entry."));
                        lines.push(String::from_str("- Handler set to: ").concat(handler.as_str()));
                        assert(lines.deep_view() =~= seq![created_line(), handler_line(handler@)]);
                        if amend_pathext {
                            (Session::AmendRead, Step { print: lines, op: Op::ReadPathext })
                        } else {
                            exit_with(lines, Ok(0))
                        }
                    }
                },
                Session::Delete { done, missing } => delete_step(done + 1, missing),
                Session::AmendWrite => exit_with(
                    one_line(
                        "Added `.crs` to PATHEXT.  You may need to log out for the change to take effect.",
                    ),
                    Ok(0),
                ),
                _ => exit_with(
                    one_line(
                        "Removed `.crs` from PATHEXT.  You may need to log out for the change to take effect.",
                    ),
                    Ok(0),
                ),
            },
        }
    }
}

} // verus!
