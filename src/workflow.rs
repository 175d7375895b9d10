//! The three signing workflows as a state machine. Each step takes the
//! outcome of the last action and names the next one: read a file, sign,
//! write a file, rename, or finish. Whoever drives the machine performs the
//! actions; the machine decides what happens and in which order.
use vstd::prelude::*;

use crate::error::SignError;
use crate::paths::{
    detached_path, detached_path_of, lemma_paths_distinct, staging_path, staging_path_of,
};
use crate::trailer::{append_signature, signed_module};

verus! {

/// Which workflow runs.
#[derive(Clone, Copy, Debug, PartialEq, Eq, Structural)]
pub enum Mode {
    /// Sign, write the detached signature, then append it to the module.
    Produce,
    /// Sign and write the detached signature only.
    Detach,
    /// Append a signature read from a file; nothing is signed.
    Raw,
}

/// Where a workflow stands.
#[derive(Clone, Copy, Debug, PartialEq, Eq, Structural)]
pub enum Stage {
    /// Waiting for the private key's bytes.
    ReadKey,
    /// Waiting for the certificate's bytes.
    ReadCert,
    /// Waiting for the raw signature's bytes.
    ReadRaw,
    /// Waiting for the module's bytes.
    ReadModule,
    /// Waiting for the signature.
    Sign,
    /// Waiting for the detached signature file to be written.
    WriteDetached,
    /// Waiting for the signed module to be written to the staging file.
    WriteStaged,
    /// Waiting for the staging file to replace the module.
    Rename,
    /// Finished without error.
    Succeeded,
    /// Finished with this error.
    Failed(SignError),
}

/// A request to sign a module, as given on the command line.
pub enum Command {
    Produce { key: String, cert: String, module: String, passphrase: Option<Vec<u8>> },
    Detach { key: String, cert: String, module: String, passphrase: Option<Vec<u8>> },
    Raw { raw: String, module: String },
}

/// What the driver reports about the action it was last asked to perform.
pub enum Outcome {
    /// The file was read, or the signature was made: these are its bytes.
    Bytes(Vec<u8>),
    /// The write or the rename went through.
    Done,
    /// The action failed.
    Failed,
}

/// What the driver is asked to do next.
pub enum Action {
    /// Read the whole file at `path`.
    Read { path: String },
    /// Sign `content` with the PEM key `key`, decrypted with `passphrase` if
    /// one was given, for the DER certificate `cert`.
    Sign { key: Vec<u8>, passphrase: Option<Vec<u8>>, cert: Vec<u8>, content: Vec<u8> },
    /// Create or truncate the file at `path` and write `bytes` to it.
    Write { path: String, bytes: Vec<u8> },
    /// Atomically rename `from` over `to`.
    Rename { from: String, to: String },
    /// Stop: the workflow is over, with this result.
    Finish { result: Result<(), SignError> },
}

/// An outcome as values.
pub enum OutcomeView {
    Bytes(Seq<u8>),
    Done,
    Failed,
}

/// An action as values.
pub enum ActionView {
    Read(Seq<char>),
    Sign(Seq<u8>, Option<Seq<u8>>, Seq<u8>, Seq<u8>),
    Write(Seq<char>, Seq<u8>),
    Rename(Seq<char>, Seq<char>),
    Finish(Result<(), SignError>),
}

/// A workflow as values.
pub struct WorkflowView {
    pub mode: Mode,
    pub stage: Stage,
    pub key_path: Seq<char>,
    pub cert_path: Seq<char>,
    pub raw_path: Seq<char>,
    pub module_file: Seq<char>,
    pub passphrase: Option<Seq<u8>>,
    pub key: Seq<u8>,
    pub cert: Seq<u8>,
    pub module: Seq<u8>,
    pub signature: Seq<u8>,
}

/// One signing run in progress.
pub struct Workflow {
    mode: Mode,
    stage: Stage,
    key_path: String,
    cert_path: String,
    raw_path: String,
    module_file: String,
    passphrase: Option<Vec<u8>>,
    key: Vec<u8>,
    cert: Vec<u8>,
    module: Vec<u8>,
    signature: Vec<u8>,
}

impl View for Outcome {
    type V = OutcomeView;

    open spec fn view(&self) -> OutcomeView {
        match self {
            Outcome::Bytes(b) => OutcomeView::Bytes(b@),
            Outcome::Done => OutcomeView::Done,
            Outcome::Failed => OutcomeView::Failed,
        }
    }
}

impl View for Action {
    type V = ActionView;

    open spec fn view(&self) -> ActionView {
        match self {
            Action::Read { path } => ActionView::Read(path@),
            Action::Sign { key, passphrase, cert, content } => ActionView::Sign(
                key@,
                bytes_view(*passphrase),
                cert@,
                content@,
            ),
            Action::Write { path, bytes } => ActionView::Write(path@, bytes@),
            Action::Rename { from, to } => ActionView::Rename(from@, to@),
            Action::Finish { result } => ActionView::Finish(*result),
        }
    }
}

impl View for Workflow {
    type V = WorkflowView;

    closed spec fn view(&self) -> WorkflowView {
        WorkflowView {
            mode: self.mode,
            stage: self.stage,
            key_path: self.key_path@,
            cert_path: self.cert_path@,
            raw_path: self.raw_path@,
            module_file: self.module_file@,
            passphrase: bytes_view(self.passphrase),
            key: self.key@,
            cert: self.cert@,
            module: self.module@,
            signature: self.signature@,
        }
    }
}

/// An optional byte string as values.
pub open spec fn bytes_view(b: Option<Vec<u8>>) -> Option<Seq<u8>> {
    match b {
        Some(v) => Some(v@),
        None => None,
    }
}

/// The workflow a command starts, and its first action.
pub open spec fn initial(c: Command) -> (WorkflowView, ActionView) {
    let empty = Seq::<u8>::empty();
    let none = Seq::<char>::empty();
    match c {
        Command::Produce { key, cert, module, passphrase } | Command::Detach {
            key,
            cert,
            module,
            passphrase,
        } => {
            let mode = if c is Produce {
                Mode::Produce
            } else {
                Mode::Detach
            };
            (
                WorkflowView {
                    mode,
                    stage: Stage::ReadKey,
                    key_path: key@,
                    cert_path: cert@,
                    raw_path: none,
                    module_file: module@,
                    passphrase: bytes_view(passphrase),
                    key: empty,
                    cert: empty,
                    module: empty,
                    signature: empty,
                },
                ActionView::Read(key@),
            )
        },
        Command::Raw { raw, module } => (
            WorkflowView {
                mode: Mode::Raw,
                stage: Stage::ReadRaw,
                key_path: none,
                cert_path: none,
                raw_path: raw@,
                module_file: module@,
                passphrase: None,
                key: empty,
                cert: empty,
                module: empty,
                signature: empty,
            },
            ActionView::Read(raw@),
        ),
    }
}

/// Stop with `e`.
pub open spec fn fail(s: WorkflowView, e: SignError) -> (WorkflowView, ActionView) {
    (WorkflowView { stage: Stage::Failed(e), ..s }, ActionView::Finish(Err(e)))
}

/// Stage the signed module, once the module and the signature are known.
pub open spec fn stage_signed(s: WorkflowView) -> (WorkflowView, ActionView) {
    if s.signature.len() > u32::MAX {
        fail(s, SignError::Encoding)
    } else {
        (
            WorkflowView { stage: Stage::WriteStaged, ..s },
            ActionView::Write(staging_path_of(s.module_file), signed_module(s.module, s.signature)),
        )
    }
}

/// The next state and action, given the outcome of the last action. A read
/// or a signature that brings no bytes, and a write or rename that is not
/// done, fail the workflow: reads with `Input`, signing with `Crypto`,
/// writes and the rename with `Io`. A finished workflow stays finished.
pub open spec fn next(s: WorkflowView, o: OutcomeView) -> (WorkflowView, ActionView) {
    match s.stage {
        Stage::ReadKey => match o {
            OutcomeView::Bytes(b) => (
                WorkflowView { stage: Stage::ReadCert, key: b, ..s },
                ActionView::Read(s.cert_path),
            ),
            _ => fail(s, SignError::Input),
        },
        Stage::ReadCert => match o {
            OutcomeView::Bytes(b) => (
                WorkflowView { stage: Stage::ReadModule, cert: b, ..s },
                ActionView::Read(s.module_file),
            ),
            _ => fail(s, SignError::Input),
        },
        Stage::ReadRaw => match o {
            OutcomeView::Bytes(b) => (
                WorkflowView { stage: Stage::ReadModule, signature: b, ..s },
                ActionView::Read(s.module_file),
            ),
            _ => fail(s, SignError::Input),
        },
        Stage::ReadModule => match o {
            OutcomeView::Bytes(b) => if s.mode is Raw {
                stage_signed(WorkflowView { module: b, ..s })
            } else {
                (
                    WorkflowView { stage: Stage::Sign, module: b, ..s },
                    ActionView::Sign(s.key, s.passphrase, s.cert, b),
                )
            },
            _ => fail(s, SignError::Input),
        },
        Stage::Sign => match o {
            OutcomeView::Bytes(b) => (
                WorkflowView { stage: Stage::WriteDetached, signature: b, ..s },
                ActionView::Write(detached_path_of(s.module_file), b),
            ),
            _ => fail(s, SignError::Crypto),
        },
        Stage::WriteDetached => match o {
            OutcomeView::Done => if s.mode is Produce {
                stage_signed(s)
            } else {
                (WorkflowView { stage: Stage::Succeeded, ..s }, ActionView::Finish(Ok(())))
            },
            _ => fail(s, SignError::Io),
        },
        Stage::WriteStaged => match o {
            OutcomeView::Done => (
                WorkflowView { stage: Stage::Rename, ..s },
                ActionView::Rename(staging_path_of(s.module_file), s.module_file),
            ),
            _ => fail(s, SignError::Io),
        },
        Stage::Rename => match o {
            OutcomeView::Done => (
                WorkflowView { stage: Stage::Succeeded, ..s },
                ActionView::Finish(Ok(())),
            ),
            _ => fail(s, SignError::Io),
        },
        Stage::Succeeded => (s, ActionView::Finish(Ok(()))),
        Stage::Failed(e) => (s, ActionView::Finish(Err(e))),
    }
}

/// The actions a workflow issues in reply to `outs`, one per outcome.
pub open spec fn run(s: WorkflowView, outs: Seq<OutcomeView>) -> Seq<ActionView>
    decreases outs.len(),
{
    if outs.len() == 0 {
        Seq::empty()
    } else {
        let (s2, a) = next(s, outs[0]);
        seq![a] + run(s2, outs.drop_first())
    }
}

/// The action that `outs[i]` reports on: the one before `run(s, outs)[i]`.
pub open spec fn previous(first: ActionView, acts: Seq<ActionView>, i: int) -> ActionView {
    if i == 0 {
        first
    } else {
        acts[i - 1]
    }
}

/// `a` writes the staging file of `module`.
pub open spec fn writes_staging(a: ActionView, module: Seq<char>) -> bool {
    a is Write && a->Write_0 == staging_path_of(module)
}

proof fn lemma_run_unfold(s: WorkflowView, outs: Seq<OutcomeView>)
    requires
        outs.len() > 0,
    ensures
        run(s, outs).len() == outs.len(),
        run(s, outs)[0] == next(s, outs[0]).1,
        forall|i: int|
            1 <= i < outs.len() ==> #[trigger] run(s, outs)[i] == run(
                next(s, outs[0]).0,
                outs.drop_first(),
            )[i - 1],
    decreases outs.len(),
{
    lemma_run_len(next(s, outs[0]).0, outs.drop_first());
}

proof fn lemma_run_len(s: WorkflowView, outs: Seq<OutcomeView>)
    ensures
        run(s, outs).len() == outs.len(),
    decreases outs.len(),
{
    if outs.len() > 0 {
        lemma_run_len(next(s, outs[0]).0, outs.drop_first());
    }
}

proof fn lemma_module_writes_from(s: WorkflowView, prev: ActionView, outs: Seq<OutcomeView>)
    requires
        s.stage is WriteStaged ==> writes_staging(prev, s.module_file),
    ensures
        forall|i: int|
            0 <= i < outs.len() && (#[trigger] run(s, outs)[i]) is Write ==> run(
                s,
                outs,
            )[i]->Write_0 != s.module_file,
        forall|i: int|
            0 <= i < outs.len() && (#[trigger] run(s, outs)[i]) is Rename ==> run(s, outs)[i]
                == ActionView::Rename(staging_path_of(s.module_file), s.module_file) && outs[i] is Done
                && writes_staging(previous(prev, run(s, outs), i), s.module_file),
    decreases outs.len(),
{
    lemma_run_len(s, outs);
    if outs.len() > 0 {
        lemma_paths_distinct(s.module_file);
        let (s2, a) = next(s, outs[0]);
        lemma_module_writes_from(s2, a, outs.drop_first());
        lemma_run_unfold(s, outs);
        assert forall|i: int|
            0 <= i < outs.len() && (#[trigger] run(s, outs)[i]) is Rename implies run(s, outs)[i]
                == ActionView::Rename(staging_path_of(s.module_file), s.module_file) && outs[i] is Done
                && writes_staging(previous(prev, run(s, outs), i), s.module_file) by {
            if i > 0 {
                assert(outs.drop_first()[i - 1] == outs[i]);
                if i > 1 {
                    assert(run(s2, outs.drop_first())[i - 2] == run(s, outs)[i - 1]);
                }
            }
        }
    }
}

/// The module file is replaced only by the final rename: no action of any
/// run writes to the module's own path, and the one action that touches it
/// renames the staging file over it, issued only once the driver has reported
/// that the staging file was written. A failure anywhere before that rename
/// leaves the module file as it was.
pub proof fn lemma_module_replaced_only_by_rename(c: Command, outs: Seq<OutcomeView>)
    ensures
        ({
            let (s0, a0) = initial(c);
            let acts = run(s0, outs);
            &&& forall|i: int|
                0 <= i < outs.len() && (#[trigger] acts[i]) is Write ==> acts[i]->Write_0
                    != s0.module_file
            &&& forall|i: int|
                0 <= i < outs.len() && (#[trigger] acts[i]) is Rename ==> acts[i]
                    == ActionView::Rename(staging_path_of(s0.module_file), s0.module_file)
                    && outs[i] is Done && writes_staging(previous(a0, acts, i), s0.module_file)
        }),
{
    let (s0, a0) = initial(c);
    lemma_module_writes_from(s0, a0, outs);
}

proof fn lemma_failed_stays(s: WorkflowView, e: SignError, outs: Seq<OutcomeView>)
    requires
        s.stage == Stage::Failed(e),
    ensures
        run(s, outs).len() == outs.len(),
        forall|i: int|
            0 <= i < outs.len() ==> #[trigger] run(s, outs)[i] == ActionView::Finish(Err(e)),
    decreases outs.len(),
{
    lemma_run_len(s, outs);
    if outs.len() > 0 {
        lemma_failed_stays(s, e, outs.drop_first());
        lemma_run_unfold(s, outs);
    }
}

/// When the key cannot be read, `Produce` and `Detach` stop at once: every
/// action that follows is a finish with `Input`, so nothing is signed and
/// nothing is written, neither the detached signature nor the module.
pub proof fn lemma_unreadable_key_writes_nothing(c: Command, outs: Seq<OutcomeView>)
    requires
        c is Produce || c is Detach,
        outs.len() > 0,
        !(outs[0] is Bytes),
    ensures
        ({
            let (s0, a0) = initial(c);
            let acts = run(s0, outs);
            &&& a0 == ActionView::Read(s0.key_path)
            &&& forall|i: int|
                0 <= i < outs.len() ==> #[trigger] acts[i] == ActionView::Finish(
                    Err(SignError::Input),
                )
        }),
{
    let (s0, a0) = initial(c);
    let (s1, a1) = next(s0, outs[0]);
    lemma_failed_stays(s1, SignError::Input, outs.drop_first());
    lemma_run_unfold(s0, outs);
}

proof fn lemma_detach_from(s: WorkflowView, outs: Seq<OutcomeView>)
    requires
        s.mode is Detach,
        !(s.stage is WriteStaged),
        !(s.stage is Rename),
    ensures
        forall|i: int|
            0 <= i < outs.len() ==> !((#[trigger] run(s, outs)[i]) is Rename) && (run(s, outs)[i] is Write
                ==> run(s, outs)[i]->Write_0 == detached_path_of(s.module_file)),
    decreases outs.len(),
{
    lemma_run_len(s, outs);
    if outs.len() > 0 {
        lemma_detach_from(next(s, outs[0]).0, outs.drop_first());
        lemma_run_unfold(s, outs);
    }
}

/// `Detach` never touches the module: no run renames anything, and the only
/// file it writes is the detached signature `<module>.p7s`.
pub proof fn lemma_detach_leaves_module(c: Command, outs: Seq<OutcomeView>)
    requires
        c is Detach,
    ensures
        ({
            let (s0, a0) = initial(c);
            let acts = run(s0, outs);
            forall|i: int|
                0 <= i < outs.len() ==> !((#[trigger] acts[i]) is Rename) && (acts[i] is Write
                    ==> acts[i]->Write_0 == detached_path_of(s0.module_file))
        }),
{
    let (s0, a0) = initial(c);
    lemma_detach_from(s0, outs);
}

proof fn lemma_raw_from(s: WorkflowView, outs: Seq<OutcomeView>)
    requires
        s.mode is Raw,
        !(s.stage is Sign),
        !(s.stage is WriteDetached),
    ensures
        forall|i: int|
            0 <= i < outs.len() ==> !((#[trigger] run(s, outs)[i]) is Sign) && (run(s, outs)[i] is Write
                ==> run(s, outs)[i] == ActionView::Write(
                staging_path_of(s.module_file),
                signed_module(run_module(s, outs, i), run_signature(s, outs, i)),
            )),
    decreases outs.len(),
{
    lemma_run_len(s, outs);
    if outs.len() > 0 {
        let s2 = next(s, outs[0]).0;
        lemma_raw_from(s2, outs.drop_first());
        lemma_run_unfold(s, outs);
        assert forall|i: int| 1 <= i < outs.len() implies run_module(s, outs, i) == run_module(
            s2,
            outs.drop_first(),
            i - 1,
        ) && run_signature(s, outs, i) == run_signature(s2, outs.drop_first(), i - 1) by {
            lemma_state_before_unfold(s, outs, i);
        }
    }
}

/// The state from which the workflow replies to `outs[i]`.
pub open spec fn state_before(s: WorkflowView, outs: Seq<OutcomeView>, i: int) -> WorkflowView
    decreases i,
{
    if i <= 0 || outs.len() == 0 {
        s
    } else {
        state_before(next(s, outs[0]).0, outs.drop_first(), i - 1)
    }
}

/// The module bytes known once the workflow has replied to `outs[i]`.
pub open spec fn run_module(s: WorkflowView, outs: Seq<OutcomeView>, i: int) -> Seq<u8> {
    next(state_before(s, outs, i), outs[i]).0.module
}

/// The signature known once the workflow has replied to `outs[i]`.
pub open spec fn run_signature(s: WorkflowView, outs: Seq<OutcomeView>, i: int) -> Seq<u8> {
    next(state_before(s, outs, i), outs[i]).0.signature
}

proof fn lemma_state_before_unfold(s: WorkflowView, outs: Seq<OutcomeView>, i: int)
    requires
        1 <= i < outs.len(),
    ensures
        state_before(s, outs, i) == state_before(next(s, outs[0]).0, outs.drop_first(), i - 1),
        outs[i] == outs.drop_first()[i - 1],
{
}

/// `Raw` never asks for a signature: the blob read from the raw file is
/// taken as it is, and the only file written is the staging file, holding
/// the module followed by that blob, its record and the marker.
pub proof fn lemma_raw_never_signs(c: Command, outs: Seq<OutcomeView>)
    requires
        c is Raw,
    ensures
        ({
            let (s0, a0) = initial(c);
            let acts = run(s0, outs);
            forall|i: int|
                0 <= i < outs.len() ==> !((#[trigger] acts[i]) is Sign) && (acts[i] is Write
                    ==> acts[i] == ActionView::Write(
                    staging_path_of(s0.module_file),
                    signed_module(run_module(s0, outs, i), run_signature(s0, outs, i)),
                ))
        }),
{
    let (s0, a0) = initial(c);
    lemma_raw_from(s0, outs);
}

/// In `Produce`, the signer's output goes verbatim to `<module>.p7s`, and
/// once that write is done the staging file receives the module followed by
/// that same signature, a record whose length field is the signature's
/// length, and the marker. A signature too long for the record ends the run
/// with `Encoding` instead, after the detached file and before any write
/// near the module.
pub proof fn lemma_produce_outputs(s: WorkflowView, sig: Seq<u8>)
    requires
        s.mode is Produce,
        s.stage is Sign,
    ensures
        ({
            let (s1, a1) = next(s, OutcomeView::Bytes(sig));
            let (s2, a2) = next(s1, OutcomeView::Done);
            &&& a1 == ActionView::Write(detached_path_of(s.module_file), sig)
            &&& sig.len() <= u32::MAX ==> a2 == ActionView::Write(
                staging_path_of(s.module_file),
                signed_module(s.module, sig),
            )
            &&& sig.len() > u32::MAX ==> a2 == ActionView::Finish(Err(SignError::Encoding))
        }),
{
}

impl Workflow {
    /// Starts the workflow that `command` asks for: the first action reads
    /// the key (`Produce`, `Detach`) or the raw signature (`Raw`).
    pub fn start(command: Command) -> (r: (Workflow, Action))
        ensures
            (r.0@, r.1@) == initial(command),
    {
        let ghost c = command;
        let (mode, stage, key_path, cert_path, raw_path, module_file, passphrase) = match command {
            Command::Produce { key, cert, module, passphrase } => (
                Mode::Produce,
                Stage::ReadKey,
                key,
                cert,
                String::new(),
                module,
                passphrase,
            ),
            Command::Detach { key, cert, module, passphrase } => (
                Mode::Detach,
                Stage::ReadKey,
                key,
                cert,
                String::new(),
                module,
                passphrase,
            ),
            Command::Raw { raw, module } => (
                Mode::Raw,
                Stage::ReadRaw,
                String::new(),
                String::new(),
                raw,
                module,
                None,
            ),
        };
        let first = if mode == Mode::Raw {
            raw_path.clone()
        } else {
            key_path.clone()
        };
        let w = Workflow {
            mode,
            stage,
            key_path,
            cert_path,
            raw_path,
            module_file,
            passphrase,
            key: Vec::new(),
            cert: Vec::new(),
            module: Vec::new(),
            signature: Vec::new(),
        };
        proof {
            assert(w@.key =~= Seq::<u8>::empty());
            assert(w@.cert =~= Seq::<u8>::empty());
            assert(w@.module =~= Seq::<u8>::empty());
            assert(w@.signature =~= Seq::<u8>::empty());
        }
        (w, Action::Read { path: first })
    }

    /// The workflow has stopped.
    pub fn is_finished(&self) -> (r: bool)
        ensures
            r == (self@.stage is Succeeded || self@.stage is Failed),
    {
        match self.stage {
            Stage::Succeeded | Stage::Failed(_) => true,
            _ => false,
        }
    }

    fn fail(&mut self, e: SignError) -> (a: Action)
        ensures
            (final(self)@, a@) == fail(old(self)@, e),
    {
        self.stage = Stage::Failed(e);
        Action::Finish { result: Err(e) }
    }

    fn stage_signed(&mut self) -> (a: Action)
        ensures
            (final(self)@, a@) == stage_signed(old(self)@),
    {
        match append_signature(self.module.as_slice(), self.signature.as_slice()) {
            Ok(bytes) => {
                self.stage = Stage::WriteStaged;
                Action::Write { path: staging_path(self.module_file.as_str()), bytes }
            },
            Err(e) => self.fail(e),
        }
    }

    /// Takes the outcome of the last action and returns the next one.
    pub fn step(&mut self, outcome: Outcome) -> (a: Action)
        ensures
            (final(self)@, a@) == next(old(self)@, outcome@),
    {
        match self.stage {
            Stage::ReadKey => match outcome {
                Outcome::Bytes(b) => {
                    self.key = b;
                    self.stage = Stage::ReadCert;
                    Action::Read { path: self.cert_path.clone() }
                },
                _ => self.fail(SignError::Input),
            },
            Stage::ReadCert => match outcome {
                Outcome::Bytes(b) => {
                    self.cert = b;
                    self.stage = Stage::ReadModule;
                    Action::Read { path: self.module_file.clone() }
                },
                _ => self.fail(SignError::Input),
            },
            Stage::ReadRaw => match outcome {
                Outcome::Bytes(b) => {
                    self.signature = b;
                    self.stage = Stage::ReadModule;
                    Action::Read { path: self.module_file.clone() }
                },
                _ => self.fail(SignError::Input),
            },
            Stage::ReadModule => match outcome {
                Outcome::Bytes(b) => {
                    self.module = b;
                    if self.mode == Mode::Raw {
                        self.stage_signed()
                    } else {
                        self.stage = Stage::Sign;
                        let passphrase = match &self.passphrase {
                            Some(p) => Some(vstd::slice::slice_to_vec(p.as_slice())),
                            None => None,
                        };
                        Action::Sign {
                            key: vstd::slice::slice_to_vec(self.key.as_slice()),
                            passphrase,
                            cert: vstd::slice::slice_to_vec(self.cert.as_slice()),
                            content: vstd::slice::slice_to_vec(self.module.as_slice()),
                        }
                    }
                },
                _ => self.fail(SignError::Input),
            },
            Stage::Sign => match outcome {
                Outcome::Bytes(b) => {
                    let bytes = vstd::slice::slice_to_vec(b.as_slice());
                    self.signature = b;
                    self.stage = Stage::WriteDetached;
                    Action::Write { path: detached_path(self.module_file.as_str()), bytes }
                },
                _ => self.fail(SignError::Crypto),
            },
            Stage::WriteDetached => match outcome {
                Outcome::Done => {
                    if self.mode == Mode::Produce {
                        self.stage_signed()
                    } else {
                        self.stage = Stage::Succeeded;
                        Action::Finish { result: Ok(()) }
                    }
                },
                _ => self.fail(SignError::Io),
            },
            Stage::WriteStaged => match outcome {
                Outcome::Done => {
                    self.stage = Stage::Rename;
                    Action::Rename {
                        from: staging_path(self.module_file.as_str()),
                        to: self.module_file.clone(),
                    }
                },
                _ => self.fail(SignError::Io),
            },
            Stage::Rename => match outcome {
                Outcome::Done => {
                    self.stage = Stage::Succeeded;
                    Action::Finish { result: Ok(()) }
                },
                _ => self.fail(SignError::Io),
            },
            Stage::Succeeded => Action::Finish { result: Ok(()) },
            Stage::Failed(e) => Action::Finish { result: Err(e) },
        }
    }
}

} // verus!
