//! The privilege-separated launcher's state machine. A forked child must
//! walk the stages in one fixed, irreversible order — capture the directory
//! handle, join the target's mount namespace, drop identity, re-execute —
//! and any step out of order is refused at runtime before the next stage's
//! syscall, while the surrounding binary performs the syscalls themselves.
//! Alongside it stand the verified builders for what the child needs: the
//! namespace path, the re-exec argument vector, and the relative exec path.

use vstd::prelude::*;
use crate::errors::{ChildAction, Error, ReExecError, ResourceError, Stage, TransitionError};

verus! {

/// The stage a child must stand in before it may perform an action.
pub open spec fn stage_before(a: ChildAction) -> Stage {
    match a {
        ChildAction::CaptureHandle => Stage::Start,
        ChildAction::JoinNamespace => Stage::HandleCaptured,
        ChildAction::DropIdentity => Stage::NamespaceJoined,
        ChildAction::ReExec => Stage::IdentityDropped,
    }
}

/// The stage an action, once completed, leads to.
pub open spec fn stage_after(a: ChildAction) -> Stage {
    match a {
        ChildAction::CaptureHandle => Stage::HandleCaptured,
        ChildAction::JoinNamespace => Stage::NamespaceJoined,
        ChildAction::DropIdentity => Stage::IdentityDropped,
        ChildAction::ReExec => Stage::ReExeced,
    }
}

/// The stage a fresh child reaches after completing `actions` in order:
/// `Failed` absorbs any action taken out of order.
pub open spec fn run_stages(actions: Seq<ChildAction>) -> Stage
    decreases actions.len(),
{
    if actions.len() == 0 {
        Stage::Start
    } else {
        let prev = run_stages(actions.drop_last());
        if prev == stage_before(actions.last()) {
            stage_after(actions.last())
        } else {
            Stage::Failed
        }
    }
}

/// The only action history that can stand behind each non-failed stage.
pub open spec fn canonical_history(s: Stage) -> Seq<ChildAction> {
    match s {
        Stage::Start => Seq::<ChildAction>::empty(),
        Stage::HandleCaptured => seq![ChildAction::CaptureHandle],
        Stage::NamespaceJoined => seq![ChildAction::CaptureHandle, ChildAction::JoinNamespace],
        Stage::IdentityDropped => seq![
            ChildAction::CaptureHandle,
            ChildAction::JoinNamespace,
            ChildAction::DropIdentity,
        ],
        Stage::ReExeced => seq![
            ChildAction::CaptureHandle,
            ChildAction::JoinNamespace,
            ChildAction::DropIdentity,
            ChildAction::ReExec,
        ],
        Stage::Failed => Seq::<ChildAction>::empty(),
    }
}

/// Every non-failed stage forces its entire history: there is exactly one
/// sequence of completed actions behind it.
pub proof fn lemma_history_is_forced(actions: Seq<ChildAction>)
    requires
        run_stages(actions) != Stage::Failed,
    ensures
        actions == canonical_history(run_stages(actions)),
    decreases actions.len(),
{
    if actions.len() == 0 {
        assert(actions =~= canonical_history(Stage::Start));
    } else {
        let prev = run_stages(actions.drop_last());
        assert(prev == stage_before(actions.last()));
        lemma_history_is_forced(actions.drop_last());
        assert(actions =~= actions.drop_last().push(actions.last()));
        assert(canonical_history(prev).push(actions.last()) =~= canonical_history(
            stage_after(actions.last()),
        ));
    }
}

/// The ordered sequence capture → join → drop → re-exec is the one and only
/// way to reach re-execution: any other permutation fails earlier.
pub proof fn lemma_reexec_order_forced(actions: Seq<ChildAction>)
    requires
        run_stages(actions) == Stage::ReExeced,
    ensures
        actions == seq![
            ChildAction::CaptureHandle,
            ChildAction::JoinNamespace,
            ChildAction::DropIdentity,
            ChildAction::ReExec,
        ],
{
    lemma_history_is_forced(actions);
}

/// Which step of the child sequence failed, with the OS error code where
/// one exists. The binary reports the step; the taxonomy mapping and the
/// resulting stage are verified here.
#[derive(Clone, Copy, Debug, PartialEq, Eq, Structural)]
pub enum StepFailure {
    /// The binary's own location could not be determined.
    ProgramLocation,
    /// The directory holding the binary could not be opened.
    DirectoryHandle(i32),
    /// The target's namespace handle could not be opened.
    NamespaceHandle(i32),
    /// The namespace-join call failed.
    NamespaceJoin(i32),
    /// The identity-drop call failed.
    IdentityDrop(i32),
    /// Changing into the held directory failed.
    ChangeDirectory(i32),
    /// An argument could not be encoded for the exec call.
    ArgumentEncoding,
    /// The image-replacement call failed.
    ExecImage(i32),
}

/// The error class each step failure belongs to.
pub open spec fn spec_error_of(f: StepFailure) -> Error {
    match f {
        StepFailure::ProgramLocation => Error::Resource(ResourceError::ProgramLocation),
        StepFailure::DirectoryHandle(e) => Error::Resource(ResourceError::DirectoryHandle(e)),
        StepFailure::NamespaceHandle(e) => Error::Resource(ResourceError::NamespaceHandle(e)),
        StepFailure::NamespaceJoin(e) => Error::Transition(TransitionError::NamespaceJoin(e)),
        StepFailure::IdentityDrop(e) => Error::Transition(TransitionError::IdentityDrop(e)),
        StepFailure::ChangeDirectory(e) => Error::ReExec(ReExecError::ChangeDirectory(e)),
        StepFailure::ArgumentEncoding => Error::ReExec(ReExecError::ArgumentEncoding),
        StepFailure::ExecImage(e) => Error::ReExec(ReExecError::ExecImage(e)),
    }
}

/// The child-side state machine. It authorizes each action strictly in
/// order and records every failure; once failed — or once past a stage —
/// nothing earlier can be replayed, since each action is authorized from
/// exactly one stage.
pub struct Launcher {
    stage: Stage,
    history: Ghost<Seq<ChildAction>>,
}

impl Launcher {
    /// The stage the child stands in.
    pub closed spec fn stage_spec(&self) -> Stage {
        self.stage
    }

    /// The actions completed so far, oldest first.
    pub closed spec fn history(&self) -> Seq<ChildAction> {
        self.history@
    }

    /// The stage is exactly what the completed history yields, unless the
    /// child has failed.
    pub open spec fn wf(&self) -> bool {
        self.stage_spec() == Stage::Failed || run_stages(self.history()) == self.stage_spec()
    }

    /// A fresh machine for one forked child.
    pub fn new() -> (r: Launcher)
        ensures
            r.stage_spec() == Stage::Start,
            r.history() == Seq::<ChildAction>::empty(),
            r.wf(),
    {
        Launcher { stage: Stage::Start, history: Ghost(Seq::<ChildAction>::empty()) }
    }

    /// The current stage, for logging.
    pub fn stage(&self) -> (s: Stage)
        ensures
            s == self.stage_spec(),
    {
        self.stage
    }

    /// Ask leave to perform `action`. Granted exactly when the child stands
    /// in the action's one permitted predecessor stage; any other request is
    /// refused before the action's syscall, with the violation named, and
    /// the child is marked failed.
    pub fn authorize(&mut self, action: ChildAction) -> (r: Result<(), Error>)
        requires
            old(self).wf(),
        ensures
            final(self).wf(),
            old(self).stage_spec() == stage_before(action) ==> r is Ok && final(self).stage_spec()
                == stage_after(action) && final(self).history() == old(self).history().push(
                action,
            ),
            old(self).stage_spec() != stage_before(action) ==> final(self).stage_spec()
                == Stage::Failed && r == Err::<(), Error>(
                Error::Transition(
                    TransitionError::OrderViolation(action, old(self).stage_spec()),
                ),
            ),
    {
        let expected = match action {
            ChildAction::CaptureHandle => Stage::Start,
            ChildAction::JoinNamespace => Stage::HandleCaptured,
            ChildAction::DropIdentity => Stage::NamespaceJoined,
            ChildAction::ReExec => Stage::IdentityDropped,
        };
        if self.stage == expected {
            self.stage = match action {
                ChildAction::CaptureHandle => Stage::HandleCaptured,
                ChildAction::JoinNamespace => Stage::NamespaceJoined,
                ChildAction::DropIdentity => Stage::IdentityDropped,
                ChildAction::ReExec => Stage::ReExeced,
            };
            self.history = Ghost(self.history@.push(action));
            proof {
                let h = old(self).history();
                assert(expected == stage_before(action));
                assert(run_stages(h) == old(self).stage_spec());
                assert(h.push(action).drop_last() =~= h);
                assert(h.push(action).last() == action);
                assert(run_stages(h.push(action)) == stage_after(action));
            }
            Ok(())
        } else {
            let stale = self.stage;
            self.stage = Stage::Failed;
            Err(Error::Transition(TransitionError::OrderViolation(action, stale)))
        }
    }

    /// Record that a step's own work failed. The child is marked failed and
    /// receives the error of the step's component, to exit with — never to
    /// continue from.
    pub fn record_failure(&mut self, failure: StepFailure) -> (e: Error)
        ensures
            final(self).stage_spec() == Stage::Failed,
            final(self).wf(),
            e == spec_error_of(failure),
    {
        self.stage = Stage::Failed;
        match failure {
            StepFailure::ProgramLocation => Error::Resource(ResourceError::ProgramLocation),
            StepFailure::DirectoryHandle(e) => Error::Resource(ResourceError::DirectoryHandle(e)),
            StepFailure::NamespaceHandle(e) => Error::Resource(ResourceError::NamespaceHandle(e)),
            StepFailure::NamespaceJoin(e) => Error::Transition(TransitionError::NamespaceJoin(e)),
            StepFailure::IdentityDrop(e) => Error::Transition(TransitionError::IdentityDrop(e)),
            StepFailure::ChangeDirectory(e) => Error::ReExec(ReExecError::ChangeDirectory(e)),
            StepFailure::ArgumentEncoding => Error::ReExec(ReExecError::ArgumentEncoding),
            StepFailure::ExecImage(e) => Error::ReExec(ReExecError::ExecImage(e)),
        }
    }
}

/// The ten decimal digits, in order.
pub open spec fn digit_char(d: nat) -> char {
    seq!['0', '1', '2', '3', '4', '5', '6', '7', '8', '9'][d as int]
}

/// The decimal digits of `n`, most significant first.
pub open spec fn decimal_digits(n: nat) -> Seq<char>
    decreases n,
{
    if n < 10 {
        seq![digit_char(n)]
    } else {
        decimal_digits(n / 10).push(digit_char(n % 10))
    }
}

/// Render `n` in decimal.
pub fn u32_to_decimal(n: u32) -> (r: String)
    ensures
        r@ == decimal_digits(n as nat),
    decreases n,
{
    let digits = "0123456789";
    proof {
        reveal_strlit("0123456789");
        assert(digits@ =~= seq!['0', '1', '2', '3', '4', '5', '6', '7', '8', '9']);
    }
    let d = (n % 10) as usize;
    let ds = digits.substring_char(d, d + 1);
    proof {
        assert(ds@ =~= seq![digit_char((n % 10) as nat)]);
    }
    if n < 10 {
        ds.to_owned()
    } else {
        let prefix = u32_to_decimal(n / 10);
        let r = prefix.concat(ds);
        proof {
            assert(decimal_digits((n / 10) as nat).push(digit_char((n % 10) as nat))
                =~= decimal_digits((n / 10) as nat) + seq![digit_char((n % 10) as nat)]);
        }
        r
    }
}

/// The path of a process's mount-namespace handle. It must be opened before
/// the namespace switch, from the pre-switch view of the filesystem.
pub fn proc_ns_mnt_path(pid: u32) -> (r: String)
    ensures
        r@ == "/proc/"@ + decimal_digits(pid as nat) + "/ns/mnt"@,
{
    let num = u32_to_decimal(pid);
    let head = String::from_str("/proc/");
    let mid = head.concat(num.as_str());
    mid.concat("/ns/mnt")
}

/// Split a path at its last separator: the returned directory part carries
/// the trailing separator (it is empty when the path has none), and the
/// name part holds no separator at all.
pub fn split_path<'a>(path: &'a str) -> (r: (&'a str, &'a str))
    ensures
        path@ == r.0@ + r.1@,
        forall|k: int| 0 <= k < r.1@.len() ==> r.1@[k] != '/',
        r.0@.len() > 0 ==> r.0@.last() == '/',
        r.0@.len() == 0 ==> forall|k: int| 0 <= k < path@.len() ==> path@[k] != '/',
{
    let n = path.unicode_len();
    let mut i = n;
    while i > 0
        invariant
            i <= n,
            n == path@.len(),
            forall|k: int| i <= k < n ==> path@[k] != '/',
        decreases i,
    {
        if path.get_char(i - 1) == '/' {
            let dir = path.substring_char(0, i);
            let name = path.substring_char(i, n);
            proof {
                assert(dir@ + name@ =~= path@);
            }
            return (dir, name);
        }
        i -= 1;
    }
    let dir = path.substring_char(0, 0);
    let name = path.substring_char(0, n);
    proof {
        assert(dir@ + name@ =~= path@);
    }
    (dir, name)
}

/// The re-exec argument vector: the program name, the worker marker
/// "scan", then the target's own arguments unchanged and in order.
#[verifier::loop_isolation(false)]
pub fn build_scan_request(program: &str, target_argv: &Vec<String>) -> (r: Vec<String>)
    ensures
        r@.len() == target_argv@.len() + 2,
        r@[0]@ == program@,
        r@[1]@ == "scan"@,
        forall|k: int| 2 <= k < r@.len() ==> (#[trigger] r@[k])@ == target_argv@[k - 2]@,
{
    let mut r: Vec<String> = Vec::new();
    r.push(program.to_owned());
    r.push(String::from_str("scan"));
    let n = target_argv.len();
    let mut i: usize = 0;
    while i < n
        invariant
            i <= n,
            r@.len() == i + 2,
            r@[0]@ == program@,
            r@[1]@ == "scan"@,
            forall|k: int| 2 <= k < r@.len() ==> (#[trigger] r@[k])@ == target_argv@[k - 2]@,
        decreases n - i,
    {
        r.push(target_argv[i].clone());
        i += 1;
    }
    r
}

/// The relative path under the held directory handle by which the child
/// re-executes its own image.
pub fn relative_exec_path(program: &str) -> (r: String)
    ensures
        r@ == "./"@ + program@,
{
    let head = String::from_str("./");
    head.concat(program)
}

} // verus!
