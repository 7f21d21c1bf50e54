use vstd::prelude::*;

use crate::error::{invalid, Error, ErrorKind, ErrorView};
use crate::launch::{launch_of, LaunchParams};
use crate::library::{Library, LibrarySource, LibraryView, SourceView};
use crate::native::{map_native_error, native_error_of, CallView, EngineCall, Reply, ReplyView};
use crate::process::Process;
use crate::program::{Program, ProgramView, Stdio};

verus! {

/// Opaque handle to a process launched by the injector.
#[derive(Debug)]
pub struct Child {
    pid: i32,
    stdio: Stdio,
}

impl View for Child {
    type V = (i32, Stdio);

    closed spec fn view(&self) -> (i32, Stdio) {
        (self.pid, self.stdio)
    }
}

impl Child {
    /// The pid of the launched process.
    pub fn pid(&self) -> (r: i32)
        ensures
            r == self@.0,
    {
        self.pid
    }

    /// The stream policy it was launched with.
    pub fn stdio(&self) -> (r: Stdio)
        ensures
            r == self@.1,
    {
        self.stdio
    }
}

/// A program spawned suspended, before its entrypoint ran. It can be
/// injected and resumed, or resumed alone; either consumes it.
#[derive(Debug)]
pub struct SuspendedProgram {
    process: Process,
    stdio: Stdio,
}

impl View for SuspendedProgram {
    type V = (i32, Stdio);

    closed spec fn view(&self) -> (i32, Stdio) {
        (self.process@, self.stdio)
    }
}

/// A library injected into a running process.
#[derive(Debug)]
pub struct InjectedProcess {
    id: u32,
    process: Process,
}

impl View for InjectedProcess {
    type V = (i32, u32);

    closed spec fn view(&self) -> (i32, u32) {
        (self.process@, self.id)
    }
}

/// A library injected into a program launched by the injector.
#[derive(Debug)]
pub struct InjectedProgram {
    id: u32,
    process: Process,
    child: Child,
}

impl View for InjectedProgram {
    type V = (i32, u32, Stdio);

    closed spec fn view(&self) -> (i32, u32, Stdio) {
        (self.process@, self.id, self.child.stdio)
    }
}

/// The result of a finished operation.
#[derive(Debug)]
pub enum Outcome {
    /// A program is spawned and held suspended.
    Suspended(SuspendedProgram),
    /// A library is injected into a running process.
    InjectedProcess(InjectedProcess),
    /// A library is injected into a launched program, which runs.
    InjectedProgram(InjectedProgram),
    /// A suspended program was resumed without injection.
    Resumed(Child),
    /// An injection is no longer monitored.
    Uninjected,
}

pub enum OutcomeView {
    Suspended { pid: i32, stdio: Stdio },
    InjectedProcess { pid: i32, id: u32 },
    InjectedProgram { pid: i32, id: u32, stdio: Stdio },
    Resumed { pid: i32, stdio: Stdio },
    Uninjected,
}

impl View for Outcome {
    type V = OutcomeView;

    open spec fn view(&self) -> OutcomeView {
        match self {
            Outcome::Suspended(s) => OutcomeView::Suspended { pid: s@.0, stdio: s@.1 },
            Outcome::InjectedProcess(i) => OutcomeView::InjectedProcess { pid: i@.0, id: i@.1 },
            Outcome::InjectedProgram(i) => OutcomeView::InjectedProgram {
                pid: i@.0,
                id: i@.1,
                stdio: i@.2,
            },
            Outcome::Resumed(c) => OutcomeView::Resumed { pid: c@.0, stdio: c@.1 },
            Outcome::Uninjected => OutcomeView::Uninjected,
        }
    }
}

/// What an operation waits for: the reply to the call it has just asked for,
/// and what it does with that reply.
#[derive(Debug)]
pub enum Phase {
    /// Waits for a combined launch and inject.
    LaunchInjecting { stdio: Stdio },
    /// Waits for a suspended spawn; then injects the library, if any.
    Spawning { stdio: Stdio, then_inject: Option<Library> },
    /// Waits for an injection; then resumes the process with the given stream
    /// policy, if any.
    Injecting { pid: i32, then_resume: Option<Stdio> },
    /// Waits for the resume that follows an injection.
    ResumingInjected { pid: i32, id: u32, stdio: Stdio },
    /// Waits for the clean-up after a failed resume; the resume's error is
    /// the result whatever the clean-up answers.
    CleaningUp { error: Error },
    /// Waits for a resume without injection.
    Resuming { pid: i32, stdio: Stdio },
    /// Waits for an uninject.
    Uninjecting,
}

pub enum PhaseView {
    LaunchInjecting { stdio: Stdio },
    Spawning { stdio: Stdio, then_inject: Option<LibraryView> },
    Injecting { pid: i32, then_resume: Option<Stdio> },
    ResumingInjected { pid: i32, id: u32, stdio: Stdio },
    CleaningUp { error: ErrorView },
    Resuming { pid: i32, stdio: Stdio },
    Uninjecting,
}

impl View for Phase {
    type V = PhaseView;

    open spec fn view(&self) -> PhaseView {
        match self {
            Phase::LaunchInjecting { stdio } => PhaseView::LaunchInjecting { stdio: *stdio },
            Phase::Spawning { stdio, then_inject } => PhaseView::Spawning {
                stdio: *stdio,
                then_inject: match then_inject {
                    Some(l) => Some(l@),
                    None => None,
                },
            },
            Phase::Injecting { pid, then_resume } => PhaseView::Injecting {
                pid: *pid,
                then_resume: *then_resume,
            },
            Phase::ResumingInjected { pid, id, stdio } => PhaseView::ResumingInjected {
                pid: *pid,
                id: *id,
                stdio: *stdio,
            },
            Phase::CleaningUp { error } => PhaseView::CleaningUp { error: error@ },
            Phase::Resuming { pid, stdio } => PhaseView::Resuming { pid: *pid, stdio: *stdio },
            Phase::Uninjecting => PhaseView::Uninjecting,
        }
    }
}

/// Where an operation stands: it asks the engine for one call and continues
/// from the phase with the reply, or it is done.
#[derive(Debug)]
pub enum Step {
    Call(EngineCall, Phase),
    Done(Result<Outcome, Error>),
}

pub enum StepView {
    Call(CallView, PhaseView),
    Done(Result<OutcomeView, ErrorView>),
}

impl View for Step {
    type V = StepView;

    open spec fn view(&self) -> StepView {
        match self {
            Step::Call(c, p) => StepView::Call(c@, p@),
            Step::Done(Ok(o)) => StepView::Done(Ok(o@)),
            Step::Done(Err(e)) => StepView::Done(Err(e@)),
        }
    }
}

pub open spec fn failed(e: ErrorView) -> StepView {
    StepView::Done(Err(e))
}

pub open spec fn succeeded(o: OutcomeView) -> StepView {
    StepView::Done(Ok(o))
}

/// The injection primitive for a library: by file or by in-memory image.
pub open spec fn inject_call_of(pid: i32, l: LibraryView) -> CallView {
    match l.source {
        SourceView::Path(p) => CallView::InjectPath {
            pid,
            library_path: p,
            entrypoint: l.entrypoint,
            data: l.data,
        },
        SourceView::Blob(b) => CallView::InjectBlob {
            pid,
            blob: b,
            entrypoint: l.entrypoint,
            data: l.data,
        },
    }
}

/// Spawning a program suspended.
pub open spec fn spawn_start(p: ProgramView) -> StepView {
    match launch_of(p) {
        Ok(lv) => StepView::Call(
            CallView::Spawn { launch: lv },
            PhaseView::Spawning { stdio: p.stdio, then_inject: None },
        ),
        Err(e) => failed(e),
    }
}

/// The combined launch-and-inject path, which needs a library file.
pub open spec fn launch_inject_start(p: ProgramView, l: LibraryView) -> StepView {
    match l.source {
        SourceView::Blob(_) => failed(invalid("library must be a file path for launch"@)),
        SourceView::Path(path) => match launch_of(p) {
            Ok(lv) => StepView::Call(
                CallView::InjectLaunch {
                    launch: lv,
                    library_path: path,
                    entrypoint: l.entrypoint,
                    data: l.data,
                },
                PhaseView::LaunchInjecting { stdio: p.stdio },
            ),
            Err(e) => failed(e),
        },
    }
}

/// Injecting into a launched program: a library file goes through the
/// combined primitive; an image is injected into the program spawned
/// suspended, which is then resumed.
pub open spec fn inject_program_start(p: ProgramView, l: LibraryView) -> StepView {
    match l.source {
        SourceView::Path(_) => launch_inject_start(p, l),
        SourceView::Blob(_) => match launch_of(p) {
            Ok(lv) => StepView::Call(
                CallView::Spawn { launch: lv },
                PhaseView::Spawning { stdio: p.stdio, then_inject: Some(l) },
            ),
            Err(e) => failed(e),
        },
    }
}

/// Injecting into a running process.
pub open spec fn inject_process_start(pid: i32, l: LibraryView) -> StepView {
    StepView::Call(inject_call_of(pid, l), PhaseView::Injecting { pid, then_resume: None })
}

/// Injecting into a suspended program, then resuming it.
pub open spec fn suspended_inject_start(pid: i32, stdio: Stdio, l: LibraryView) -> StepView {
    StepView::Call(inject_call_of(pid, l), PhaseView::Injecting { pid, then_resume: Some(stdio) })
}

/// Resuming a suspended program without injection.
pub open spec fn resume_start(pid: i32, stdio: Stdio) -> StepView {
    StepView::Call(CallView::Resume { pid }, PhaseView::Resuming { pid, stdio })
}

/// Uninjecting: the identifier zero is uninjected without asking the engine.
pub open spec fn uninject_start(id: u32) -> StepView {
    if id == 0 {
        succeeded(OutcomeView::Uninjected)
    } else {
        StepView::Call(CallView::Demonitor { id }, PhaseView::Uninjecting)
    }
}

/// What an operation does with the engine's reply.
pub open spec fn phase_next(ph: PhaseView, r: ReplyView) -> StepView {
    match ph {
        PhaseView::LaunchInjecting { stdio } => match r {
            ReplyView::Success { pid, id } => succeeded(
                OutcomeView::InjectedProgram { pid, id, stdio },
            ),
            ReplyView::Failure { kind, message } => failed(native_error_of(kind, message, None)),
        },
        PhaseView::Spawning { stdio, then_inject } => match r {
            ReplyView::Success { pid, id: _ } => match then_inject {
                None => succeeded(OutcomeView::Suspended { pid, stdio }),
                Some(l) => suspended_inject_start(pid, stdio, l),
            },
            ReplyView::Failure { kind, message } => failed(native_error_of(kind, message, None)),
        },
        PhaseView::Injecting { pid, then_resume } => match r {
            ReplyView::Success { pid: _, id } => match then_resume {
                None => succeeded(OutcomeView::InjectedProcess { pid, id }),
                Some(stdio) => StepView::Call(
                    CallView::Resume { pid },
                    PhaseView::ResumingInjected { pid, id, stdio },
                ),
            },
            ReplyView::Failure { kind, message } => failed(native_error_of(kind, message, None)),
        },
        PhaseView::ResumingInjected { pid, id, stdio } => match r {
            ReplyView::Success { .. } => succeeded(OutcomeView::InjectedProgram { pid, id, stdio }),
            ReplyView::Failure { kind, message } => {
                let e = native_error_of(kind, message, Some(pid));
                if id == 0 {
                    failed(e)
                } else {
                    StepView::Call(CallView::Demonitor { id }, PhaseView::CleaningUp { error: e })
                }
            },
        },
        PhaseView::CleaningUp { error } => failed(error),
        PhaseView::Resuming { pid, stdio } => match r {
            ReplyView::Success { .. } => succeeded(OutcomeView::Resumed { pid, stdio }),
            ReplyView::Failure { kind, message } => failed(
                native_error_of(kind, message, Some(pid)),
            ),
        },
        PhaseView::Uninjecting => match r {
            ReplyView::Success { .. } => succeeded(OutcomeView::Uninjected),
            ReplyView::Failure { kind, message } => failed(native_error_of(kind, message, None)),
        },
    }
}

/// The calls an operation makes when the engine gives these replies in turn,
/// and where it stands after the last of them.
pub open spec fn run(s: StepView, replies: Seq<ReplyView>) -> (Seq<CallView>, StepView)
    decreases replies.len(),
{
    match s {
        StepView::Call(c, ph) => if replies.len() == 0 {
            (Seq::empty(), s)
        } else {
            let rest = run(phase_next(ph, replies[0]), replies.drop_first());
            (seq![c] + rest.0, rest.1)
        },
        StepView::Done(_) => (Seq::empty(), s),
    }
}

fn inject_call(pid: i32, library: &Library) -> (c: EngineCall)
    ensures
        c@ == inject_call_of(pid, library@),
{
    let entrypoint = String::from_str(library.entrypoint());
    let data = String::from_str(library.data());
    match library.source() {
        LibrarySource::Path(p) => EngineCall::InjectPath {
            pid,
            library_path: p.clone(),
            entrypoint,
            data,
        },
        LibrarySource::Blob(b) => {
            let blob = b.clone();
            assert(blob@ =~= b@);
            EngineCall::InjectBlob { pid, blob, entrypoint, data }
        },
    }
}

/// Spawn a program suspended, before its entrypoint runs.
pub fn spawn(program: &Program) -> (s: Step)
    ensures
        s@ == spawn_start(program@),
{
    match LaunchParams::from_program(program) {
        Ok(launch) => Step::Call(
            EngineCall::Spawn { launch },
            Phase::Spawning { stdio: program.stdio_value(), then_inject: None },
        ),
        Err(e) => Step::Done(Err(e)),
    }
}

/// Launch a program and inject a library file before its entrypoint runs,
/// in one native call. An in-memory image is rejected before any call.
pub fn launch_inject(program: &Program, library: Library) -> (s: Step)
    ensures
        s@ == launch_inject_start(program@, library@),
{
    let entrypoint = String::from_str(library.entrypoint());
    let data = String::from_str(library.data());
    let library_path = match library.source() {
        LibrarySource::Path(p) => p.clone(),
        LibrarySource::Blob(_) => {
            return Step::Done(
                Err(
                    Error::with_text(
                        ErrorKind::InvalidInput,
                        "library must be a file path for launch",
                    ),
                ),
            );
        },
    };
    match LaunchParams::from_program(program) {
        Ok(launch) => Step::Call(
            EngineCall::InjectLaunch { launch, library_path, entrypoint, data },
            Phase::LaunchInjecting { stdio: program.stdio_value() },
        ),
        Err(e) => Step::Done(Err(e)),
    }
}

/// Inject a library into a program launched under injector control.
pub fn inject_program(program: &Program, library: Library) -> (s: Step)
    ensures
        s@ == inject_program_start(program@, library@),
{
    if !library.is_blob() {
        return launch_inject(program, library);
    }
    match LaunchParams::from_program(program) {
        Ok(launch) => Step::Call(
            EngineCall::Spawn { launch },
            Phase::Spawning { stdio: program.stdio_value(), then_inject: Some(library) },
        ),
        Err(e) => Step::Done(Err(e)),
    }
}

/// Inject a library into an already-running process.
pub fn inject_process(process: Process, library: Library) -> (s: Step)
    ensures
        s@ == inject_process_start(process@, library@),
{
    let pid = process.pid();
    Step::Call(inject_call(pid, &library), Phase::Injecting { pid, then_resume: None })
}

/// Stop monitoring an injection; the identifier zero needs no native call.
pub fn uninject(id: u32) -> (s: Step)
    ensures
        s@ == uninject_start(id),
{
    if id == 0 {
        Step::Done(Ok(Outcome::Uninjected))
    } else {
        Step::Call(EngineCall::Demonitor { id }, Phase::Uninjecting)
    }
}

impl Phase {
    /// Continue the operation with the engine's reply to the call it asked for.
    pub fn advance(self, reply: Reply) -> (s: Step)
        ensures
            s@ == phase_next(self@, reply@),
    {
        match self {
            Phase::LaunchInjecting { stdio } => match reply {
                Reply::Success { pid, id } => {
                    let process = Process::from_pid_unchecked(pid);
                    Step::Done(
                        Ok(
                            Outcome::InjectedProgram(
                                InjectedProgram { id, process, child: Child { pid, stdio } },
                            ),
                        ),
                    )
                },
                Reply::Failure { kind, message } => Step::Done(
                    Err(map_native_error(kind, message, None)),
                ),
            },
            Phase::Spawning { stdio, then_inject } => match reply {
                Reply::Success { pid, id: _ } => {
                    let process = Process::from_pid_unchecked(pid);
                    let suspended = SuspendedProgram { process, stdio };
                    match then_inject {
                        None => Step::Done(Ok(Outcome::Suspended(suspended))),
                        Some(library) => suspended.inject(library),
                    }
                },
                Reply::Failure { kind, message } => Step::Done(
                    Err(map_native_error(kind, message, None)),
                ),
            },
            Phase::Injecting { pid, then_resume } => match reply {
                Reply::Success { pid: _, id } => match then_resume {
                    None => Step::Done(
                        Ok(
                            Outcome::InjectedProcess(
                                InjectedProcess { id, process: Process::from_pid_unchecked(pid) },
                            ),
                        ),
                    ),
                    Some(stdio) => Step::Call(
                        EngineCall::Resume { pid },
                        Phase::ResumingInjected { pid, id, stdio },
                    ),
                },
                Reply::Failure { kind, message } => Step::Done(
                    Err(map_native_error(kind, message, None)),
                ),
            },
            Phase::ResumingInjected { pid, id, stdio } => match reply {
                Reply::Success { .. } => {
                    let process = Process::from_pid_unchecked(pid);
                    Step::Done(
                        Ok(
                            Outcome::InjectedProgram(
                                InjectedProgram { id, process, child: Child { pid, stdio } },
                            ),
                        ),
                    )
                },
                Reply::Failure { kind, message } => {
                    let error = map_native_error(kind, message, Some(pid));
                    if id == 0 {
                        Step::Done(Err(error))
                    } else {
                        Step::Call(EngineCall::Demonitor { id }, Phase::CleaningUp { error })
                    }
                },
            },
            Phase::CleaningUp { error } => Step::Done(Err(error)),
            Phase::Resuming { pid, stdio } => match reply {
                Reply::Success { .. } => Step::Done(Ok(Outcome::Resumed(Child { pid, stdio }))),
                Reply::Failure { kind, message } => Step::Done(
                    Err(map_native_error(kind, message, Some(pid))),
                ),
            },
            Phase::Uninjecting => match reply {
                Reply::Success { .. } => Step::Done(Ok(Outcome::Uninjected)),
                Reply::Failure { kind, message } => Step::Done(
                    Err(map_native_error(kind, message, None)),
                ),
            },
        }
    }
}

impl SuspendedProgram {
    /// The target process.
    pub fn process(&self) -> (p: Process)
        ensures
            p@ == self@.0,
    {
        self.process
    }

    /// Inject a library and then resume the program. Resuming is attempted
    /// only once the injection succeeded; if it fails, the injection is
    /// uninjected and the resume's error is the result.
    pub fn inject(self, library: Library) -> (s: Step)
        ensures
            s@ == suspended_inject_start(self@.0, self@.1, library@),
    {
        let pid = self.process.pid();
        Step::Call(
            inject_call(pid, &library),
            Phase::Injecting { pid, then_resume: Some(self.stdio) },
        )
    }

    /// Resume the program without injection.
    pub fn resume(self) -> (s: Step)
        ensures
            s@ == resume_start(self@.0, self@.1),
    {
        let pid = self.process.pid();
        Step::Call(EngineCall::Resume { pid }, Phase::Resuming { pid, stdio: self.stdio })
    }
}

impl InjectedProcess {
    /// The target process.
    pub fn process(&self) -> (p: Process)
        ensures
            p@ == self@.0,
    {
        self.process
    }

    /// Stop monitoring the injected library.
    pub fn uninject(self) -> (s: Step)
        ensures
            s@ == uninject_start(self@.1),
    {
        uninject(self.id)
    }
}

impl InjectedProgram {
    #[verifier::type_invariant]
    closed spec fn inv(self) -> bool {
        self.child.pid == self.process@
    }

    /// The target process.
    pub fn process(&self) -> (p: Process)
        ensures
            p@ == self@.0,
    {
        self.process
    }

    /// The launched process.
    pub fn child(&self) -> (c: &Child)
        ensures
            c@ == (self@.0, self@.2),
    {
        proof {
            use_type_invariant(self);
        }
        &self.child
    }

    /// Stop monitoring the injected library.
    pub fn uninject(self) -> (s: Step)
        ensures
            s@ == uninject_start(self@.1),
    {
        uninject(self.id)
    }
}

impl Library {
    /// Inject this library into a program at launch.
    pub fn inject_program(self, program: &Program) -> (s: Step)
        ensures
            s@ == inject_program_start(program@, self@),
    {
        inject_program(program, self)
    }

    /// Inject this library into a running process.
    pub fn inject_into_process(self, process: Process) -> (s: Step)
        ensures
            s@ == inject_process_start(process@, self@),
    {
        inject_process(process, self)
    }
}

/// An in-memory image handed to the combined launch-and-inject path fails
/// with `InvalidInput`, whatever the engine would answer: no native call is made.
pub proof fn lemma_blob_launch_rejected(p: ProgramView, l: LibraryView, replies: Seq<ReplyView>)
    requires
        l.source is Blob,
    ensures
        launch_inject_start(p, l) == failed(invalid("library must be a file path for launch"@)),
        run(launch_inject_start(p, l), replies).0 == Seq::<CallView>::empty(),
{
}

/// Uninjecting the identifier zero succeeds, whatever the engine would
/// answer: no native call is made.
pub proof fn lemma_uninject_zero(replies: Seq<ReplyView>)
    ensures
        uninject_start(0) == succeeded(OutcomeView::Uninjected),
        run(uninject_start(0), replies) == (Seq::<CallView>::empty(), succeeded(OutcomeView::Uninjected)),
{
}

/// Injecting into a suspended program: when the injection succeeds and the
/// resume fails, the injection is uninjected exactly once, by the identifier
/// the injection returned, and the result is the resume's error, whatever the
/// clean-up answers. An identifier of zero is uninjected without a call.
pub proof fn lemma_resume_failure_cleans_up(
    pid: i32,
    stdio: Stdio,
    l: LibraryView,
    injected: ReplyView,
    kind: i32,
    message: Seq<char>,
    cleanup: ReplyView,
)
    requires
        injected is Success,
    ensures
        ({
            let id = injected->Success_id;
            let resume_failed = ReplyView::Failure { kind, message };
            let e = native_error_of(kind, message, Some(pid));
            let start = suspended_inject_start(pid, stdio, l);
            &&& id != 0 ==> run(start, seq![injected, resume_failed, cleanup]) == (
                seq![inject_call_of(pid, l), CallView::Resume { pid }, CallView::Demonitor { id }],
                failed(e),
            )
            &&& id == 0 ==> run(start, seq![injected, resume_failed]) == (
                seq![inject_call_of(pid, l), CallView::Resume { pid }],
                failed(e),
            )
        }),
{
    reveal_with_fuel(run, 4);
    let id = injected->Success_id;
    let resume_failed = ReplyView::Failure { kind, message };
    let start = suspended_inject_start(pid, stdio, l);
    let replies3 = seq![injected, resume_failed, cleanup];
    let replies2 = seq![injected, resume_failed];
    assert(replies3.drop_first() =~= seq![resume_failed, cleanup]);
    assert(replies3.drop_first().drop_first() =~= seq![cleanup]);
    assert(replies3.drop_first().drop_first().drop_first() =~= Seq::<ReplyView>::empty());
    assert(replies2.drop_first() =~= seq![resume_failed]);
    assert(replies2.drop_first().drop_first() =~= Seq::<ReplyView>::empty());
    let e = native_error_of(kind, message, Some(pid));
    let s1 = StepView::Call(CallView::Resume { pid }, PhaseView::ResumingInjected { pid, id, stdio });
    assert(phase_next(PhaseView::Injecting { pid, then_resume: Some(stdio) }, injected) == s1);
    if id != 0 {
        let s2 = StepView::Call(CallView::Demonitor { id }, PhaseView::CleaningUp { error: e });
        assert(run(failed(e), Seq::<ReplyView>::empty()) == (Seq::<CallView>::empty(), failed(e)));
        assert(run(s2, seq![cleanup]).0 =~= seq![CallView::Demonitor { id }]);
        assert(run(s1, seq![resume_failed, cleanup]).0 =~= seq![
            CallView::Resume { pid },
            CallView::Demonitor { id },
        ]);
        assert(run(start, replies3).0 =~= seq![
            inject_call_of(pid, l),
            CallView::Resume { pid },
            CallView::Demonitor { id },
        ]);
    } else {
        assert(run(s1, seq![resume_failed]).0 =~= seq![CallView::Resume { pid }]);
        assert(run(start, replies2).0 =~= seq![inject_call_of(pid, l), CallView::Resume { pid }]);
    }
}

/// Resuming never precedes a completed injection: when the injection into a
/// suspended program fails, its error is the result and no resume is asked for.
pub proof fn lemma_inject_failure_skips_resume(
    pid: i32,
    stdio: Stdio,
    l: LibraryView,
    kind: i32,
    message: Seq<char>,
)
    ensures
        run(suspended_inject_start(pid, stdio, l), seq![ReplyView::Failure { kind, message }]) == (
            seq![inject_call_of(pid, l)],
            failed(native_error_of(kind, message, None)),
        ),
{
    reveal_with_fuel(run, 2);
    let replies = seq![ReplyView::Failure { kind, message }];
    assert(replies.drop_first() =~= Seq::<ReplyView>::empty());
    assert(run(suspended_inject_start(pid, stdio, l), replies).0 =~= seq![inject_call_of(pid, l)]);
}

/// Injecting an in-memory image at launch: the program is spawned suspended,
/// the image injected, and the program resumed; when the resume fails, the
/// injection is uninjected once and the resume's error is the result.
pub proof fn lemma_blob_launch_cleans_up(
    p: ProgramView,
    l: LibraryView,
    spawned: ReplyView,
    injected: ReplyView,
    kind: i32,
    message: Seq<char>,
    cleanup: ReplyView,
)
    requires
        l.source is Blob,
        launch_of(p) is Ok,
        spawned is Success,
        injected is Success,
        injected->Success_id != 0,
    ensures
        ({
            let pid = spawned->Success_pid;
            let id = injected->Success_id;
            run(
                inject_program_start(p, l),
                seq![spawned, injected, ReplyView::Failure { kind, message }, cleanup],
            ) == (
                seq![
                    CallView::Spawn { launch: launch_of(p)->Ok_0 },
                    inject_call_of(pid, l),
                    CallView::Resume { pid },
                    CallView::Demonitor { id },
                ],
                failed(native_error_of(kind, message, Some(pid))),
            )
        }),
{
    reveal_with_fuel(run, 5);
    let pid = spawned->Success_pid;
    let replies = seq![spawned, injected, ReplyView::Failure { kind, message }, cleanup];
    assert(replies.drop_first() =~= seq![injected, ReplyView::Failure { kind, message }, cleanup]);
    lemma_resume_failure_cleans_up(pid, p.stdio, l, injected, kind, message, cleanup);
    assert(phase_next(PhaseView::Spawning { stdio: p.stdio, then_inject: Some(l) }, spawned)
        == suspended_inject_start(pid, p.stdio, l));
    let rest = run(suspended_inject_start(pid, p.stdio, l), replies.drop_first());
    let spawn_call = CallView::Spawn { launch: launch_of(p)->Ok_0 };
    assert(run(inject_program_start(p, l), replies).0 =~= seq![spawn_call] + rest.0);
}

} // verus!
