//! Compiling one stage's source into a shader object.

use crate::diagnostic::{lossy_text, DiagnosticLog};
use crate::driver::{Ledger, Reply, Request};
use crate::handle::{Parameter, ShaderId, Stage};
use crate::source::SourceText;
use vstd::multiset::Multiset;
use vstd::prelude::*;
use vstd::utf8::{decode_utf8, valid_utf8};

verus! {

/// A compiled shader object. It owns the one handle that the driver gave out
/// for it, which is never zero, and comes only from a compilation that the
/// driver reported as successful.
#[derive(Debug, PartialEq, Eq)]
pub struct Shader {
    id: ShaderId,
    stage: Stage,
}

/// Why a compilation failed: the driver's info log as text, or, where the
/// driver created no shader object, a message that says so.
#[derive(Debug, PartialEq, Eq)]
pub struct CompileError {
    pub stage: Stage,
    pub message: String,
}

/// How far a compilation has come, named by the call whose answer it waits
/// for.
#[derive(Debug, PartialEq, Eq)]
pub enum CompilePhase {
    /// The shader object is being created.
    Creating { stage: Stage, source: SourceText },
    /// The source is being submitted.
    Loading { stage: Stage, shader: ShaderId },
    /// The source is being compiled.
    Compiling { stage: Stage, shader: ShaderId },
    /// The compile status is being read.
    Checking { stage: Stage, shader: ShaderId },
    /// The compilation failed; the length of the info log is being read.
    Measuring { stage: Stage, shader: ShaderId },
    /// The info log is being read.
    Reading { stage: Stage, shader: ShaderId, log: DiagnosticLog },
    /// The shader object is being given back.
    Releasing { stage: Stage, log: DiagnosticLog },
}

/// A compilation under way. It is begun by `Shader::from_source` and moved on
/// by `advance`, and by nothing else.
#[derive(Debug, PartialEq, Eq)]
pub struct Compilation {
    phase: CompilePhase,
}

/// What a compilation does once the driver has answered.
#[derive(Debug, PartialEq, Eq)]
pub enum CompileStep {
    /// Make the call `request` and hand its answer to `job`.
    Ask { job: Compilation, request: Request },
    /// The compilation is over.
    Done { result: Result<Shader, CompileError> },
}

/// A step of a compilation as contracts see it: a compilation by its phase,
/// an error by the characters of its message, a shader by its handle and
/// stage.
pub enum CompileMove {
    Ask { phase: CompilePhase, request: Request },
    Ready { shader: ShaderId, stage: Stage },
    Failed { stage: Stage, message: Seq<char> },
}

/// The calls that a compilation made and how it ended, if it has.
pub struct CompileRun {
    pub requests: Seq<Request>,
    pub outcome: Option<CompileMove>,
}

/// The message of a compilation for which the driver created no shader
/// object.
pub open spec fn no_shader_text() -> Seq<char> {
    "the driver created no shader object"@
}

impl View for Compilation {
    type V = CompilePhase;

    closed spec fn view(&self) -> CompilePhase {
        self.phase
    }
}

impl View for CompileStep {
    type V = CompileMove;

    open spec fn view(&self) -> CompileMove {
        match *self {
            CompileStep::Ask { job, request } => CompileMove::Ask { phase: job@, request },
            CompileStep::Done { result: Ok(shader) } => CompileMove::Ready {
                shader: shader.id(),
                stage: shader.stage(),
            },
            CompileStep::Done { result: Err(error) } => CompileMove::Failed {
                stage: error.stage,
                message: error.message@,
            },
        }
    }
}

impl Shader {
    #[verifier::type_invariant]
    spec fn names_an_object(&self) -> bool {
        self.id.0 != 0
    }

    /// The handle of the shader object.
    pub closed spec fn spec_id(&self) -> ShaderId {
        self.id
    }

    /// The stage that the shader was compiled for.
    pub closed spec fn spec_stage(&self) -> Stage {
        self.stage
    }

    /// Begins to compile `source` for `stage`: the compilation, and the first
    /// call to make for it.
    pub fn from_source(source: SourceText, stage: Stage) -> (start: (Compilation, Request))
        ensures
            start.0@ == (CompilePhase::Creating { stage, source }),
            start.1 == (Request::CreateShader { stage }),
    {
        (
            Compilation { phase: CompilePhase::Creating { stage, source } },
            Request::CreateShader { stage },
        )
    }

    /// Begins to compile `source` for the fragment stage.
    pub fn from_frag_source(source: SourceText) -> (start: (Compilation, Request))
        ensures
            start.0@ == (CompilePhase::Creating { stage: Stage::Fragment, source }),
            start.1 == (Request::CreateShader { stage: Stage::Fragment }),
    {
        Shader::from_source(source, Stage::Fragment)
    }

    /// Begins to compile `source` for the vertex stage.
    pub fn from_vert_source(source: SourceText) -> (start: (Compilation, Request))
        ensures
            start.0@ == (CompilePhase::Creating { stage: Stage::Vertex, source }),
            start.1 == (Request::CreateShader { stage: Stage::Vertex }),
    {
        Shader::from_source(source, Stage::Vertex)
    }

    /// The handle of the shader object. It is never zero.
    #[verifier::when_used_as_spec(spec_id)]
    pub fn id(&self) -> (id: ShaderId)
        ensures
            id == self.spec_id(),
            id.0 != 0,
    {
        proof {
            use_type_invariant(self);
        }
        self.id
    }

    /// The stage that the shader was compiled for.
    #[verifier::when_used_as_spec(spec_stage)]
    pub fn stage(&self) -> (stage: Stage)
        ensures
            stage == self.spec_stage(),
    {
        self.stage
    }

    /// Ends the shader's life: the one call that gives its handle back. The
    /// shader is consumed, so the call is asked for once.
    pub fn release(self) -> (request: Request)
        ensures
            request == (Request::DeleteShader { shader: self.id() }),
    {
        Request::DeleteShader { shader: self.id }
    }
}

impl CompilePhase {
    /// The shader object that the compilation has in hand.
    pub open spec fn shader(self) -> Option<ShaderId> {
        match self {
            CompilePhase::Creating { .. } => None,
            CompilePhase::Loading { shader, .. } => Some(shader),
            CompilePhase::Compiling { shader, .. } => Some(shader),
            CompilePhase::Checking { shader, .. } => Some(shader),
            CompilePhase::Measuring { shader, .. } => Some(shader),
            CompilePhase::Reading { shader, .. } => Some(shader),
            CompilePhase::Releasing { .. } => None,
        }
    }

    /// What a compilation in this phase does when the driver answers `reply`.
    ///
    /// A creation that brings no handle, or zero, ends the compilation at
    /// once. A status other than zero makes the shader; a status of zero
    /// leads through the info log and the deletion of the shader object to
    /// the error.
    pub open spec fn next(self, reply: Reply) -> CompileMove {
        match self {
            CompilePhase::Creating { stage, source } => if reply.handle() == 0 {
                CompileMove::Failed { stage, message: no_shader_text() }
            } else {
                let shader = ShaderId(reply.handle());
                CompileMove::Ask {
                    phase: CompilePhase::Loading { stage, shader },
                    request: Request::ShaderSource { shader, source },
                }
            },
            CompilePhase::Loading { stage, shader } => CompileMove::Ask {
                phase: CompilePhase::Compiling { stage, shader },
                request: Request::CompileShader { shader },
            },
            CompilePhase::Compiling { stage, shader } => CompileMove::Ask {
                phase: CompilePhase::Checking { stage, shader },
                request: Request::ShaderParameter { shader, parameter: Parameter::CompileStatus },
            },
            CompilePhase::Checking { stage, shader } => if reply.value() != 0 {
                CompileMove::Ready { shader, stage }
            } else {
                CompileMove::Ask {
                    phase: CompilePhase::Measuring { stage, shader },
                    request: Request::ShaderParameter {
                        shader,
                        parameter: Parameter::InfoLogLength,
                    },
                }
            },
            CompilePhase::Measuring { stage, shader } => {
                let log = DiagnosticLog { length: reply.value(), written: None };
                CompileMove::Ask {
                    phase: CompilePhase::Reading { stage, shader, log },
                    request: Request::ShaderInfoLog { shader, capacity: log.capacity() as usize },
                }
            },
            CompilePhase::Reading { stage, shader, log } => CompileMove::Ask {
                phase: CompilePhase::Releasing { stage, log: reply.fill(log) },
                request: Request::DeleteShader { shader },
            },
            CompilePhase::Releasing { stage, log } => CompileMove::Failed {
                stage,
                message: lossy_text(log@),
            },
        }
    }

    /// The calls that a compilation in this phase makes from `request` on,
    /// and how it ends, when the driver answers them with the replies from
    /// the one at `at` on, in turn. Replies past the end of the compilation
    /// are not read.
    pub open spec fn run_from(self, request: Request, replies: Seq<Reply>, at: nat) -> CompileRun
        decreases replies.len() - at,
    {
        if at >= replies.len() {
            CompileRun { requests: seq![request], outcome: None }
        } else {
            match self.next(replies[at as int]) {
                CompileMove::Ask { phase, request: then } => {
                    let rest = phase.run_from(then, replies, at + 1);
                    CompileRun { requests: seq![request] + rest.requests, outcome: rest.outcome }
                },
                end => CompileRun { requests: seq![request], outcome: Some(end) },
            }
        }
    }
}

impl Compilation {
    #[verifier::type_invariant]
    spec fn names_an_object(&self) -> bool {
        self.phase.shader() matches Some(shader) ==> shader.0 != 0
    }

    /// Takes the driver's answer to the call that the compilation waits for,
    /// and says what comes next.
    ///
    /// The message of an error is never empty where the driver created no
    /// shader object, nor where the info log is valid UTF-8 and not empty.
    pub fn advance(self, reply: Reply) -> (step: CompileStep)
        ensures
            step@ == self@.next(reply),
            self@ is Creating ==> (step@ matches CompileMove::Failed { message, .. }
                ==> message.len() > 0),
            self@ matches CompilePhase::Releasing { stage, log } ==> (valid_utf8(log@) ==> step@ == (
            CompileMove::Failed { stage, message: decode_utf8(log@) })),
            self@ matches CompilePhase::Releasing { stage, log } ==> (valid_utf8(log@) && log@.len()
                > 0 ==> (step@ matches CompileMove::Failed { message, .. } && message.len() > 0)),
    {
        proof {
            use_type_invariant(&self);
        }
        match self.phase {
            CompilePhase::Creating { stage, source } => {
                let handle = reply.handle();
                if handle == 0 {
                    CompileStep::Done {
                        result: Err(CompileError { stage, message: no_shader_message() }),
                    }
                } else {
                    let shader = ShaderId(handle);
                    CompileStep::Ask {
                        job: Compilation { phase: CompilePhase::Loading { stage, shader } },
                        request: Request::ShaderSource { shader, source },
                    }
                }
            },
            CompilePhase::Loading { stage, shader } => CompileStep::Ask {
                job: Compilation { phase: CompilePhase::Compiling { stage, shader } },
                request: Request::CompileShader { shader },
            },
            CompilePhase::Compiling { stage, shader } => CompileStep::Ask {
                job: Compilation { phase: CompilePhase::Checking { stage, shader } },
                request: Request::ShaderParameter { shader, parameter: Parameter::CompileStatus },
            },
            CompilePhase::Checking { stage, shader } => if reply.value() != 0 {
                CompileStep::Done { result: Ok(Shader { id: shader, stage }) }
            } else {
                CompileStep::Ask {
                    job: Compilation { phase: CompilePhase::Measuring { stage, shader } },
                    request: Request::ShaderParameter {
                        shader,
                        parameter: Parameter::InfoLogLength,
                    },
                }
            },
            CompilePhase::Measuring { stage, shader } => {
                let log = DiagnosticLog::sized(reply.value());
                let capacity = log.size();
                CompileStep::Ask {
                    job: Compilation { phase: CompilePhase::Reading { stage, shader, log } },
                    request: Request::ShaderInfoLog { shader, capacity },
                }
            },
            CompilePhase::Reading { stage, shader, log } => CompileStep::Ask {
                job: Compilation { phase: CompilePhase::Releasing { stage, log: reply.fill(log) } },
                request: Request::DeleteShader { shader },
            },
            CompilePhase::Releasing { stage, log } => CompileStep::Done {
                result: Err(CompileError { stage, message: log.into_text() }),
            },
        }
    }
}

/// The message of a compilation for which the driver created no shader
/// object.
fn no_shader_message() -> (text: String)
    ensures
        text@ == no_shader_text(),
        text@.len() > 0,
{
    proof {
        reveal_strlit("the driver created no shader object");
    }
    "the driver created no shader object".to_owned()
}

/// The calls that compiling `source` for `stage` takes, and how it ends, when
/// the driver answers them with `replies` in turn.
pub open spec fn compile(source: SourceText, stage: Stage, replies: Seq<Reply>) -> CompileRun {
    (CompilePhase::Creating { stage, source }).run_from(Request::CreateShader { stage }, replies, 0)
}

/// The four calls that every compilation makes once the driver has created
/// the shader object `shader`.
pub open spec fn compile_calls(source: SourceText, stage: Stage, shader: ShaderId) -> Seq<
    Request,
> {
    seq![
        Request::CreateShader { stage },
        Request::ShaderSource { shader, source },
        Request::CompileShader { shader },
        Request::ShaderParameter { shader, parameter: Parameter::CompileStatus },
    ]
}

/// The three calls that follow a failed compilation of `shader`, whose info
/// log the driver reported to be `length` bytes long.
pub open spec fn diagnose_calls(shader: ShaderId, length: i32) -> Seq<Request> {
    seq![
        Request::ShaderParameter { shader, parameter: Parameter::InfoLogLength },
        Request::ShaderInfoLog {
            shader,
            capacity: (DiagnosticLog { length, written: None }).capacity() as usize,
        },
        Request::DeleteShader { shader },
    ]
}

/// Where the driver creates no shader object, the compilation is over with
/// an error: no call follows the first, and the driver holds what it held
/// before.
pub proof fn lemma_compile_without_object(
    source: SourceText,
    stage: Stage,
    replies: Seq<Reply>,
    ledger: Ledger,
)
    requires
        replies.len() >= 1,
        replies[0].handle() == 0,
    ensures
        ({
            let run = compile(source, stage, replies);
            &&& run.requests == seq![Request::CreateShader { stage }]
            &&& run.outcome == Some(CompileMove::Failed { stage, message: no_shader_text() })
            &&& ledger.after_all(run.requests, replies) == ledger
        }),
{
    reveal_with_fuel(Ledger::after_first, 2);
}

/// Where the driver creates a shader object and reports a compile status
/// other than zero, the compilation is over after four calls, with a shader
/// of the handle that the driver gave out and of the stage asked for. No call
/// gives a handle back, and the driver holds that one shader more.
pub proof fn lemma_compile_succeeds(
    source: SourceText,
    stage: Stage,
    replies: Seq<Reply>,
    ledger: Ledger,
)
    requires
        replies.len() >= 4,
        replies[0].handle() != 0,
        replies[3].value() != 0,
    ensures
        ({
            let shader = ShaderId(replies[0].handle());
            let run = compile(source, stage, replies);
            &&& run.requests == compile_calls(source, stage, shader)
            &&& run.outcome == Some(CompileMove::Ready { shader, stage })
            &&& ledger.after_all(run.requests, replies) == (Ledger {
                shaders: ledger.shaders.insert(shader),
                ..ledger
            })
        }),
{
    let shader = ShaderId(replies[0].handle());
    reveal_with_fuel(CompilePhase::run_from, 5);
    reveal_with_fuel(Ledger::after_first, 5);
    assert(compile(source, stage, replies).requests =~= compile_calls(source, stage, shader));
}

/// Where the driver creates a shader object and reports a compile status of
/// zero, the compilation is over after seven calls, with an error that names
/// the stage and carries the text of the info log. The buffer asked for has
/// the length that the driver reported, the last call gives back the handle
/// that the first one brought, and the driver holds what it held before.
pub proof fn lemma_compile_fails(
    source: SourceText,
    stage: Stage,
    replies: Seq<Reply>,
    ledger: Ledger,
)
    requires
        replies.len() >= 7,
        replies[0].handle() != 0,
        replies[3].value() == 0,
    ensures
        ({
            let shader = ShaderId(replies[0].handle());
            let log = replies[5].fill(DiagnosticLog { length: replies[4].value(), written: None });
            let run = compile(source, stage, replies);
            &&& run.requests == compile_calls(source, stage, shader) + diagnose_calls(
                shader,
                replies[4].value(),
            )
            &&& run.outcome == Some(CompileMove::Failed { stage, message: lossy_text(log@) })
            &&& ledger.after_all(run.requests, replies) == ledger
        }),
{
    let shader = ShaderId(replies[0].handle());
    let calls = compile_calls(source, stage, shader) + diagnose_calls(shader, replies[4].value());
    reveal_with_fuel(CompilePhase::run_from, 8);
    reveal_with_fuel(Ledger::after_first, 8);
    assert(compile(source, stage, replies).requests =~= calls);
    assert(ledger.shaders.insert(shader).remove(shader) =~= ledger.shaders);
}

/// A compilation ends whatever the driver answers: seven answers are always
/// enough. It ends with a shader exactly where the driver created a shader
/// object and reported a compile status other than zero.
pub proof fn lemma_compile_ends(source: SourceText, stage: Stage, replies: Seq<Reply>)
    requires
        replies.len() >= 7,
    ensures
        compile(source, stage, replies).outcome is Some,
        compile(source, stage, replies).outcome->0 is Ready <==> replies[0].handle() != 0
            && replies[3].value() != 0,
        compile(source, stage, replies).outcome->0 is Failed <==> replies[0].handle() == 0
            || replies[3].value() == 0,
{
    let ledger = Ledger {
        shaders: Multiset::empty(),
        programs: Multiset::empty(),
        current: None,
    };
    if replies[0].handle() == 0 {
        lemma_compile_without_object(source, stage, replies, ledger);
    } else if replies[3].value() != 0 {
        lemma_compile_succeeds(source, stage, replies, ledger);
    } else {
        lemma_compile_fails(source, stage, replies, ledger);
    }
}

/// A compilation never ends with a shader of handle zero, however many
/// answers the driver has given and whatever they are: the shader it ends
/// with has the handle that the driver gave out first, and the driver
/// reported a compile status other than zero for it.
pub proof fn lemma_compiled_handle_is_valid(
    source: SourceText,
    stage: Stage,
    replies: Seq<Reply>,
)
    ensures
        compile(source, stage, replies).outcome matches Some(CompileMove::Ready { shader, .. })
            ==> shader.0 != 0 && replies.len() >= 4 && shader == ShaderId(replies[0].handle())
            && replies[3].value() != 0,
{
    reveal_with_fuel(CompilePhase::run_from, 8);
}

/// A shader that was compiled and then released leaves the driver holding
/// what it held before: the release gives back exactly the handle that the
/// compilation brought.
pub proof fn lemma_release_restores(
    source: SourceText,
    stage: Stage,
    replies: Seq<Reply>,
    ledger: Ledger,
    shader: Shader,
    reply: Reply,
)
    requires
        compile(source, stage, replies).outcome == Some(
            CompileMove::Ready { shader: shader.id(), stage: shader.stage() },
        ),
    ensures
        ledger.after_all(compile(source, stage, replies).requests, replies).after(
            Request::DeleteShader { shader: shader.id() },
            reply,
        ) == ledger,
{
    lemma_compiled_handle_is_valid(source, stage, replies);
    lemma_compile_succeeds(source, stage, replies, ledger);
    assert(ledger.shaders.insert(shader.id()).remove(shader.id()) =~= ledger.shaders);
}

} // verus!
