//! Linking compiled shaders into a program object.

use crate::diagnostic::{lossy_text, DiagnosticLog};
use crate::driver::{Ledger, Reply, Request};
use crate::handle::{Parameter, ProgramId, ShaderId};
use crate::shader::Shader;
use vstd::multiset::Multiset;
use vstd::prelude::*;
use vstd::utf8::{decode_utf8, valid_utf8};

verus! {

/// A linked program object. It owns the one handle that the driver gave out
/// for it, which is never zero, and comes only from a link that the driver
/// reported as successful.
#[derive(Debug, PartialEq, Eq)]
pub struct Program {
    id: ProgramId,
}

/// Why a link failed: the driver's info log as text, or, where the driver
/// created no program object, a message that says so.
#[derive(Debug, PartialEq, Eq)]
pub struct LinkError {
    pub message: String,
}

/// How far a link has come, named by the call whose answer it waits for.
#[derive(Debug, PartialEq, Eq)]
pub enum LinkPhase {
    /// The program object is being created.
    Creating { shaders: Vec<ShaderId> },
    /// The first `attached` of `shaders` are attached or being attached.
    Attaching { program: ProgramId, shaders: Vec<ShaderId>, attached: usize },
    /// The program is being linked.
    Joining { program: ProgramId },
    /// The link status is being read.
    Checking { program: ProgramId },
    /// The link failed; the length of the info log is being read.
    Measuring { program: ProgramId },
    /// The info log is being read.
    Reading { program: ProgramId, log: DiagnosticLog },
    /// The program object is being given back.
    Releasing { log: DiagnosticLog },
}

/// A link under way. It is begun by `Program::from_shader` and moved on by
/// `advance`, and by nothing else.
#[derive(Debug, PartialEq, Eq)]
pub struct Linking {
    phase: LinkPhase,
}

/// What a link does once the driver has answered.
#[derive(Debug, PartialEq, Eq)]
pub enum LinkStep {
    /// Make the call `request` and hand its answer to `job`.
    Ask { job: Linking, request: Request },
    /// The link is over.
    Done { result: Result<Program, LinkError> },
}

/// A step of a link as contracts see it: a link by its phase, an error by the
/// characters of its message, a program by its handle.
pub enum LinkMove {
    Ask { phase: LinkPhase, request: Request },
    Ready { program: ProgramId },
    Failed { message: Seq<char> },
}

/// The calls that a link made and how it ended, if it has.
pub struct LinkRun {
    pub requests: Seq<Request>,
    pub outcome: Option<LinkMove>,
}

/// The message of a link for which the driver created no program object.
pub open spec fn no_program_text() -> Seq<char> {
    "the driver created no program object"@
}

/// The handles of `shaders`, in their order.
pub open spec fn handles(shaders: Seq<Shader>) -> Seq<ShaderId> {
    Seq::new(shaders.len(), |i: int| shaders[i].id())
}

impl View for Linking {
    type V = LinkPhase;

    closed spec fn view(&self) -> LinkPhase {
        self.phase
    }
}

impl View for LinkStep {
    type V = LinkMove;

    open spec fn view(&self) -> LinkMove {
        match *self {
            LinkStep::Ask { job, request } => LinkMove::Ask { phase: job@, request },
            LinkStep::Done { result: Ok(program) } => LinkMove::Ready { program: program.id() },
            LinkStep::Done { result: Err(error) } => LinkMove::Failed { message: error.message@ },
        }
    }
}

impl Program {
    #[verifier::type_invariant]
    spec fn names_an_object(&self) -> bool {
        self.id.0 != 0
    }

    /// The handle of the program object.
    pub closed spec fn spec_id(&self) -> ProgramId {
        self.id
    }

    /// Begins to link `shaders`, which are attached in their order: the link,
    /// and the first call to make for it. The shaders stay with their owner.
    /// None of the handles that will be attached is zero.
    pub fn from_shader(shaders: &[Shader]) -> (start: (Linking, Request))
        requires
            shaders@.len() > 0,
        ensures
            start.0@ matches LinkPhase::Creating { shaders: ids } && ids@ == handles(shaders@)
                && forall|i: int| 0 <= i < ids@.len() ==> (#[trigger] ids@[i]).0 != 0,
            start.1 == Request::CreateProgram,
    {
        let mut ids: Vec<ShaderId> = Vec::new();
        let mut i: usize = 0;
        while i < shaders.len()
            invariant
                i <= shaders@.len(),
                ids@ == handles(shaders@.take(i as int)),
                forall|k: int| 0 <= k < ids@.len() ==> (#[trigger] ids@[k]).0 != 0,
            decreases shaders@.len() - i,
        {
            ids.push(shaders[i].id());
            assert(ids@ =~= handles(shaders@.take(i + 1)));
            i += 1;
        }
        assert(shaders@.take(i as int) =~= shaders@);
        (Linking { phase: LinkPhase::Creating { shaders: ids } }, Request::CreateProgram)
    }

    /// The handle of the program object. It is never zero.
    #[verifier::when_used_as_spec(spec_id)]
    pub fn id(&self) -> (id: ProgramId)
        ensures
            id == self.spec_id(),
            id.0 != 0,
    {
        proof {
            use_type_invariant(self);
        }
        self.id
    }

    /// The call that makes this program the one that rendering uses.
    pub fn set_used(&self) -> (request: Request)
        ensures
            request == (Request::UseProgram { program: self.id() }),
    {
        Request::UseProgram { program: self.id }
    }

    /// Ends the program's life: the one call that gives its handle back. The
    /// program is consumed, so the call is asked for once.
    pub fn release(self) -> (request: Request)
        ensures
            request == (Request::DeleteProgram { program: self.id() }),
    {
        Request::DeleteProgram { program: self.id }
    }
}

impl LinkPhase {
    /// The program object that the link has in hand.
    pub open spec fn program(self) -> Option<ProgramId> {
        match self {
            LinkPhase::Creating { .. } => None,
            LinkPhase::Attaching { program, .. } => Some(program),
            LinkPhase::Joining { program } => Some(program),
            LinkPhase::Checking { program } => Some(program),
            LinkPhase::Measuring { program } => Some(program),
            LinkPhase::Reading { program, .. } => Some(program),
            LinkPhase::Releasing { .. } => None,
        }
    }

    /// What a link does when `attached` of `shaders` are attached to
    /// `program`: it attaches the next one, or links when none is left.
    pub open spec fn attach_or_link(
        program: ProgramId,
        shaders: Vec<ShaderId>,
        attached: usize,
    ) -> LinkMove {
        if attached < shaders@.len() {
            LinkMove::Ask {
                phase: LinkPhase::Attaching { program, shaders, attached: (attached + 1) as usize },
                request: Request::AttachShader { program, shader: shaders@[attached as int] },
            }
        } else {
            LinkMove::Ask {
                phase: LinkPhase::Joining { program },
                request: Request::LinkProgram { program },
            }
        }
    }

    /// What a link in this phase does when the driver answers `reply`.
    ///
    /// A creation that brings no handle, or zero, ends the link at once. A
    /// status other than zero makes the program; a status of zero leads
    /// through the info log and the deletion of the program object to the
    /// error.
    pub open spec fn next(self, reply: Reply) -> LinkMove {
        match self {
            LinkPhase::Creating { shaders } => if reply.handle() == 0 {
                LinkMove::Failed { message: no_program_text() }
            } else {
                LinkPhase::attach_or_link(ProgramId(reply.handle()), shaders, 0)
            },
            LinkPhase::Attaching { program, shaders, attached } => LinkPhase::attach_or_link(
                program,
                shaders,
                attached,
            ),
            LinkPhase::Joining { program } => LinkMove::Ask {
                phase: LinkPhase::Checking { program },
                request: Request::ProgramParameter { program, parameter: Parameter::LinkStatus },
            },
            LinkPhase::Checking { program } => if reply.value() != 0 {
                LinkMove::Ready { program }
            } else {
                LinkMove::Ask {
                    phase: LinkPhase::Measuring { program },
                    request: Request::ProgramParameter {
                        program,
                        parameter: Parameter::InfoLogLength,
                    },
                }
            },
            LinkPhase::Measuring { program } => {
                let log = DiagnosticLog { length: reply.value(), written: None };
                LinkMove::Ask {
                    phase: LinkPhase::Reading { program, log },
                    request: Request::ProgramInfoLog { program, capacity: log.capacity() as usize },
                }
            },
            LinkPhase::Reading { program, log } => LinkMove::Ask {
                phase: LinkPhase::Releasing { log: reply.fill(log) },
                request: Request::DeleteProgram { program },
            },
            LinkPhase::Releasing { log } => LinkMove::Failed { message: lossy_text(log@) },
        }
    }

    /// The calls that a link in this phase makes from `request` on, and how
    /// it ends, when the driver answers them with the replies from the one at
    /// `at` on, in turn. Replies past the end of the link are not read.
    pub open spec fn run_from(self, request: Request, replies: Seq<Reply>, at: nat) -> LinkRun
        decreases replies.len() - at,
    {
        if at >= replies.len() {
            LinkRun { requests: seq![request], outcome: None }
        } else {
            match self.next(replies[at as int]) {
                LinkMove::Ask { phase, request: then } => {
                    let rest = phase.run_from(then, replies, at + 1);
                    LinkRun { requests: seq![request] + rest.requests, outcome: rest.outcome }
                },
                end => LinkRun { requests: seq![request], outcome: Some(end) },
            }
        }
    }
}

impl Linking {
    #[verifier::type_invariant]
    spec fn names_an_object(&self) -> bool {
        self.phase.program() matches Some(program) ==> program.0 != 0
    }

    fn proceed(program: ProgramId, shaders: Vec<ShaderId>, attached: usize) -> (step: LinkStep)
        requires
            program.0 != 0,
        ensures
            step@ == LinkPhase::attach_or_link(program, shaders, attached),
    {
        if attached < shaders.len() {
            let shader = shaders[attached];
            LinkStep::Ask {
                job: Linking {
                    phase: LinkPhase::Attaching { program, shaders, attached: attached + 1 },
                },
                request: Request::AttachShader { program, shader },
            }
        } else {
            LinkStep::Ask {
                job: Linking { phase: LinkPhase::Joining { program } },
                request: Request::LinkProgram { program },
            }
        }
    }

    /// Takes the driver's answer to the call that the link waits for, and
    /// says what comes next.
    ///
    /// The message of an error is never empty where the driver created no
    /// program object, nor where the info log is valid UTF-8 and not empty.
    pub fn advance(self, reply: Reply) -> (step: LinkStep)
        ensures
            step@ == self@.next(reply),
            self@ is Creating ==> (step@ matches LinkMove::Failed { message } ==> message.len()
                > 0),
            self@ matches LinkPhase::Releasing { log } ==> (valid_utf8(log@) ==> step@ == (
            LinkMove::Failed { message: decode_utf8(log@) })),
            self@ matches LinkPhase::Releasing { log } ==> (valid_utf8(log@) && log@.len() > 0 ==> (
            step@ matches LinkMove::Failed { message } && message.len() > 0)),
    {
        proof {
            use_type_invariant(&self);
        }
        match self.phase {
            LinkPhase::Creating { shaders } => {
                let handle = reply.handle();
                if handle == 0 {
                    LinkStep::Done { result: Err(LinkError { message: no_program_message() }) }
                } else {
                    Linking::proceed(ProgramId(handle), shaders, 0)
                }
            },
            LinkPhase::Attaching { program, shaders, attached } => Linking::proceed(
                program,
                shaders,
                attached,
            ),
            LinkPhase::Joining { program } => LinkStep::Ask {
                job: Linking { phase: LinkPhase::Checking { program } },
                request: Request::ProgramParameter { program, parameter: Parameter::LinkStatus },
            },
            LinkPhase::Checking { program } => if reply.value() != 0 {
                LinkStep::Done { result: Ok(Program { id: program }) }
            } else {
                LinkStep::Ask {
                    job: Linking { phase: LinkPhase::Measuring { program } },
                    request: Request::ProgramParameter {
                        program,
                        parameter: Parameter::InfoLogLength,
                    },
                }
            },
            LinkPhase::Measuring { program } => {
                let log = DiagnosticLog::sized(reply.value());
                let capacity = log.size();
                LinkStep::Ask {
                    job: Linking { phase: LinkPhase::Reading { program, log } },
                    request: Request::ProgramInfoLog { program, capacity },
                }
            },
            LinkPhase::Reading { program, log } => LinkStep::Ask {
                job: Linking { phase: LinkPhase::Releasing { log: reply.fill(log) } },
                request: Request::DeleteProgram { program },
            },
            LinkPhase::Releasing { log } => LinkStep::Done {
                result: Err(LinkError { message: log.into_text() }),
            },
        }
    }
}

/// The message of a link for which the driver created no program object.
fn no_program_message() -> (text: String)
    ensures
        text@ == no_program_text(),
        text@.len() > 0,
{
    proof {
        reveal_strlit("the driver created no program object");
    }
    "the driver created no program object".to_owned()
}

/// The calls that linking `shaders` takes, and how it ends, when the driver
/// answers them with `replies` in turn.
pub open spec fn link(shaders: Vec<ShaderId>, replies: Seq<Reply>) -> LinkRun {
    (LinkPhase::Creating { shaders }).run_from(Request::CreateProgram, replies, 0)
}

/// The calls that attach `shaders` to `program`, from the one at `from` on,
/// in their order.
pub open spec fn attach_calls(program: ProgramId, shaders: Seq<ShaderId>, from: int) -> Seq<
    Request,
> {
    Seq::new(
        (shaders.len() - from) as nat,
        |i: int| Request::AttachShader { program, shader: shaders[from + i] },
    )
}

/// The two calls that link `program` and read how that went.
pub open spec fn status_calls(program: ProgramId) -> Seq<Request> {
    seq![
        Request::LinkProgram { program },
        Request::ProgramParameter { program, parameter: Parameter::LinkStatus },
    ]
}

/// The calls that every link of `shaders` makes once the driver has created
/// the program object `program`: one that creates the program, one for each
/// shader, one that links, one that reads the status.
pub open spec fn link_calls(program: ProgramId, shaders: Seq<ShaderId>) -> Seq<Request> {
    seq![Request::CreateProgram] + attach_calls(program, shaders, 0) + status_calls(program)
}

/// The three calls that follow a failed link of `program`, whose info log the
/// driver reported to be `length` bytes long.
pub open spec fn diagnose_calls(program: ProgramId, length: i32) -> Seq<Request> {
    seq![
        Request::ProgramParameter { program, parameter: Parameter::InfoLogLength },
        Request::ProgramInfoLog {
            program,
            capacity: (DiagnosticLog { length, written: None }).capacity() as usize,
        },
        Request::DeleteProgram { program },
    ]
}

/// Where the driver creates no program object, the link is over with an
/// error: no call follows the first, nothing is attached, and the driver
/// holds what it held before.
pub proof fn lemma_link_without_object(
    shaders: Vec<ShaderId>,
    replies: Seq<Reply>,
    ledger: Ledger,
)
    requires
        replies.len() >= 1,
        replies[0].handle() == 0,
    ensures
        ({
            let run = link(shaders, replies);
            &&& run.requests == seq![Request::CreateProgram]
            &&& run.outcome == Some(LinkMove::Failed { message: no_program_text() })
            &&& ledger.after_all(run.requests, replies) == ledger
        }),
{
    reveal_with_fuel(Ledger::after_first, 2);
}

/// Where the driver creates a program object and reports a link status other
/// than zero, the link is over once every shader is attached and the status
/// read, with a program of the handle that the driver gave out. Every shader
/// was attached, in order; no call gives a handle back, so the shaders are
/// as they were, and the driver holds that one program more.
pub proof fn lemma_link_succeeds(shaders: Vec<ShaderId>, replies: Seq<Reply>, ledger: Ledger)
    requires
        replies.len() >= shaders@.len() + 3,
        replies[0].handle() != 0,
        replies[shaders@.len() as int + 2].value() != 0,
    ensures
        ({
            let program = ProgramId(replies[0].handle());
            let run = link(shaders, replies);
            &&& run.requests == link_calls(program, shaders@)
            &&& run.outcome == Some(LinkMove::Ready { program })
            &&& ledger.after_all(run.requests, replies) == (Ledger {
                programs: ledger.programs.insert(program),
                ..ledger
            })
        }),
{
    let n = shaders@.len();
    let program = ProgramId(replies[0].handle());
    let calls = link_calls(program, shaders@);
    lemma_link_attaches_all(shaders, replies);
    reveal_with_fuel(LinkPhase::run_from, 3);
    assert((LinkPhase::Joining { program }).run_from(
        Request::LinkProgram { program },
        replies,
        n + 1,
    ).requests =~= status_calls(program));
    lemma_attaching_account(calls, replies, program, n, n + 1, ledger);
    reveal_with_fuel(Ledger::after_first, 3);
}

/// Where the driver creates a program object and reports a link status of
/// zero, the link is over after three calls more, with an error that carries
/// the text of the info log. The buffer asked for has the length that the
/// driver reported, the last call gives back the handle that the first one
/// brought, and the driver holds what it held before: the program is gone
/// and every shader is still there.
pub proof fn lemma_link_fails(shaders: Vec<ShaderId>, replies: Seq<Reply>, ledger: Ledger)
    requires
        replies.len() >= shaders@.len() + 6,
        replies[0].handle() != 0,
        replies[shaders@.len() as int + 2].value() == 0,
    ensures
        ({
            let n = shaders@.len() as int;
            let program = ProgramId(replies[0].handle());
            let log = replies[n + 4].fill(
                DiagnosticLog { length: replies[n + 3].value(), written: None },
            );
            let run = link(shaders, replies);
            &&& run.requests == link_calls(program, shaders@) + diagnose_calls(
                program,
                replies[n + 3].value(),
            )
            &&& run.outcome == Some(LinkMove::Failed { message: lossy_text(log@) })
            &&& ledger.after_all(run.requests, replies) == ledger
        }),
{
    let n = shaders@.len();
    let program = ProgramId(replies[0].handle());
    let rest = diagnose_calls(program, replies[n as int + 3].value());
    let calls = link_calls(program, shaders@) + rest;
    lemma_link_attaches_all(shaders, replies);
    reveal_with_fuel(LinkPhase::run_from, 6);
    assert((LinkPhase::Joining { program }).run_from(
        Request::LinkProgram { program },
        replies,
        n + 1,
    ).requests =~= status_calls(program) + rest);
    assert(link(shaders, replies).requests =~= calls);
    lemma_attaching_account(calls, replies, program, n, n + 1, ledger);
    reveal_with_fuel(Ledger::after_first, 6);
    assert(ledger.programs.insert(program).remove(program) =~= ledger.programs);
}

/// A link ends whatever the driver answers: six answers more than there are
/// shaders are always enough. It ends with a program exactly where the driver
/// created a program object and reported a link status other than zero.
pub proof fn lemma_link_ends(shaders: Vec<ShaderId>, replies: Seq<Reply>)
    requires
        replies.len() >= shaders@.len() + 6,
    ensures
        link(shaders, replies).outcome is Some,
        link(shaders, replies).outcome->0 is Ready <==> replies[0].handle() != 0
            && replies[shaders@.len() as int + 2].value() != 0,
        link(shaders, replies).outcome->0 is Failed <==> replies[0].handle() == 0
            || replies[shaders@.len() as int + 2].value() == 0,
{
    let ledger = Ledger {
        shaders: Multiset::empty(),
        programs: Multiset::empty(),
        current: None,
    };
    if replies[0].handle() == 0 {
        lemma_link_without_object(shaders, replies, ledger);
    } else if replies[shaders@.len() as int + 2].value() != 0 {
        lemma_link_succeeds(shaders, replies, ledger);
    } else {
        lemma_link_fails(shaders, replies, ledger);
    }
}

/// A link never ends with a program of handle zero, however many answers the
/// driver has given and whatever they are: the program it ends with has the
/// handle that the driver gave out first, and the driver reported a link
/// status other than zero for it.
pub proof fn lemma_linked_handle_is_valid(shaders: Vec<ShaderId>, replies: Seq<Reply>)
    ensures
        link(shaders, replies).outcome matches Some(LinkMove::Ready { program }) ==> program.0 != 0
            && replies.len() >= shaders@.len() + 3 && program == ProgramId(replies[0].handle())
            && replies[shaders@.len() as int + 2].value() != 0,
{
    if replies.len() > 0 && replies[0].handle() != 0 {
        let program = ProgramId(replies[0].handle());
        lemma_attaching(program, shaders, 0, replies, 1);
        reveal_with_fuel(LinkPhase::run_from, 6);
    }
}

/// Whatever the driver answers, a link attaches nothing but the shaders it
/// was given, and to nothing but the program object that the driver created:
/// where no shader has handle zero, handle zero is never attached, and
/// nothing is ever attached to handle zero.
pub proof fn lemma_attaches_given_shaders(shaders: Vec<ShaderId>, replies: Seq<Reply>)
    ensures
        forall|j: int|
            0 <= j < link(shaders, replies).requests.len() ==> (#[trigger] link(
                shaders,
                replies,
            ).requests[j] matches Request::AttachShader { program, shader } ==> program.0 != 0
                && program == ProgramId(replies[0].handle()) && shaders@.contains(shader)),
{
    if replies.len() > 0 && replies[0].handle() != 0 {
        let program = ProgramId(replies[0].handle());
        lemma_attaching_names_given(program, shaders, 0, replies, 1);
    }
}

/// Once a program is linked and the call that `set_used` gives is made, the
/// program in use is that program.
pub proof fn lemma_used_is_current(
    shaders: Vec<ShaderId>,
    replies: Seq<Reply>,
    ledger: Ledger,
    program: Program,
    reply: Reply,
)
    requires
        link(shaders, replies).outcome == Some(LinkMove::Ready { program: program.id() }),
    ensures
        ({
            let linked = ledger.after_all(link(shaders, replies).requests, replies);
            let used = linked.after(Request::UseProgram { program: program.id() }, reply);
            &&& used.current == Some(program.id())
            &&& used.programs.count(program.id()) > 0
        }),
{
    lemma_linked_handle_is_valid(shaders, replies);
    lemma_link_succeeds(shaders, replies, ledger);
}

/// A program that was linked and then released leaves the driver holding
/// what it held before: the release gives back exactly the handle that the
/// link brought.
pub proof fn lemma_release_restores(
    shaders: Vec<ShaderId>,
    replies: Seq<Reply>,
    ledger: Ledger,
    program: Program,
    reply: Reply,
)
    requires
        link(shaders, replies).outcome == Some(LinkMove::Ready { program: program.id() }),
    ensures
        ledger.after_all(link(shaders, replies).requests, replies).after(
            Request::DeleteProgram { program: program.id() },
            reply,
        ) == ledger,
{
    lemma_linked_handle_is_valid(shaders, replies);
    lemma_link_succeeds(shaders, replies, ledger);
    assert(ledger.programs.insert(program.id()).remove(program.id()) =~= ledger.programs);
}

/// A link that has its program object attaches every shader in order and
/// then links: its calls are those of `link_calls` up to the link itself,
/// and what follows is what follows the link.
proof fn lemma_link_attaches_all(shaders: Vec<ShaderId>, replies: Seq<Reply>)
    requires
        replies.len() >= shaders@.len() + 1,
        replies[0].handle() != 0,
    ensures
        ({
            let program = ProgramId(replies[0].handle());
            let tail = (LinkPhase::Joining { program }).run_from(
                Request::LinkProgram { program },
                replies,
                shaders@.len() + 1,
            );
            &&& link(shaders, replies).requests == seq![Request::CreateProgram] + attach_calls(
                program,
                shaders@,
                0,
            ) + tail.requests
            &&& link(shaders, replies).outcome == tail.outcome
        }),
{
    let program = ProgramId(replies[0].handle());
    lemma_attaching(program, shaders, 0, replies, 1);
    let tail = (LinkPhase::Joining { program }).run_from(
        Request::LinkProgram { program },
        replies,
        shaders@.len() + 1,
    );
    assert(seq![Request::CreateProgram] + (attach_calls(program, shaders@, 0) + tail.requests)
        =~= seq![Request::CreateProgram] + attach_calls(program, shaders@, 0) + tail.requests);
}

/// With `attached` shaders attached, the link attaches the others in order
/// and then links. Where the answers run out before that, it has not ended.
proof fn lemma_attaching(
    program: ProgramId,
    shaders: Vec<ShaderId>,
    attached: usize,
    replies: Seq<Reply>,
    at: nat,
)
    requires
        attached <= shaders@.len(),
    ensures
        ({
            let step = LinkPhase::attach_or_link(program, shaders, attached);
            let run = step->Ask_phase.run_from(step->Ask_request, replies, at);
            let tail = (LinkPhase::Joining { program }).run_from(
                Request::LinkProgram { program },
                replies,
                (at + shaders@.len() - attached) as nat,
            );
            &&& step is Ask
            &&& run.outcome == tail.outcome
            &&& replies.len() >= at + shaders@.len() - attached ==> run.requests == attach_calls(
                program,
                shaders@,
                attached as int,
            ) + tail.requests
        }),
    decreases shaders@.len() - attached,
{
    let tail = (LinkPhase::Joining { program }).run_from(
        Request::LinkProgram { program },
        replies,
        (at + shaders@.len() - attached) as nat,
    );
    if attached == shaders@.len() {
        assert(attach_calls(program, shaders@, attached as int) + tail.requests
            =~= tail.requests);
    } else {
        assert(shaders@.len() == shaders.len());
        let more = (attached + 1) as usize;
        lemma_attaching(program, shaders, more, replies, at + 1);
        assert(attach_calls(program, shaders@, attached as int) =~= seq![
            Request::AttachShader { program, shader: shaders@[attached as int] },
        ] + attach_calls(program, shaders@, more as int));
        assert(seq![Request::AttachShader { program, shader: shaders@[attached as int] }]
            + (attach_calls(program, shaders@, more as int) + tail.requests) =~= attach_calls(
            program,
            shaders@,
            attached as int,
        ) + tail.requests);
    }
}

/// With `attached` shaders attached, whatever the link goes on to attach is
/// one of its shaders, and is attached to `program`.
proof fn lemma_attaching_names_given(
    program: ProgramId,
    shaders: Vec<ShaderId>,
    attached: usize,
    replies: Seq<Reply>,
    at: nat,
)
    requires
        attached <= shaders@.len(),
        program.0 != 0,
    ensures
        ({
            let step = LinkPhase::attach_or_link(program, shaders, attached);
            let run = step->Ask_phase.run_from(step->Ask_request, replies, at);
            forall|j: int|
                0 <= j < run.requests.len() ==> (#[trigger] run.requests[j] matches Request::AttachShader {
                    program: to,
                    shader,
                } ==> to == program && shaders@.contains(shader))
        }),
    decreases shaders@.len() - attached,
{
    if attached == shaders@.len() {
        reveal_with_fuel(LinkPhase::run_from, 6);
    } else {
        assert(shaders@.len() == shaders.len());
        let more = (attached + 1) as usize;
        lemma_attaching_names_given(program, shaders, more, replies, at + 1);
        assert(shaders@.contains(shaders@[attached as int]));
    }
}

/// The account after the call that created `program` and any number of the
/// calls that attach to it: one program more. Attaching changes nothing.
proof fn lemma_attaching_account(
    requests: Seq<Request>,
    replies: Seq<Reply>,
    program: ProgramId,
    shaders: nat,
    count: nat,
    ledger: Ledger,
)
    requires
        1 <= count <= shaders + 1,
        requests.len() > shaders,
        replies.len() > shaders,
        requests[0] == Request::CreateProgram,
        forall|i: int| 1 <= i <= shaders ==> #[trigger] requests[i] is AttachShader,
        program == ProgramId(replies[0].handle()),
        program.0 != 0,
    ensures
        ledger.after_first(requests, replies, count) == (Ledger {
            programs: ledger.programs.insert(program),
            ..ledger
        }),
    decreases count,
{
    if count == 1 {
        reveal_with_fuel(Ledger::after_first, 2);
    } else {
        lemma_attaching_account(requests, replies, program, shaders, (count - 1) as nat, ledger);
        assert(requests[count - 1] is AttachShader);
    }
}

} // verus!
