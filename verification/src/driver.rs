//! The calls that are asked of the driver, its answers, and the account of
//! what it holds.

use crate::diagnostic::DiagnosticLog;
use crate::handle::{Parameter, ProgramId, ShaderId, Stage};
use crate::source::SourceText;
use vstd::multiset::Multiset;
use vstd::prelude::*;

verus! {

/// One call to be made on the driver.
#[derive(Debug, PartialEq, Eq)]
pub enum Request {
    /// Create a shader object for `stage`. Answered by its handle, or by
    /// zero where the driver created none.
    CreateShader { stage: Stage },
    /// Submit `source` as the whole source of `shader`.
    ShaderSource { shader: ShaderId, source: SourceText },
    /// Compile the source that `shader` holds.
    CompileShader { shader: ShaderId },
    /// Read `parameter` of `shader`. Answered by its value.
    ShaderParameter { shader: ShaderId, parameter: Parameter },
    /// Read the info log of `shader` into a buffer of `capacity` bytes.
    /// Answered by the bytes of the buffer as the driver left it; the text
    /// in it ends at the first zero byte.
    ShaderInfoLog { shader: ShaderId, capacity: usize },
    /// Give `shader` back to the driver.
    DeleteShader { shader: ShaderId },
    /// Create a program object. Answered by its handle, or by zero where the
    /// driver created none.
    CreateProgram,
    /// Attach `shader` to `program`.
    AttachShader { program: ProgramId, shader: ShaderId },
    /// Link what is attached to `program`.
    LinkProgram { program: ProgramId },
    /// Read `parameter` of `program`. Answered by its value.
    ProgramParameter { program: ProgramId, parameter: Parameter },
    /// Read the info log of `program` into a buffer of `capacity` bytes.
    /// Answered by the bytes of the buffer as the driver left it; the text
    /// in it ends at the first zero byte.
    ProgramInfoLog { program: ProgramId, capacity: usize },
    /// Give `program` back to the driver.
    DeleteProgram { program: ProgramId },
    /// Make `program` the one that rendering uses from now on.
    UseProgram { program: ProgramId },
}

/// What the driver answered to one call.
#[derive(Debug, PartialEq, Eq)]
pub enum Reply {
    /// The call returns nothing.
    Nothing,
    /// The handle of the object that was created.
    Handle(u32),
    /// The value of the parameter that was read.
    Value(i32),
    /// The bytes of the buffer that was written to.
    Bytes(Vec<u8>),
}

impl Reply {
    /// The handle that the reply carries; zero, the driver's name for no
    /// object, where it carries none.
    pub open spec fn spec_handle(&self) -> u32 {
        match *self {
            Reply::Handle(handle) => handle,
            _ => 0,
        }
    }

    /// The value that the reply carries; zero where it carries none.
    pub open spec fn spec_value(&self) -> i32 {
        match *self {
            Reply::Value(value) => value,
            _ => 0,
        }
    }

    /// `log` with the bytes that the reply carries in it; `log` as it is
    /// where the reply carries none.
    pub open spec fn spec_fill(self, log: DiagnosticLog) -> DiagnosticLog {
        match self {
            Reply::Bytes(data) => DiagnosticLog { length: log.length, written: Some(data) },
            _ => log,
        }
    }

    /// The handle that the reply carries; zero, the driver's name for no
    /// object, where it carries none.
    #[verifier::when_used_as_spec(spec_handle)]
    pub fn handle(&self) -> (handle: u32)
        ensures
            handle == self.spec_handle(),
    {
        match self {
            Reply::Handle(handle) => *handle,
            _ => 0,
        }
    }

    /// The value that the reply carries; zero where it carries none.
    #[verifier::when_used_as_spec(spec_value)]
    pub fn value(&self) -> (value: i32)
        ensures
            value == self.spec_value(),
    {
        match self {
            Reply::Value(value) => *value,
            _ => 0,
        }
    }

    /// `log` with the bytes that the reply carries in it; `log` as it is
    /// where the reply carries none.
    #[verifier::when_used_as_spec(spec_fill)]
    pub fn fill(self, log: DiagnosticLog) -> (filled: DiagnosticLog)
        ensures
            filled == self.spec_fill(log),
    {
        match self {
            Reply::Bytes(data) => log.filled(data),
            _ => log,
        }
    }
}

/// An account of what the driver holds for its caller: the handles that it
/// gave out and was not given back, each as often as that happened, and the
/// program in use.
pub struct Ledger {
    pub shaders: Multiset<ShaderId>,
    pub programs: Multiset<ProgramId>,
    pub current: Option<ProgramId>,
}

impl Ledger {
    /// The account after one call and its answer. A creation that brought
    /// zero brought no object, and leaves the account as it was.
    pub open spec fn after(self, request: Request, reply: Reply) -> Ledger {
        match request {
            Request::CreateShader { .. } => if reply.handle() == 0 {
                self
            } else {
                Ledger { shaders: self.shaders.insert(ShaderId(reply.handle())), ..self }
            },
            Request::DeleteShader { shader } => Ledger {
                shaders: self.shaders.remove(shader),
                ..self
            },
            Request::CreateProgram => if reply.handle() == 0 {
                self
            } else {
                Ledger { programs: self.programs.insert(ProgramId(reply.handle())), ..self }
            },
            Request::DeleteProgram { program } => Ledger {
                programs: self.programs.remove(program),
                ..self
            },
            Request::UseProgram { program } => Ledger { current: Some(program), ..self },
            _ => self,
        }
    }

    /// The account after the first `count` of the calls `requests`, each
    /// answered by the reply at its place in `replies`.
    pub open spec fn after_first(
        self,
        requests: Seq<Request>,
        replies: Seq<Reply>,
        count: nat,
    ) -> Ledger
        decreases count,
    {
        if count == 0 {
            self
        } else {
            self.after_first(requests, replies, (count - 1) as nat).after(
                requests[count - 1],
                replies[count - 1],
            )
        }
    }

    /// The account after the calls `requests`, each answered by the reply at
    /// its place in `replies`. Calls beyond the last reply are not counted.
    pub open spec fn after_all(self, requests: Seq<Request>, replies: Seq<Reply>) -> Ledger {
        self.after_first(
            requests,
            replies,
            if requests.len() <= replies.len() {
                requests.len()
            } else {
                replies.len()
            },
        )
    }
}

} // verus!
