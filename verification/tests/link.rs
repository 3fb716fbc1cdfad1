use rendu::driver::{Reply, Request};
use rendu::handle::{Parameter, ProgramId, ShaderId, Stage};
use rendu::program::{LinkError, LinkStep, Linking, Program};
use rendu::shader::{CompileError, CompileStep, Shader};
use rendu::source::SourceText;

fn source(text: &str) -> SourceText {
    SourceText::new(text.as_bytes().to_vec()).unwrap()
}

/// Compiles against a driver that gives out `handle` and reports `status`,
/// with the info log `log` where it is asked for one.
fn compile(stage: Stage, handle: u32, status: i32, log: &[u8]) -> Result<Shader, CompileError> {
    let (mut job, _) = Shader::from_source(source("void main() {}"), stage);
    let mut reply = Reply::Handle(handle);
    loop {
        match job.advance(reply) {
            CompileStep::Ask { job: next, request } => {
                reply = match request {
                    Request::ShaderParameter { parameter: Parameter::CompileStatus, .. } => {
                        Reply::Value(status)
                    }
                    Request::ShaderParameter { parameter: Parameter::InfoLogLength, .. } => {
                        Reply::Value(log.len() as i32)
                    }
                    Request::ShaderInfoLog { .. } => Reply::Bytes(log.to_vec()),
                    _ => Reply::Nothing,
                };
                job = next;
            }
            CompileStep::Done { result } => return result,
        }
    }
}

/// Answers the calls of a link with `replies` in turn, and gives the calls
/// that were made and the result, if the replies sufficed for one.
fn link_with(
    start: (Linking, Request),
    replies: Vec<Reply>,
) -> (Vec<Request>, Option<Result<Program, LinkError>>) {
    let (mut job, first) = start;
    let mut asked = vec![first];
    for reply in replies {
        match job.advance(reply) {
            LinkStep::Ask { job: next, request } => {
                asked.push(request);
                job = next;
            }
            LinkStep::Done { result } => return (asked, Some(result)),
        }
    }
    (asked, None)
}

fn pair() -> [Shader; 2] {
    [
        compile(Stage::Vertex, 3, 1, b"").unwrap(),
        compile(Stage::Fragment, 4, 1, b"").unwrap(),
    ]
}

/// The answers of a driver that creates the program `handle` for two shaders,
/// refuses to link them, reports `length` for its info log and leaves
/// `buffer` behind.
fn refusing(handle: u32, length: i32, buffer: &[u8]) -> Vec<Reply> {
    vec![
        Reply::Handle(handle),
        Reply::Nothing,
        Reply::Nothing,
        Reply::Nothing,
        Reply::Value(0),
        Reply::Value(length),
        Reply::Bytes(buffer.to_vec()),
        Reply::Nothing,
    ]
}

#[test]
fn link_begins_by_creating_a_program() {
    let shaders = pair();
    let (_, request) = Program::from_shader(&shaders);
    assert_eq!(request, Request::CreateProgram);
}

#[test]
fn a_valid_pair_links_to_a_program() {
    let shaders = pair();
    let replies = vec![
        Reply::Handle(21),
        Reply::Nothing,
        Reply::Nothing,
        Reply::Nothing,
        Reply::Value(1),
    ];
    let (asked, result) = link_with(Program::from_shader(&shaders), replies);
    let program = ProgramId(21);
    assert_eq!(
        asked,
        vec![
            Request::CreateProgram,
            Request::AttachShader { program, shader: ShaderId(3) },
            Request::AttachShader { program, shader: ShaderId(4) },
            Request::LinkProgram { program },
            Request::ProgramParameter { program, parameter: Parameter::LinkStatus },
        ]
    );
    let linked = result.unwrap().unwrap();
    assert_eq!(linked.id(), program);
    assert_ne!(linked.id().0, 0);
    assert_eq!(linked.set_used(), Request::UseProgram { program });
    assert_eq!(shaders[0].id(), ShaderId(3));
    assert_eq!(shaders[1].id(), ShaderId(4));
}

#[test]
fn shaders_are_attached_in_their_order() {
    let shaders = [
        compile(Stage::Fragment, 9, 1, b"").unwrap(),
        compile(Stage::Vertex, 2, 1, b"").unwrap(),
        compile(Stage::Fragment, 5, 1, b"").unwrap(),
    ];
    let replies = vec![
        Reply::Handle(1),
        Reply::Nothing,
        Reply::Nothing,
        Reply::Nothing,
        Reply::Nothing,
        Reply::Value(1),
    ];
    let (asked, result) = link_with(Program::from_shader(&shaders), replies);
    let program = ProgramId(1);
    assert_eq!(
        asked[1..4],
        [
            Request::AttachShader { program, shader: ShaderId(9) },
            Request::AttachShader { program, shader: ShaderId(2) },
            Request::AttachShader { program, shader: ShaderId(5) },
        ]
    );
    assert_eq!(asked.len(), 6);
    assert!(result.unwrap().is_ok());
}

#[test]
fn one_shader_links_too() {
    let shaders = [compile(Stage::Vertex, 6, 1, b"").unwrap()];
    let replies = vec![Reply::Handle(2), Reply::Nothing, Reply::Nothing, Reply::Value(1)];
    let (asked, result) = link_with(Program::from_shader(&shaders), replies);
    let program = ProgramId(2);
    assert_eq!(
        asked,
        vec![
            Request::CreateProgram,
            Request::AttachShader { program, shader: ShaderId(6) },
            Request::LinkProgram { program },
            Request::ProgramParameter { program, parameter: Parameter::LinkStatus },
        ]
    );
    assert_eq!(result.unwrap().unwrap().id(), program);
}

#[test]
fn no_program_is_made_of_handle_zero() {
    for status in [0, 1] {
        let shaders = pair();
        let replies = vec![
            Reply::Handle(0),
            Reply::Nothing,
            Reply::Nothing,
            Reply::Nothing,
            Reply::Value(status),
            Reply::Value(0),
            Reply::Bytes(Vec::new()),
            Reply::Nothing,
        ];
        let (asked, result) = link_with(Program::from_shader(&shaders), replies);
        assert_eq!(asked, vec![Request::CreateProgram]);
        let error = result.unwrap().unwrap_err();
        assert_eq!(
            error,
            LinkError { message: "the driver created no program object".to_string() }
        );
        assert!(!error.message.is_empty());
    }
}

#[test]
fn an_answer_without_a_handle_makes_no_program() {
    let answers = [Reply::Nothing, Reply::Value(5), Reply::Bytes(vec![1, 2, 3])];
    for answer in answers {
        let shaders = pair();
        let (job, _) = Program::from_shader(&shaders);
        assert_eq!(
            job.advance(answer),
            LinkStep::Done {
                result: Err(LinkError {
                    message: "the driver created no program object".to_string(),
                }),
            }
        );
    }
}

#[test]
fn handle_zero_is_never_attached() {
    assert!(compile(Stage::Vertex, 0, 1, b"").is_err());
    let shaders = pair();
    let (asked, _) = link_with(Program::from_shader(&shaders), refusing(8, 1, b"\0"));
    for request in asked {
        if let Request::AttachShader { program, shader } = request {
            assert_ne!(program.0, 0);
            assert_ne!(shader.0, 0);
        }
    }
}

#[test]
fn a_mismatched_pair_fails_with_the_info_log() {
    let shaders = pair();
    let replies = refusing(21, 25, b"error: color not written\0");
    let (asked, result) = link_with(Program::from_shader(&shaders), replies);
    let program = ProgramId(21);
    assert_eq!(
        asked,
        vec![
            Request::CreateProgram,
            Request::AttachShader { program, shader: ShaderId(3) },
            Request::AttachShader { program, shader: ShaderId(4) },
            Request::LinkProgram { program },
            Request::ProgramParameter { program, parameter: Parameter::LinkStatus },
            Request::ProgramParameter { program, parameter: Parameter::InfoLogLength },
            Request::ProgramInfoLog { program, capacity: 25 },
            Request::DeleteProgram { program },
        ]
    );
    let error = result.unwrap().unwrap_err();
    assert_eq!(error, LinkError { message: "error: color not written".to_string() });
    assert!(!error.message.is_empty());
    let created = asked.iter().filter(|r| **r == Request::CreateProgram).count();
    let deleted = asked.iter().filter(|r| **r == Request::DeleteProgram { program }).count();
    assert_eq!((created, deleted), (1, 1));
    assert!(!asked.iter().any(|r| matches!(r, Request::DeleteShader { .. })));
}

#[test]
fn the_link_message_is_the_text_without_terminator_or_filler() {
    let shaders = pair();
    let (_, result) = link_with(Program::from_shader(&shaders), refusing(2, 9, b"no\0      "));
    assert_eq!(result.unwrap().unwrap_err().message, "no".to_string());

    let (_, result) = link_with(Program::from_shader(&shaders), refusing(2, 2, b"no"));
    assert_eq!(result.unwrap().unwrap_err().message, "no".to_string());

    let (_, result) = link_with(Program::from_shader(&shaders), refusing(2, 2, b"nothing\0"));
    assert_eq!(result.unwrap().unwrap_err().message, "no".to_string());

    let (_, result) = link_with(Program::from_shader(&shaders), refusing(2, -3, b"nothing\0"));
    assert_eq!(result.unwrap().unwrap_err().message, String::new());
}

#[test]
fn a_failed_compile_leaves_nothing_to_link() {
    let vertex = compile(Stage::Vertex, 3, 1, b"");
    let fragment = compile(Stage::Fragment, 4, 0, b"0:2: unexpected token\0");
    assert!(vertex.is_ok());
    let error = fragment.unwrap_err();
    assert_eq!(
        error,
        CompileError { stage: Stage::Fragment, message: "0:2: unexpected token".to_string() }
    );
    let release = vertex.unwrap().release();
    assert_eq!(release, Request::DeleteShader { shader: ShaderId(3) });
}

#[test]
fn any_status_but_zero_links() {
    for status in [1, -1, 7, i32::MIN, i32::MAX] {
        let shaders = pair();
        let replies = vec![
            Reply::Handle(2),
            Reply::Nothing,
            Reply::Nothing,
            Reply::Nothing,
            Reply::Value(status),
        ];
        let (_, result) = link_with(Program::from_shader(&shaders), replies);
        assert_eq!(result.unwrap().unwrap().id(), ProgramId(2));
    }
}

#[test]
fn release_gives_back_the_handle_of_the_program() {
    let shaders = pair();
    let replies = vec![
        Reply::Handle(77),
        Reply::Nothing,
        Reply::Nothing,
        Reply::Nothing,
        Reply::Value(1),
    ];
    let (_, result) = link_with(Program::from_shader(&shaders), replies);
    let program = result.unwrap().unwrap();
    assert_eq!(program.release(), Request::DeleteProgram { program: ProgramId(77) });
    let [vertex, fragment] = shaders;
    assert_eq!(vertex.release(), Request::DeleteShader { shader: ShaderId(3) });
    assert_eq!(fragment.release(), Request::DeleteShader { shader: ShaderId(4) });
}

#[test]
fn a_link_ends_within_six_answers_more_than_shaders() {
    for (handle, status, calls) in [(1, 1, 5), (1, 0, 8), (0, 1, 1), (0, 0, 1)] {
        let shaders = pair();
        let replies = vec![
            Reply::Handle(handle),
            Reply::Nothing,
            Reply::Nothing,
            Reply::Nothing,
            Reply::Value(status),
            Reply::Value(2),
            Reply::Bytes(b"!\0".to_vec()),
            Reply::Nothing,
        ];
        let (asked, result) = link_with(Program::from_shader(&shaders), replies);
        let result = result.unwrap();
        assert_eq!(result.is_ok(), handle != 0 && status != 0);
        assert_eq!(asked.len(), calls);
    }
}
