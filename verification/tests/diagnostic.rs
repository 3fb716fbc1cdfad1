use rendu::diagnostic::{whitespace, DiagnosticLog};
use rendu::handle::{Parameter, Stage};
use rendu::source::SourceText;

#[test]
fn whitespace_is_spaces_of_the_given_length() {
    assert_eq!(whitespace(0), Vec::<u8>::new());
    assert_eq!(whitespace(3), vec![b' ', b' ', b' ']);
    assert_eq!(whitespace(1000).len(), 1000);
    assert!(whitespace(1000).iter().all(|b| *b == b' '));
}

#[test]
fn a_log_asks_for_the_reported_length() {
    assert_eq!(DiagnosticLog::sized(7).size(), 7);
    assert_eq!(DiagnosticLog::sized(0).size(), 0);
    assert_eq!(DiagnosticLog::sized(-4).size(), 0);
    assert_eq!(DiagnosticLog::sized(i32::MIN).size(), 0);
    assert_eq!(DiagnosticLog::sized(i32::MAX).size(), i32::MAX as usize);
}

#[test]
fn a_log_that_was_not_written_holds_no_text() {
    assert_eq!(DiagnosticLog::sized(7).to_bytes(), Vec::<u8>::new());
    assert_eq!(DiagnosticLog::sized(-4).to_bytes(), Vec::<u8>::new());
    assert_eq!(DiagnosticLog::sized(7).into_text(), String::new());
}

#[test]
fn the_text_ends_at_the_first_zero_byte() {
    let log = DiagnosticLog::sized(4).filled(b"err\0".to_vec());
    assert_eq!(log.size(), 4);
    assert_eq!(log.to_bytes(), b"err".to_vec());

    let log = DiagnosticLog::sized(8).filled(b"err\0    ".to_vec());
    assert_eq!(log.to_bytes(), b"err".to_vec());

    let log = DiagnosticLog::sized(8).filled(b"a\0b\0c\0  ".to_vec());
    assert_eq!(log.to_bytes(), b"a".to_vec());

    let log = DiagnosticLog::sized(3).filled(b"\0ab".to_vec());
    assert_eq!(log.to_bytes(), Vec::<u8>::new());
}

#[test]
fn the_text_is_cut_to_the_buffer() {
    let log = DiagnosticLog::sized(2).filled(b"error".to_vec());
    assert_eq!(log.to_bytes(), b"er".to_vec());

    let log = DiagnosticLog::sized(5).filled(b"error".to_vec());
    assert_eq!(log.to_bytes(), b"error".to_vec());

    let log = DiagnosticLog::sized(9).filled(b"error".to_vec());
    assert_eq!(log.to_bytes(), b"error".to_vec());

    let log = DiagnosticLog::sized(3).filled(b"erro\0".to_vec());
    assert_eq!(log.to_bytes(), b"err".to_vec());

    let log = DiagnosticLog::sized(-1).filled(b"error".to_vec());
    assert_eq!(log.to_bytes(), Vec::<u8>::new());

    let log = DiagnosticLog::sized(0).filled(b"error".to_vec());
    assert_eq!(log.to_bytes(), Vec::<u8>::new());
}

#[test]
fn a_log_reads_as_the_text_of_the_driver() {
    let log = DiagnosticLog::sized(18).filled(b"0:1: syntax error\0".to_vec());
    assert_eq!(log.into_text(), "0:1: syntax error".to_string());

    let log = DiagnosticLog::sized(5).filled(b"0:1: ".to_vec());
    assert_eq!(log.into_text(), "0:1: ".to_string());

    let log = DiagnosticLog::sized(0).filled(Vec::new());
    assert_eq!(log.into_text(), String::new());
}

#[test]
fn text_keeps_valid_utf8() {
    let mut bytes = "d\u{e9}faut \u{2713}".as_bytes().to_vec();
    bytes.push(0);
    let log = DiagnosticLog::sized(bytes.len() as i32).filled(bytes);
    assert_eq!(log.into_text(), "d\u{e9}faut \u{2713}".to_string());
}

#[test]
fn text_replaces_invalid_utf8() {
    let log = DiagnosticLog::sized(4).filled(vec![b'a', 0xff, b'b', 0]);
    assert_eq!(log.into_text(), "a\u{fffd}b".to_string());

    let log = DiagnosticLog::sized(1).filled(vec![0xc3, 0xa9]);
    assert_eq!(log.into_text(), "\u{fffd}".to_string());
}

#[test]
fn source_text_takes_bytes_without_a_zero() {
    let text = SourceText::new(b"void main() {}".to_vec());
    assert!(text.is_some());
    assert_eq!(text.unwrap().as_bytes(), &b"void main() {}".to_vec());

    let empty = SourceText::new(Vec::new());
    assert!(empty.is_some());
    assert_eq!(empty.unwrap().as_bytes().len(), 0);
}

#[test]
fn source_text_refuses_a_zero_byte() {
    assert!(SourceText::new(b"void\0main".to_vec()).is_none());
    assert!(SourceText::new(b"\0".to_vec()).is_none());
    assert!(SourceText::new(b"void main() {}\0".to_vec()).is_none());
}

#[test]
fn stages_have_the_numbers_of_the_driver() {
    assert_eq!(Stage::Vertex.kind(), 0x8B31);
    assert_eq!(Stage::Fragment.kind(), 0x8B30);
    assert_eq!(Stage::Vertex.kind(), gl::VERTEX_SHADER);
    assert_eq!(Stage::Fragment.kind(), gl::FRAGMENT_SHADER);
}

#[test]
fn parameters_have_the_numbers_of_the_driver() {
    assert_eq!(Parameter::CompileStatus.name(), 0x8B81);
    assert_eq!(Parameter::LinkStatus.name(), 0x8B82);
    assert_eq!(Parameter::InfoLogLength.name(), 0x8B84);
    assert_eq!(Parameter::CompileStatus.name(), gl::COMPILE_STATUS);
    assert_eq!(Parameter::LinkStatus.name(), gl::LINK_STATUS);
    assert_eq!(Parameter::InfoLogLength.name(), gl::INFO_LOG_LENGTH);
}

#[test]
fn an_unanswered_status_reads_as_set_and_a_length_as_zero() {
    assert_eq!(Parameter::CompileStatus.unanswered(), 1);
    assert_eq!(Parameter::LinkStatus.unanswered(), 1);
    assert_eq!(Parameter::InfoLogLength.unanswered(), 0);
}
