use atsamd_demo::parse::Action;
use atsamd_demo::session::{Effect, Session};
use atsamd_demo::uart::{classify_byte, RxError, UartCommand};

fn type_str(s: &mut Session, text: &str) {
    for b in text.bytes() {
        assert_eq!(s.handle(classify_byte(b)), Effect::RedrawLine);
    }
}

fn line_of(s: &Session) -> String {
    s.current_line().iter().collect()
}

#[test]
fn typing_builds_the_line() {
    let mut s = Session::new();
    assert_eq!(line_of(&s), "");
    type_str(&mut s, "r 0 16");
    assert_eq!(line_of(&s), "r 0 16");
}

#[test]
fn submit_parses_and_clears() {
    let mut s = Session::new();
    type_str(&mut s, "r 0 16");
    let e = s.handle(UartCommand::Return);
    assert_eq!(e, Effect::Execute(Action::Read, 0, 16));
    assert_eq!(line_of(&s), "");
}

#[test]
fn submit_bad_line_reports_failure() {
    let mut s = Session::new();
    type_str(&mut s, "hello");
    let e = s.handle(UartCommand::Return);
    assert_eq!(e, Effect::ParseFailure);
    assert_eq!(line_of(&s), "");
}

#[test]
fn submit_empty_line_reports_failure() {
    let mut s = Session::new();
    assert_eq!(s.handle(UartCommand::Return), Effect::ParseFailure);
}

#[test]
fn backspace_edits_the_line() {
    let mut s = Session::new();
    type_str(&mut s, "wx");
    assert_eq!(s.handle(UartCommand::Backspace), Effect::RedrawLine);
    assert_eq!(line_of(&s), "w");
    assert_eq!(s.handle(UartCommand::Backspace), Effect::RedrawLine);
    assert_eq!(line_of(&s), "");
    assert_eq!(s.handle(UartCommand::Backspace), Effect::Nothing);
}

#[test]
fn ctrl_c_clears_line_and_screen() {
    let mut s = Session::new();
    type_str(&mut s, "w 1 2");
    assert_eq!(s.handle(UartCommand::CtrlC), Effect::ClearScreen);
    assert_eq!(line_of(&s), "");
}

#[test]
fn notices_are_reported() {
    let mut s = Session::new();
    type_str(&mut s, "r");
    assert_eq!(s.handle(UartCommand::BufferFull), Effect::ReportError);
    assert_eq!(
        s.handle(UartCommand::ReadError(RxError::Frame)),
        Effect::ReportError
    );
    assert_eq!(line_of(&s), "r");
}

#[test]
fn buffer_fills_at_256_bytes() {
    let mut s = Session::new();
    for _ in 0..256 {
        assert_eq!(s.handle(UartCommand::DataChar('a')), Effect::RedrawLine);
    }
    assert_eq!(s.handle(UartCommand::DataChar('b')), Effect::Requeue);
    assert_eq!(s.current_line().len(), 256);
    assert_eq!(s.handle(UartCommand::Backspace), Effect::RedrawLine);
    assert_eq!(s.handle(UartCommand::DataChar('b')), Effect::RedrawLine);
}

#[test]
fn wide_characters_count_in_bytes() {
    let mut s = Session::new();
    // A byte in 0x80..=0xff decodes to a character that takes two bytes.
    let wide = 0xe9 as char;
    assert_eq!(wide.len_utf8(), 2);
    for _ in 0..128 {
        assert_eq!(s.handle(UartCommand::DataChar(wide)), Effect::RedrawLine);
    }
    assert_eq!(s.current_line().len(), 128);
    assert_eq!(s.handle(UartCommand::DataChar(wide)), Effect::Requeue);
    assert_eq!(s.handle(UartCommand::Backspace), Effect::RedrawLine);
    assert_eq!(s.current_line().len(), 127);
    assert_eq!(s.handle(UartCommand::DataChar('a')), Effect::RedrawLine);
    assert_eq!(s.handle(UartCommand::DataChar('a')), Effect::RedrawLine);
    assert_eq!(s.handle(UartCommand::DataChar('a')), Effect::Requeue);
}

#[test]
fn full_eeprom_write_session() {
    let mut s = Session::new();
    for b in [b'w', b' ', b'3', b' ', b'5'] {
        s.handle(classify_byte(b));
    }
    assert_eq!(
        s.handle(classify_byte(b'\r')),
        Effect::Execute(Action::Write, 3, 5)
    );
}
