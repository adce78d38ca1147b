use websearch::browse::{InputEvent, SessionCommand, Status};
use websearch::query::{classify_response, default_patterns, FetchOutcome};
use websearch::session::TerminalSession;

#[test]
fn normal_quit_releases_the_terminal() {
    let mut session = TerminalSession::begin();
    session.note_terminal_entered();
    assert!(session.terminal_entered);
    session.settle_fetch(
        FetchOutcome::Success(String::from("<html><body></body></html>")),
        &default_patterns(),
    );
    assert!(matches!(session.browser.status, Status::Ready));
    let cmd = session.on_key(InputEvent::Quit);
    assert_eq!(cmd, SessionCommand::Exit);
    session.end();
    assert!(session.ended);
    assert!(!session.terminal_entered);
}

#[test]
fn http_error_path_still_releases_the_terminal() {
    let mut session = TerminalSession::begin();
    session.note_terminal_entered();
    session.settle_fetch(classify_response(503, String::from("busy")), &default_patterns());
    assert!(matches!(
        session.browser.status,
        Status::Error(websearch::browse::ErrorKind::Http(503))
    ));
    let cmd = session.on_key(InputEvent::Quit);
    assert_eq!(cmd, SessionCommand::Exit);
    session.end();
    assert!(!session.terminal_entered);
}

#[test]
fn transport_error_path_still_releases_the_terminal() {
    let mut session = TerminalSession::begin();
    session.note_terminal_entered();
    session.settle_fetch(
        FetchOutcome::TransportError(String::from("timeout")),
        &default_patterns(),
    );
    assert!(matches!(
        session.browser.status,
        Status::Error(websearch::browse::ErrorKind::Transport)
    ));
    session.end();
    assert!(!session.terminal_entered);
}

#[test]
fn session_browses_before_quitting() {
    let mut doc = String::new();
    doc.push_str("<html><body>");
    doc.push_str("<div class=\"result\"><a class=\"result__a\" href=\"/a\">A</a>");
    doc.push_str("<div class=\"result__snippet\">x</div></div>");
    doc.push_str("<div class=\"result\"><a class=\"result__a\" href=\"/b\">B</a>");
    doc.push_str("<div class=\"result__snippet\">y</div></div>");
    doc.push_str("</body></html>");
    let mut session = TerminalSession::begin();
    session.note_terminal_entered();
    session.settle_fetch(FetchOutcome::Success(doc), &default_patterns());
    assert_eq!(session.on_key(InputEvent::MoveDown), SessionCommand::Redraw);
    assert_eq!(session.browser.selected_index, 1);
    assert_eq!(
        session.on_key(InputEvent::Confirm),
        SessionCommand::Open(String::from("/b"))
    );
    assert_eq!(session.on_key(InputEvent::Quit), SessionCommand::Exit);
    session.end();
    assert!(session.ended);
    assert!(!session.terminal_entered);
}
