use websearch::browse::{resolve_fetch, BrowserState, InputEvent};
use websearch::query::{default_patterns, FetchOutcome};
use websearch::render::{dec_string, render_view};

#[test]
fn decimal_strings_are_exact() {
    assert_eq!(dec_string(0), "0");
    assert_eq!(dec_string(7), "7");
    assert_eq!(dec_string(10), "10");
    assert_eq!(dec_string(503), "503");
    assert_eq!(dec_string(65535), "65535");
}

#[test]
fn title_counts_pages_from_one() {
    let st = BrowserState::new();
    let plan = render_view(&st);
    assert_eq!(plan.title, "Search Results: page 1");
}

#[test]
fn ready_plan_lists_the_link_targets() {
    let mut st = BrowserState::new();
    let mut doc = String::new();
    doc.push_str("<html><body>");
    doc.push_str("<div class=\"result\"><a class=\"result__a\" href=\"/a\">A</a>");
    doc.push_str("<div class=\"result__snippet\">x</div></div>");
    doc.push_str("<div class=\"result\"><a class=\"result__a\" href=\"/b\">B</a>");
    doc.push_str("<div class=\"result__snippet\">y</div></div>");
    doc.push_str("</body></html>");
    resolve_fetch(&mut st, FetchOutcome::Success(doc), &default_patterns());
    websearch::browse::handle_event(&mut st, InputEvent::MoveDown);
    let plan = render_view(&st);
    assert_eq!(plan.lines, vec![String::from("/a"), String::from("/b")]);
    assert_eq!(plan.highlighted, 1);
    assert!(plan.message.is_none());
}

#[test]
fn loading_plan_shows_a_message() {
    let st = BrowserState::new();
    let plan = render_view(&st);
    assert_eq!(plan.lines.len(), 0);
    assert_eq!(plan.message.as_deref(), Some("loading"));
}

#[test]
fn transport_error_plan_shows_a_message() {
    let mut st = BrowserState::new();
    resolve_fetch(
        &mut st,
        FetchOutcome::TransportError(String::from("timeout")),
        &default_patterns(),
    );
    let plan = render_view(&st);
    assert_eq!(plan.message.as_deref(), Some("the request could not be completed"));
    assert_eq!(plan.lines.len(), 0);
}

#[test]
fn parse_error_plan_shows_a_message() {
    let mut st = BrowserState::new();
    let patterns = websearch::extract::SelectionPatterns {
        container: String::from("[[["),
        title_link: String::from(".result__a"),
        snippet: String::from(".result__snippet"),
    };
    resolve_fetch(&mut st, FetchOutcome::Success(String::from("<html></html>")), &patterns);
    let plan = render_view(&st);
    assert_eq!(plan.message.as_deref(), Some("the response could not be parsed"));
}
