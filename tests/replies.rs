use web_starter::models::Placeholder;
use web_starter::reply::{page_reply, AppError, STATUS_INTERNAL_SERVER_ERROR, STATUS_OK};

#[test]
fn rendered_page_answers_200_with_the_page() {
    let html = "<form method=\"post\" action=\"/\"></form>".to_string();
    let r = page_reply(Ok(html.clone()));
    assert_eq!(r.status, 200);
    assert_eq!(r.status, STATUS_OK);
    assert_eq!(r.body, html);
}

#[test]
fn render_failure_answers_500_with_its_message() {
    let r = page_reply(Err(AppError::new("template not found".to_string())));
    assert_eq!(r.status, 500);
    assert_eq!(r.status, STATUS_INTERNAL_SERVER_ERROR);
    assert_eq!(r.body, "template not found");
}

#[test]
fn handler_error_reply_keeps_message() {
    let e = AppError::new("pool timed out".to_string());
    assert_eq!(e.message, "pool timed out");
    let r = e.into_reply();
    assert_eq!(r.status, 500);
    assert_eq!(r.body, "pool timed out");
}

#[test]
fn placeholder_holds_its_id() {
    let p = Placeholder { id: 42 };
    let q = p.clone();
    assert_eq!(q, Placeholder { id: 42 });
    assert_eq!(q.id, 42);
}
