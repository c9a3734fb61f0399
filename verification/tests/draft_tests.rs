use hot_blog::draft::{Draft, FieldEdit, LoadState};
use hot_blog::post::Post;
use hot_blog::store::StoreError;
use hot_blog::timestamp::Timestamp;
use hot_blog::toast::{ToastCenter, ToastType};

fn ts(year: u16, month: u8, day: u8, hour: u8, minute: u8) -> Timestamp {
    Timestamp { year, month, day, hour, minute }
}

fn now() -> Timestamp {
    ts(2024, 6, 1, 12, 30)
}

fn loaded_post(draft: &Draft) -> &Post {
    draft.current_draft_post().expect("the draft is loaded")
}

fn stored(id: &str, title: &str, text: &str) -> Post {
    Post {
        id: id.to_string(),
        dt: ts(2024, 1, 1, 0, 0),
        image_url: String::new(),
        title: title.to_string(),
        text: text.to_string(),
    }
}

#[test]
fn initialize_without_an_id_loads_a_fresh_empty_post() {
    let (draft, ticket) = Draft::new(None, now());
    assert!(ticket.is_none());
    let post = loaded_post(&draft);
    assert_eq!(post.id, "");
    assert_eq!(post.image_url, "");
    assert_eq!(post.title, "");
    assert_eq!(post.text, "");
    // The placeholder timestamp is no earlier than the moment the
    // editor was opened.
    assert!(now().le(&post.dt));
}

#[test]
fn initialize_with_an_id_requests_a_fetch() {
    let (draft, ticket) = Draft::new(Some("abc123".to_string()), now());
    let ticket = ticket.expect("an id asks for a fetch");
    assert_eq!(ticket.id, "abc123");
    assert!(matches!(draft.state, LoadState::Pending));
    assert!(draft.current_draft_post().is_none());
    assert!(draft.submit_request().is_none());
    assert!(draft.delete_request().is_none());
}

#[test]
fn a_fetched_post_loads_the_draft() {
    let (mut draft, ticket) = Draft::new(Some("abc123".to_string()), now());
    let ticket = ticket.unwrap();
    draft.apply_fetch(ticket.generation, Ok(stored("abc123", "Hello", "World")));
    let post = loaded_post(&draft);
    assert_eq!(post.id, "abc123");
    assert_eq!(post.title, "Hello");
}

#[test]
fn a_failed_fetch_fails_the_draft() {
    let (mut draft, ticket) = Draft::new(Some("abc123".to_string()), now());
    let ticket = ticket.unwrap();
    draft.apply_fetch(ticket.generation, Err(StoreError::NotFound));
    assert!(matches!(draft.state, LoadState::Failed(StoreError::NotFound)));
    assert!(draft.current_draft_post().is_none());
}

#[test]
fn a_superseded_fetch_answer_is_discarded() {
    let (mut draft, first) = Draft::new(Some("abc123".to_string()), now());
    let first = first.unwrap();
    // The user navigates to another post's editor before the first
    // fetch answers: the session is re-initialized.
    let second = draft.initialize(Some("other".to_string()), now()).unwrap();
    // The stale answer must not resurrect the superseded draft.
    draft.apply_fetch(first.generation, Ok(stored("abc123", "Stale", "Stale")));
    assert!(matches!(draft.state, LoadState::Pending));
    // The current fetch's answer still lands.
    draft.apply_fetch(second.generation, Ok(stored("other", "Fresh", "")));
    assert_eq!(loaded_post(&draft).title, "Fresh");
}

#[test]
fn an_answer_to_a_loaded_draft_is_discarded() {
    let (mut draft, _) = Draft::new(None, now());
    let gen = draft.generation;
    draft.edit_field(FieldEdit::Title("Kept".to_string()), now());
    draft.apply_fetch(gen, Ok(stored("abc123", "Intruder", "")));
    assert_eq!(loaded_post(&draft).title, "Kept");
}

#[test]
fn an_edit_before_the_fetch_answers_is_ignored() {
    let (mut draft, ticket) = Draft::new(Some("abc123".to_string()), now());
    let ticket = ticket.unwrap();
    let fallback = draft.edit_field(FieldEdit::Title("Too early".to_string()), now());
    assert!(!fallback);
    assert!(matches!(draft.state, LoadState::Pending));
    draft.apply_fetch(ticket.generation, Ok(stored("abc123", "Fetched", "")));
    assert_eq!(loaded_post(&draft).title, "Fetched");
}

#[test]
fn an_edit_of_a_failed_draft_is_ignored() {
    let (mut draft, ticket) = Draft::new(Some("abc123".to_string()), now());
    let ticket = ticket.unwrap();
    draft.apply_fetch(ticket.generation, Err(StoreError::NotFound));
    draft.edit_field(FieldEdit::Title("Ignored".to_string()), now());
    assert!(matches!(draft.state, LoadState::Failed(StoreError::NotFound)));
}

#[test]
fn the_last_edit_of_a_field_wins() {
    let (mut draft, _) = Draft::new(None, now());
    draft.edit_field(FieldEdit::Title("X".to_string()), now());
    draft.edit_field(FieldEdit::Title("Y".to_string()), now());
    let post = loaded_post(&draft);
    assert_eq!(post.title, "Y");
    assert_eq!(post.text, "");
}

#[test]
fn each_edit_replaces_exactly_one_field() {
    let (mut draft, _) = Draft::new(None, now());
    draft.edit_field(FieldEdit::Title("A title".to_string()), now());
    draft.edit_field(FieldEdit::Text("A text".to_string()), now());
    draft.edit_field(FieldEdit::ImageUrl("/img.png".to_string()), now());
    let post = loaded_post(&draft);
    assert_eq!(post.title, "A title");
    assert_eq!(post.text, "A text");
    assert_eq!(post.image_url, "/img.png");
    assert_eq!(post.id, "");
}

#[test]
fn a_parseable_timestamp_edit_is_applied() {
    let (mut draft, _) = Draft::new(None, now());
    let fallback = draft.edit_field(FieldEdit::Dt("2025-01-02T03:04".to_string()), now());
    assert!(!fallback);
    assert_eq!(loaded_post(&draft).dt, ts(2025, 1, 2, 3, 4));
}

#[test]
fn an_unparseable_timestamp_edit_falls_back_to_now_and_says_so() {
    let (mut draft, _) = Draft::new(None, ts(2020, 1, 1, 0, 0));
    let moment = ts(2024, 6, 1, 12, 30);
    let fallback = draft.edit_field(FieldEdit::Dt("yesterday-ish".to_string()), moment);
    assert!(fallback);
    assert_eq!(loaded_post(&draft).dt, moment);
}

#[test]
fn a_successful_submit_updates_the_id_emits_and_navigates() {
    let (mut draft, _) = Draft::new(None, now());
    draft.edit_field(FieldEdit::Title("T".to_string()), now());
    let mut toasts = ToastCenter::new();
    let nav = draft.complete_submit(&mut toasts, Ok("abc123".to_string()));
    assert_eq!(nav, Ok("/view/abc123".to_string()));
    assert_eq!(loaded_post(&draft).id, "abc123");
    assert_eq!(loaded_post(&draft).title, "T");
    assert_eq!(toasts.read().message, "Post submitted.");
    assert_eq!(toasts.read().toast_type, ToastType::Success);
    assert!(toasts.read().visible);
}

#[test]
fn a_failed_submit_keeps_the_draft_and_emits_nothing() {
    let (mut draft, ticket) = Draft::new(Some("abc123".to_string()), now());
    let ticket = ticket.unwrap();
    draft.apply_fetch(ticket.generation, Ok(stored("abc123", "Saved title", "Saved text")));
    draft.edit_field(FieldEdit::Title("Unsaved title".to_string()), now());
    draft.edit_field(FieldEdit::Text("Unsaved text".to_string()), now());
    let mut toasts = ToastCenter::new();
    let nav = draft.complete_submit(&mut toasts, Err(StoreError::Backend));
    // No navigation: the error is surfaced inline instead.
    assert_eq!(nav, Err(StoreError::Backend));
    // The draft retains its unsaved edits.
    let post = loaded_post(&draft);
    assert_eq!(post.id, "abc123");
    assert_eq!(post.title, "Unsaved title");
    assert_eq!(post.text, "Unsaved text");
    // No notification is emitted.
    assert!(!toasts.read().visible);
    assert_eq!(toasts.read().message, "");
    assert_eq!(toasts.current_generation(), 0);
}

#[test]
fn a_successful_delete_emits_and_navigates_to_the_root() {
    let (mut draft, ticket) = Draft::new(Some("abc123".to_string()), now());
    let ticket = ticket.unwrap();
    draft.apply_fetch(ticket.generation, Ok(stored("abc123", "T", "X")));
    assert_eq!(draft.delete_request(), Some("abc123".to_string()));
    let mut toasts = ToastCenter::new();
    let nav = draft.complete_delete(&mut toasts, Ok(()));
    assert_eq!(nav, Ok("/".to_string()));
    assert_eq!(toasts.read().message, "Post deleted");
    assert_eq!(toasts.read().toast_type, ToastType::Success);
    assert!(toasts.read().visible);
}

#[test]
fn a_failed_delete_keeps_the_draft_and_emits_nothing() {
    let (mut draft, ticket) = Draft::new(Some("abc123".to_string()), now());
    let ticket = ticket.unwrap();
    draft.apply_fetch(ticket.generation, Ok(stored("abc123", "T", "X")));
    let mut toasts = ToastCenter::new();
    let nav = draft.complete_delete(&mut toasts, Err(StoreError::Backend));
    assert_eq!(nav, Err(StoreError::Backend));
    assert_eq!(loaded_post(&draft).title, "T");
    assert!(!toasts.read().visible);
}

#[test]
fn a_never_persisted_draft_has_no_delete_request() {
    let (mut draft, _) = Draft::new(None, now());
    draft.edit_field(FieldEdit::Title("T".to_string()), now());
    assert_eq!(draft.delete_request(), None);
}

#[test]
fn submit_request_hands_out_the_wrapped_post() {
    let (mut draft, _) = Draft::new(None, now());
    draft.edit_field(FieldEdit::Title("T".to_string()), now());
    let post = draft.submit_request().expect("a loaded draft can submit");
    assert_eq!(post.title, "T");
    assert_eq!(post.id, "");
}
