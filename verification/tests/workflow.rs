use behavioral::workflow::{Document, WorkflowState};

#[test]
fn new_document_is_an_empty_draft() {
    let document = Document::new();

    assert_eq!(document.state(), WorkflowState::Draft);
    assert_eq!(document.visible_content(), "");
}

#[test]
fn request_review_follows_the_transition_table() {
    assert_eq!(
        WorkflowState::Draft.request_review(),
        WorkflowState::PendingReview
    );
    assert_eq!(
        WorkflowState::PendingReview.request_review(),
        WorkflowState::PendingReview
    );
    assert_eq!(
        WorkflowState::Published.request_review(),
        WorkflowState::Published
    );
}

#[test]
fn approve_follows_the_transition_table() {
    assert_eq!(WorkflowState::Draft.approve(), WorkflowState::Draft);
    assert_eq!(
        WorkflowState::PendingReview.approve(),
        WorkflowState::Published
    );
    assert_eq!(WorkflowState::Published.approve(), WorkflowState::Published);
}

#[test]
fn full_pipeline_reveals_the_text_only_at_the_end() {
    let mut document = Document::new();

    document.append("hello");
    assert_eq!(document.visible_content(), "");

    document.request_review();
    assert_eq!(document.visible_content(), "");

    document.approve();
    assert_eq!(document.visible_content(), "hello");

    document.append(" world");
    assert_eq!(document.visible_content(), "hello world");
}

#[test]
fn approve_without_review_leaves_a_draft() {
    let mut document = Document::new();

    document.approve();

    assert_eq!(document.visible_content(), "");
    assert_eq!(document.state(), WorkflowState::Draft);
}

#[test]
fn approve_on_a_written_draft_shows_nothing() {
    let mut document = Document::new();
    document.append("secret");

    document.approve();
    document.approve();

    assert_eq!(document.state(), WorkflowState::Draft);
    assert_eq!(document.visible_content(), "");
}

#[test]
fn appends_never_reveal_an_unpublished_document() {
    let mut draft = Document::new();
    let mut pending = Document::new();
    pending.request_review();

    for text in ["a", "", "bc", "\u{e9}t\u{e9}", "a much longer piece of text"] {
        draft.append(text);
        pending.append(text);
        assert_eq!(draft.visible_content(), "");
        assert_eq!(pending.visible_content(), "");
        assert_eq!(draft.state(), WorkflowState::Draft);
        assert_eq!(pending.state(), WorkflowState::PendingReview);
    }
}

#[test]
fn request_review_moves_a_draft_and_is_idempotent() {
    let mut document = Document::new();

    document.request_review();
    assert_eq!(document.state(), WorkflowState::PendingReview);

    document.request_review();
    assert_eq!(document.state(), WorkflowState::PendingReview);

    document.request_review();
    assert_eq!(document.state(), WorkflowState::PendingReview);
    assert_eq!(document.visible_content(), "");
}

#[test]
fn published_is_terminal() {
    let mut document = Document::new();
    document.append("final");
    document.request_review();
    document.approve();
    assert_eq!(document.state(), WorkflowState::Published);

    document.request_review();
    assert_eq!(document.state(), WorkflowState::Published);
    document.approve();
    assert_eq!(document.state(), WorkflowState::Published);
    document.request_review();
    document.request_review();
    document.approve();
    document.approve();
    assert_eq!(document.state(), WorkflowState::Published);
    assert_eq!(document.visible_content(), "final");
}

#[test]
fn text_written_in_every_state_is_kept_in_order() {
    let mut document = Document::new();

    document.append("one");
    document.request_review();
    document.append(" two");
    document.approve();
    document.append(" three");

    assert_eq!(document.visible_content(), "one two three");
}

#[test]
fn text_appended_after_publication_is_visible_at_once() {
    let mut document = Document::new();
    document.request_review();
    document.approve();
    assert_eq!(document.visible_content(), "");

    document.append("late");
    assert_eq!(document.visible_content(), "late");

    document.append("r");
    assert_eq!(document.visible_content(), "later");
}

#[test]
fn append_never_moves_the_workflow() {
    let mut document = Document::new();
    document.append("x");
    assert_eq!(document.state(), WorkflowState::Draft);

    document.request_review();
    document.append("y");
    assert_eq!(document.state(), WorkflowState::PendingReview);

    document.approve();
    document.append("z");
    assert_eq!(document.state(), WorkflowState::Published);
}

#[test]
fn empty_append_changes_nothing() {
    let mut document = Document::new();
    document.append("kept");
    document.request_review();
    document.approve();

    document.append("");

    assert_eq!(document.visible_content(), "kept");
    assert_eq!(document.state(), WorkflowState::Published);
}

#[test]
fn non_ascii_text_is_kept_whole() {
    let mut document = Document::new();
    document.append("na\u{ef}ve ");
    document.append("\u{65e5}\u{672c}\u{8a9e}");
    document.request_review();
    document.approve();

    assert_eq!(document.visible_content(), "na\u{ef}ve \u{65e5}\u{672c}\u{8a9e}");
}

#[test]
fn review_requested_after_a_refused_approval_still_leads_to_publication() {
    let mut document = Document::new();
    document.append("draft text");

    document.approve();
    assert_eq!(document.state(), WorkflowState::Draft);

    document.request_review();
    document.approve();
    assert_eq!(document.state(), WorkflowState::Published);
    assert_eq!(document.visible_content(), "draft text");
}

#[test]
fn documents_do_not_share_state() {
    let mut published = Document::new();
    let mut draft = Document::new();

    published.append("public");
    draft.append("private");
    published.request_review();
    published.approve();

    assert_eq!(published.visible_content(), "public");
    assert_eq!(draft.visible_content(), "");
    assert_eq!(draft.state(), WorkflowState::Draft);
}
