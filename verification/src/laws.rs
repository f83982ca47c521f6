//! What holds of a document over whole runs of operations.
//!
//! The functions of [`crate::workflow`] each say what one call does. The
//! proof functions here put calls together: they speak of any number of
//! operations, applied one after the other to the view of a document.

use crate::workflow::{DocumentView, WorkflowState};
use vstd::prelude::*;

verus! {

/// One call on a document, as a value.
pub enum Operation {
    /// `append` with this text.
    Append(Seq<char>),
    /// `request_review`.
    RequestReview,
    /// `approve`.
    Approve,
}

/// The document after one operation.
pub open spec fn apply(document: DocumentView, operation: Operation) -> DocumentView {
    match operation {
        Operation::Append(text) => document.append(text),
        Operation::RequestReview => document.request_review(),
        Operation::Approve => document.approve(),
    }
}

/// The document after a run of operations, applied from the first to the last.
pub open spec fn apply_all(document: DocumentView, operations: Seq<Operation>) -> DocumentView
    decreases operations.len(),
{
    if operations.len() == 0 {
        document
    } else {
        apply(apply_all(document, operations.drop_last()), operations.last())
    }
}

/// The texts of a run of appends, joined in order.
pub open spec fn appended_text(operations: Seq<Operation>) -> Seq<char>
    decreases operations.len(),
{
    if operations.len() == 0 {
        Seq::empty()
    } else {
        let earlier = appended_text(operations.drop_last());
        match operations.last() {
            Operation::Append(text) => earlier + text,
            _ => earlier,
        }
    }
}

/// No operation rewrites or removes text: after any run of operations the
/// body is the old body followed by the appended texts, in order.
pub proof fn lemma_body_only_grows(document: DocumentView, operations: Seq<Operation>)
    ensures
        apply_all(document, operations).body == document.body + appended_text(operations),
    decreases operations.len(),
{
    if operations.len() > 0 {
        lemma_body_only_grows(document, operations.drop_last());
    }
}

/// Appending never moves the workflow, so a document that is not published
/// shows nothing, however much is appended to it.
pub proof fn lemma_appends_reveal_nothing(document: DocumentView, operations: Seq<Operation>)
    requires
        forall|i: int| 0 <= i < operations.len() ==> operations[i] is Append,
    ensures
        apply_all(document, operations).state == document.state,
        document.state != WorkflowState::Published ==> apply_all(
            document,
            operations,
        ).visible_content() == Seq::<char>::empty(),
    decreases operations.len(),
{
    if operations.len() > 0 {
        lemma_appends_reveal_nothing(document, operations.drop_last());
    }
}

/// `Published` is terminal: no run of operations leaves it.
pub proof fn lemma_published_is_terminal(document: DocumentView, operations: Seq<Operation>)
    requires
        document.state == WorkflowState::Published,
    ensures
        apply_all(document, operations).state == WorkflowState::Published,
    decreases operations.len(),
{
    if operations.len() > 0 {
        lemma_published_is_terminal(document, operations.drop_last());
    }
}

/// Approving a document under review publishes it, and it then stays
/// published, with all its text visible, whatever is done to it afterwards.
pub proof fn lemma_approval_is_permanent(document: DocumentView, operations: Seq<Operation>)
    requires
        document.state == WorkflowState::PendingReview,
    ensures
        document.approve().state == WorkflowState::Published,
        apply_all(document.approve(), operations).state == WorkflowState::Published,
        apply_all(document.approve(), operations).visible_content() == document.body
            + appended_text(operations),
{
    lemma_published_is_terminal(document.approve(), operations);
    lemma_body_only_grows(document.approve(), operations);
}

/// Requesting review moves a draft to `PendingReview`, and asking again
/// changes nothing: in every state the second request is a no-op.
pub proof fn lemma_request_review_is_idempotent(document: DocumentView)
    ensures
        document.state == WorkflowState::Draft ==> document.request_review().state
            == WorkflowState::PendingReview,
        document.request_review().request_review() == document.request_review(),
{
}

/// Approval cannot skip review: approving a draft changes nothing.
pub proof fn lemma_approve_cannot_skip_review(document: DocumentView)
    requires
        document.state == WorkflowState::Draft,
    ensures
        document.approve() == document,
{
}

/// A draft stays a draft until review is requested: approvals and appends
/// alone never move it.
pub proof fn lemma_draft_until_review_requested(document: DocumentView, operations: Seq<Operation>)
    requires
        document.state == WorkflowState::Draft,
        forall|i: int| 0 <= i < operations.len() ==> !(operations[i] is RequestReview),
    ensures
        apply_all(document, operations).state == WorkflowState::Draft,
    decreases operations.len(),
{
    if operations.len() > 0 {
        lemma_draft_until_review_requested(document, operations.drop_last());
    }
}

/// Nothing is published without an approval: a run of operations that holds
/// no `Approve` leaves an unpublished document unpublished, with nothing
/// visible.
pub proof fn lemma_no_publication_without_approval(
    document: DocumentView,
    operations: Seq<Operation>,
)
    requires
        document.state != WorkflowState::Published,
        forall|i: int| 0 <= i < operations.len() ==> !(operations[i] is Approve),
    ensures
        apply_all(document, operations).state != WorkflowState::Published,
        apply_all(document, operations).visible_content() == Seq::<char>::empty(),
    decreases operations.len(),
{
    if operations.len() > 0 {
        lemma_no_publication_without_approval(document, operations.drop_last());
    }
}

} // verus!
