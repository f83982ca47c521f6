//! A document that gates its text behind an approval pipeline.

use vstd::prelude::*;

verus! {

/// Where a document stands in the approval pipeline.
#[derive(Clone, Copy, Debug, PartialEq, Eq, Structural)]
pub enum WorkflowState {
    /// Being written; nothing is visible.
    Draft,
    /// Submitted and waiting for approval; nothing is visible.
    PendingReview,
    /// Approved; the text is visible, and stays so.
    Published,
}

impl WorkflowState {
    /// The state that follows `self` when review is requested.
    pub open spec fn after_request_review(self) -> WorkflowState {
        match self {
            WorkflowState::Draft => WorkflowState::PendingReview,
            WorkflowState::PendingReview => WorkflowState::PendingReview,
            WorkflowState::Published => WorkflowState::Published,
        }
    }

    /// The state that follows `self` when approval is given.
    pub open spec fn after_approve(self) -> WorkflowState {
        match self {
            WorkflowState::Draft => WorkflowState::Draft,
            WorkflowState::PendingReview => WorkflowState::Published,
            WorkflowState::Published => WorkflowState::Published,
        }
    }

    /// Requests review: a draft becomes pending, every other state stays.
    pub fn request_review(self) -> (next: WorkflowState)
        ensures
            next == self.after_request_review(),
    {
        match self {
            WorkflowState::Draft => WorkflowState::PendingReview,
            settled => settled,
        }
    }

    /// Approves: a pending document is published, every other state stays.
    pub fn approve(self) -> (next: WorkflowState)
        ensures
            next == self.after_approve(),
    {
        match self {
            WorkflowState::PendingReview => WorkflowState::Published,
            unmoved => unmoved,
        }
    }
}

/// What a [`Document`] is, mathematically: all the text appended so far, and
/// the state of its workflow.
pub struct DocumentView {
    /// Everything appended so far, in order.
    pub body: Seq<char>,
    /// Where the document stands in the pipeline.
    pub state: WorkflowState,
}

impl DocumentView {
    /// A new document: no text, in `Draft`.
    pub open spec fn initial() -> DocumentView {
        DocumentView { body: Seq::empty(), state: WorkflowState::Draft }
    }

    /// `text` added at the end of the body; the state is left alone.
    pub open spec fn append(self, text: Seq<char>) -> DocumentView {
        DocumentView { body: self.body + text, state: self.state }
    }

    /// The state moved by a request for review; the body is left alone.
    pub open spec fn request_review(self) -> DocumentView {
        DocumentView { body: self.body, state: self.state.after_request_review() }
    }

    /// The state moved by an approval; the body is left alone.
    pub open spec fn approve(self) -> DocumentView {
        DocumentView { body: self.body, state: self.state.after_approve() }
    }

    /// What a reader may see: the whole body once published, nothing before.
    pub open spec fn visible_content(self) -> Seq<char> {
        if self.state == WorkflowState::Published {
            self.body
        } else {
            Seq::empty()
        }
    }
}

/// A text that can be written at any time but read only once it has been
/// reviewed and approved.
pub struct Document {
    body: String,
    state: WorkflowState,
}

impl View for Document {
    type V = DocumentView;

    closed spec fn view(&self) -> DocumentView {
        DocumentView { body: self.body@, state: self.state }
    }
}

impl Document {
    /// Creates an empty draft.
    pub fn new() -> (document: Document)
        ensures
            document@ == DocumentView::initial(),
    {
        Document { body: String::new(), state: WorkflowState::Draft }
    }

    /// Adds `text` at the end of the body. Writing is allowed in every state
    /// and never moves the workflow.
    pub fn append(&mut self, text: &str)
        ensures
            final(self)@ == old(self)@.append(text@),
    {
        self.body.append(text);
    }

    /// Submits the document for review.
    pub fn request_review(&mut self)
        ensures
            final(self)@ == old(self)@.request_review(),
    {
        self.state = self.state.request_review();
    }

    /// Approves the document. Only a document under review is published by
    /// this; a draft stays a draft.
    pub fn approve(&mut self)
        ensures
            final(self)@ == old(self)@.approve(),
    {
        self.state = self.state.approve();
    }

    /// The text a reader may see: the body if the document is published, the
    /// empty string otherwise.
    pub fn visible_content(&self) -> (content: &str)
        ensures
            content@ == self@.visible_content(),
    {
        match self.state {
            WorkflowState::Published => self.body.as_str(),
            _ => {
                proof {
                    reveal_strlit("");
                }
                ""
            },
        }
    }

    /// The current state of the workflow.
    pub fn state(&self) -> (state: WorkflowState)
        ensures
            state == self@.state,
    {
        self.state
    }
}

} // verus!
