//! Behavioural building blocks, verified with Verus.
//!
//! * [`workflow`] holds a document whose text stays hidden until it has been
//!   through review and approval.
//! * [`laws`] states what holds of such a document over whole runs of
//!   operations.
//! * [`observer`] holds a subject that keeps a list of observers and notifies
//!   them in the order in which they were attached.
pub mod laws;
pub mod observer;
pub mod workflow;
