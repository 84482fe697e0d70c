//! A region of memory shared between processes, guarded by one
//! process-shared readers-writer lock stored at the start of the region.
//!
//! The library holds the layout of a region, the decisions of its life cycle
//! (create, open, teardown) as a state machine, and the byte ranges of the
//! typed views that lock guards expose. The operating-system calls that the
//! machine asks for are performed by the caller, which hands back their
//! outcomes.
pub mod layout;
pub mod lifecycle;
