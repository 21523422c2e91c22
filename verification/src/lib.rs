//! Task-bootstrap and trap-dispatch core for a lazily paged user stack.
//!
//! Physical frames for the stack are reserved up front, but translation
//! entries are installed only on first touch: the bootstrap pass removes
//! every entry covering the stack range, and the page-fault path installs
//! the pre-allocated frame for the touched page.  The decision logic is
//! verified here over a model of the translation entries for the range;
//! the surrounding kernel performs the hardware work it directs.

pub mod page;
pub mod region;
pub mod table;
pub mod task;
