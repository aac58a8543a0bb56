//! Alternative, slang-flavoured method names for the standard optional and
//! fallible containers.
//!
//! Every alias forwards to the familiar operation it renames, and carries a
//! contract that pins down exactly what that operation returns.

mod fallible;
mod optional;

pub use fallible::GenZResult;
pub use fallible::lemma_success_failure_opposed;
pub use optional::GenZNestedOption;
pub use optional::GenZOption;
pub use optional::flattened;
pub use optional::lemma_flatten_one_level;
pub use optional::lemma_presence_absence_opposed;
