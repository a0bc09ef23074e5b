//! A file-type predicate for a file-tree query.
//!
//! A query such as "every directory below here" names the type it wants by a
//! one-letter code. [`TypeMatcher::new`] turns the code into a matcher once,
//! or refuses it; the matcher is then offered the entries of the walk one by
//! one and says of each whether it is of that type. Matching reads the kind
//! that the walk recorded for the entry and nothing else: it touches neither
//! the file system nor the context that the evaluator passes along.
//!
//! - [`kind`]: the kinds of entry, and how a host's answers give one.
//! - [`entry`]: an entry of the walk.
//! - [`code`]: the type codes and what they mean on each platform.
//! - [`error`]: the refusals of a token.
//! - [`matcher`]: the interface of all predicates of a query.
//! - [`predicate`]: the type matcher.
//! - [`lemmas`]: what holds of every token, platform and entry.

pub mod code;
pub mod entry;
pub mod error;
pub mod kind;
pub mod lemmas;
pub mod matcher;
pub mod predicate;

pub use crate::code::{CodeMeaning, Platform, TypeTest};
pub use crate::entry::{Entry, EntryView};
pub use crate::error::ConstructionError;
pub use crate::kind::{FileKind, TypeAnswers};
pub use crate::matcher::Matcher;
pub use crate::predicate::TypeMatcher;
