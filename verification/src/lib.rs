//! Fail-fast accessors over the document tree of a browser host.
//!
//! Every accessor either hands back the value the host produced or a
//! [`Failure`] that carries the diagnostic for the unmet precondition; none
//! returns an optional value, and none goes on after a failure. Class lists
//! are edited as text, by the functions of [`class_names`]; [`name_lists`]
//! holds what is true of the lists that are names joined by single spaces.

pub mod class_names;
pub mod document;
pub mod element;
pub mod failure;
pub mod html;
pub mod list;
pub mod name_lists;
pub mod node;
pub mod platform;
pub mod text;
pub mod window;

pub use class_names::{ClassChange, ClassLists};
pub use document::MinimalDocument;
pub use element::MinimalElement;
pub use failure::{Failure, OptionExt, ResultExt};
pub use html::MinimalHtml;
pub use list::{MinimalList, Stopped};
pub use node::MinimalNode;
pub use window::{document, window, MinimalWindow};
