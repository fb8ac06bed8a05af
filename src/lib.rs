//! An in-memory model of markup elements: tags, attributes, classes and
//! nested children, behind a capability trait whose unsupported operations
//! degrade to inert defaults.

pub mod element;
mod from;
pub mod html;
pub mod indexed;
mod ser;
pub mod values;

pub use crate::element::{Element, ElementModel};
pub use crate::ser::{Test, TestSerializer};
pub use crate::html::{HtmlElement, HtmlNode};
pub use crate::values::{AttributePair, AttributeValue, HashData, HashKey, ValueKind};
