//! A message-formatting core: messages are sequences of parts (literal text,
//! a placeholder for the number matched by an enclosing plural format, plural
//! formats, and select formats) that render recursively against a set of named
//! arguments, threading a small context through nested formatting.

pub mod args;
pub mod category;
pub mod decimal;
pub mod message;
pub mod plural_format;
pub mod select_format;
pub mod context;
