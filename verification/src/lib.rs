//! The front end of a small C-like scripting language.
//!
//! Parse events come in from a grammar engine. The builders turn them into a
//! typed syntax tree; imports fill a module set and declarations fill a scope;
//! a use of the built-in console module is checked against the imports and
//! evaluated against the scope, and gives the text that it writes.
//!
//! - [`event`]: parse events, the input of everything else.
//! - [`structure`]: the nodes of the syntax tree.
//! - [`handlers`]: the builders, from parse events to nodes.
//! - [`scope`]: the module set and the symbol table.
//! - [`standard_library`]: the console module.
//! - [`program`]: the walk over a program, one step for each top-level event.
//! - [`errors`]: diagnostics and their messages.
//! - [`text`]: the functions on text that the others share.
//!
//! Every exec function has a contract over the views of its arguments and its
//! result, and all but five are verified against it. The five are the wrappers
//! in [`errors`] that hand a text to `colored` for its colours: their
//! contracts say what `colored` gives back and are taken on trust. Nothing
//! here reads a file or writes to a terminal.
pub mod errors;
pub mod event;
pub mod handlers;
pub mod program;
pub mod scope;
pub mod standard_library;
pub mod structure;
pub mod text;
