//! Expression-column edit controller.
//!
//! The library mediates between a text-based expression editor and a shared
//! analytic session's view configuration: it resolves which column is being
//! edited, tracks the editor's validity signal, computes the ordered,
//! duplicate-free expression list that a save or delete produces, and decides
//! what the asynchronous apply-and-render pipeline is handed.  A host wires
//! the editor's callbacks to [`controller::EditController`] and runs the
//! pipeline on the outcomes the controller returns.

pub mod controller;
pub mod expressions;
pub mod locator;
pub mod session;
