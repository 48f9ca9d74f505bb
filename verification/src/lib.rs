//! A safe, indexable, iterable view over the child-object collection of a
//! native "form" page object (an embedded, reusable content-stream object).
//!
//! The native engine owns the underlying object graph; this crate models the
//! slice of that state which the view reads — the ordered child-object handles
//! and the engine's removal capability — as plain values, and verifies the
//! collection contract built on top of them: counting, bounds-checked
//! indexing, first/last access, iteration, and capability-gated removal.

pub mod error;
pub mod object;
pub mod x_object_form;
