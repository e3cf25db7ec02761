//! Fault taxonomy and dynamic-dispatch core of an abstract machine that
//! interprets a typed intermediate representation over a simulated heap.
//!
//! The crate is organised leaves-first: `render` turns numbers into decimal
//! text for diagnostics, `memory` models the simulated address space,
//! `value` the primitive values read out of it, `ty` the host type system's
//! tables, `error` the fault taxonomy with its portable projection, and
//! `dispatch` the vtable synthesizer and the trait-obligation resolver.

pub mod render;

pub mod ty;

pub mod value;

pub mod memory;

pub mod error;

pub mod dispatch;
