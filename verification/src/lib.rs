//! Finalizer safety analysis for a garbage-collected handle type.
//!
//! A value placed behind a [`gc::Gc`] handle is reclaimed by a tracing
//! collector, and its destructor runs later, on another thread, in no
//! particular order with respect to other destructors. This crate decides,
//! over a small model of types and of destructor bodies, whether that is safe,
//! and reports every access that makes it unsafe.
//!
//! The model is in [`ty`], [`mir`] and [`program`]. What the analysis reports
//! is defined in [`findings`] and [`glue`] and computed in [`visit`] and
//! [`check_finalizers`]; [`laws`] holds what is true of it on every program.
//! [`diagnostics`] turns findings into reports. [`remove_elidable_drops`] is
//! a small optimisation on the same model. [`oracle`] keeps the answers of
//! the type system. [`gc`] and [`allocator`] hold the handle type and what
//! the allocator asks of the collector.
pub mod ty;
pub mod mir;
pub mod program;
pub mod oracle;
pub mod findings;
pub mod glue;
pub mod diagnostics;
pub mod visit;
pub mod check_finalizers;
pub mod remove_elidable_drops;
pub mod laws;
pub mod gc;
pub mod allocator;
