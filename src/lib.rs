//! A grid world whose layout, deposits and participants stay sealed: the
//! state transitions run on opened values inside the confidential cluster, and
//! the ledger side only queues computations and absorbs their sealed results.
pub mod circuits;
pub mod grid;
pub mod ledger;
pub mod rules;
pub mod sealed;
pub mod world;
