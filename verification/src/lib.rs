//! The signal path of a tape-loop audio effect: a three-band equaliser in
//! front of a single-head loop recorder, one sample at a time.
//!
//! Sample values are carried as patterns and computed on by an arithmetic
//! unit that the caller supplies (see `arith`); what is computed from what,
//! where the head stands and what the loop holds is this library's, and is
//! proved.

pub mod arith;
pub mod eq;
pub mod eq_laws;
pub mod history;
pub mod im;
pub mod pipeline;
pub mod tape_laws;
pub mod tapeloop;
pub mod transport;

pub use crate::arith::Op;
pub use crate::eq::EQSTATE;
pub use crate::history::History;
pub use crate::tapeloop::TAPESTATE;
pub use crate::transport::Transport;
