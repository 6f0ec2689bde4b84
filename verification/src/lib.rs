//! A replaying data source for a columnar query engine: one in-memory batch
//! of rows, presented to the engine a fixed number of times without ever
//! holding the copies in memory together.
//!
//! * [`repeat`] holds the table that a catalog registers and the plan node
//!   that a scan of it yields. A scan picks columns by position; the contract
//!   of [`repeat::RepeatedTable::scan`] says which request is refused and
//!   what the node of an accepted one holds.
//! * [`producer`] holds the deciding half of the task that replays the batch
//!   into a bounded queue, and the laws of every run of it: all copies are
//!   sent in order, and a consumer that leaves stops the producer within one
//!   send.
//! * [`projection`] holds the arithmetic of column positions.
//! * [`text`] writes counts in decimal for descriptions and diagnostics.
//! * [`columnar`] is the boundary to Arrow, whose batches, columns and
//!   schemas the source carries without looking inside.
//!
//! The queue itself, the task that performs the sends and the stream that
//! the engine pulls from are asynchronous and are the caller's: the library
//! decides, the caller waits.

pub mod columnar;
pub mod producer;
pub mod projection;
pub mod repeat;
pub mod text;
