//! Scheduling core of an internet radio broadcaster: the track queue with its
//! prepared next track, the bounded byte buffers between transcoder and broadcast
//! pump, and the rules that keep both coherent under operator commands.

pub mod entry;
pub mod prebuffer;
pub mod queue;
pub mod ring;
