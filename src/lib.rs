//! Context assembly and memory compaction for a conversational assistant.
//!
//! The library keeps a per-session transcript ordered by time, decides when
//! history is compacted into a summary, assembles the message list sent to a
//! completion provider, interprets the provider's answer, and plans the
//! best-effort writeback of a finished turn.

pub mod error;
pub mod turn;
pub mod transcript;
pub mod context;
pub mod completion;
pub mod compaction;
pub mod upload;
pub mod recall;
pub mod writeback;
pub mod flow;
