//! Word counting for stored objects named by object-creation notifications:
//! read the event, pick its first record, and report the number of
//! whitespace-delimited words in the fetched object.

pub mod event;
pub mod pipeline;
pub mod text;
