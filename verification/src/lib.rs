//! Batch image-conversion core: a merge-list driven batch converter that
//! throttles external conversion jobs in windows of five (four launched
//! without waiting, the fifth awaited), a pipe-delimited progress protocol
//! between the converter and an asynchronous poller, and the poller's
//! drain-to-latest evaluation of buffered progress messages.

pub mod batch;
pub mod channel;
pub mod merge;
pub mod poller;
pub mod protocol;
pub mod text;
