//! Verified core of a UDP telemetry ingestion service.
//!
//! The library decodes fixed-layout binary telemetry datagrams into
//! structured records and drives the ingestion loop's decisions: which
//! decoded records are forwarded to the output sink, and when the sink's
//! buffer must be flushed.  All socket, file and signal handling lives
//! outside the library; the functions here work on plain byte buffers and
//! return plain values.

pub mod bytes;
pub mod packet;
pub mod server;
