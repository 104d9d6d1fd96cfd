//! A verified per-frame inspection hook for a network receive path.
//!
//! Every incoming frame is handed to one of two independent policies:
//!
//! * the block-port policy drops any frame whose destination transport port
//!   equals a configured value and passes everything else;
//! * the trace-HTTP policy passes every frame, and for well-formed TCP frames
//!   whose payload starts with an HTTP method prefix it copies the frame's
//!   addresses, ports and payload into a bounded capture buffer.
//!
//! All header decoding is built on bounds-checked reads over the raw bytes, so
//! no path ever reads past the end of a frame.

pub mod capture;
pub mod frame;
pub mod headers;
pub mod matcher;
pub mod policy;
