//! Ingests PNG or JPEG bytes, hands the pixels to the AVIF encoder, and
//! reports failures through a single-slot error channel that a C caller can
//! read back.
pub mod encode;
pub mod error;
pub mod ingest;
pub mod pixels;
