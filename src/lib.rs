//! Sampling frames from a video stream, validating them for an object
//! detector, and reporting what the detector found.
pub mod convert;
pub mod cycle;
pub mod report;
pub mod sampling;
