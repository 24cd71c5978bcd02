//! Rules of a client for the Articut word-segmentation service: what a
//! request carries, and how a reply is turned into a result or a typed error.

pub mod articut;
pub mod error;
pub mod substring;
pub mod transport;
