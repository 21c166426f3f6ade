//! Inspection of TLS certificate chains: decoding of X.509 certificates into
//! plain values and deterministic rendering of each certificate as a
//! human-readable text report, with an interpreter for the common X.509
//! extensions.

pub mod asn1;
pub mod cert;
pub mod chain;
pub mod extn;
pub mod hexfmt;
pub mod names;
pub mod oids;
pub mod report;
pub mod strutil;
pub mod viewer;
