//! On-device knowledge extraction and threat detection: link safety, PII
//! redaction, content classification and threat analysis.

pub mod content_classifier;
pub mod link_safety;
pub mod pii_redaction;
pub mod threat_detection;

use vstd::prelude::*;

verus! {

/// Knowledge errors.
#[derive(Debug)]
pub enum KnowledgeError {
    /// A model is not available on this device.
    NotAvailable(String),
    /// Inference failed.
    Inference(String),
    /// Any other failure, with its message.
    Custom(String),
}

impl From<String> for KnowledgeError {
    fn from(s: String) -> (r: Self) {
        KnowledgeError::Custom(s)
    }
}

impl vstd::std_specs::convert::FromSpecImpl<String> for KnowledgeError {
    open spec fn obeys_from_spec() -> bool {
        true
    }

    open spec fn from_spec(s: String) -> KnowledgeError {
        KnowledgeError::Custom(s)
    }
}

} // verus!
