//! A templated-email dispatch pipeline: a request carrying a template
//! identifier, substitution parameters, a recipient and a shared
//! secret is authenticated, its template rendered, a calendar invite
//! and a generated billing document optionally attached, and the
//! multi-part result handed out for delivery over an authenticated
//! relay.  The pipeline itself is a verified state machine
//! ([`pipeline::Pipeline`]); the surrounding runtime performs the file
//! reads, the template rendering, the document-service call, the
//! vector-to-document conversion and the relay session it asks for,
//! and feeds the outcomes back in as events.

use vstd::prelude::*;

pub mod message;
pub mod pipeline;
pub mod value;

verus! {

/// A stage of the request pipeline has failed; each variant names one
/// failure domain, kept distinct so that logs can tell them apart even
/// though the caller-visible status collapses most of them.
#[derive(Clone, Copy, PartialEq, Eq, Structural, Debug)]
pub enum PipelineError {
    Unauthorized,
    ConfigurationMissing,
    TemplateNotFound,
    TemplateRenderError,
    AttachmentNotFound,
    DocumentServiceUnavailable,
    DocumentConversionFailed,
    MessageAssemblyError,
    DeliveryFailed,
}

/// The HTTP status reported for a failed pipeline: authorization failures
/// are the caller's mistake (401); everything else is a server-side 500.
pub fn error_status(e: PipelineError) -> (r: u16)
    ensures
        r == 401 <==> e == PipelineError::Unauthorized,
        e != PipelineError::Unauthorized ==> r == 500,
{
    match e {
        PipelineError::Unauthorized => 401,
        _ => 500,
    }
}

} // verus!
