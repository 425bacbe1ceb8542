use vstd::prelude::*;

verus! {

/// The content type of the Prometheus text exposition format.
pub const METRICS_CONTENT_TYPE: &'static str = "text/plain; version=0.0.4; charset=utf-8";

/// The body of the `/metrics` answer.
#[derive(Debug, Clone)]
pub enum MetricsBody {
    /// The encoded metrics.
    Encoded(Vec<u8>),
    /// Why they could not be encoded.
    Failure(String),
}

/// The `/metrics` answer.
#[derive(Debug, Clone)]
pub struct MetricsResponse {
    pub status: u16,
    pub content_type: Option<&'static str>,
    pub body: MetricsBody,
}

/// The `/metrics` answer for the outcome of encoding the gathered metrics (the encoder's
/// error message on failure): HTTP 200 with the text format's content type and the encoded
/// bytes, or HTTP 500 with `metrics encode error: ..`.
pub fn metrics_response(encoded: Result<Vec<u8>, String>) -> (r: MetricsResponse)
    ensures
        match encoded {
            Ok(bytes) => r.status == 200 && r.content_type == Some(METRICS_CONTENT_TYPE)
                && r.body == MetricsBody::Encoded(bytes),
            Err(e) => r.status == 500 && r.content_type is None && (r.body matches MetricsBody::Failure(
                m,
            ) && m@ == "metrics encode error: "@ + e@),
        },
{
    match encoded {
        Ok(bytes) => MetricsResponse {
            status: 200,
            content_type: Some(METRICS_CONTENT_TYPE),
            body: MetricsBody::Encoded(bytes),
        },
        Err(e) => {
            let mut m = String::from_str("metrics encode error: ");
            m.append(e.as_str());
            MetricsResponse { status: 500, content_type: None, body: MetricsBody::Failure(m) }
        },
    }
}

} // verus!
