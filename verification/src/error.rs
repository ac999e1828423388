use vstd::prelude::*;

verus! {

#[verifier::external_type_specification]
#[verifier::external_body]
pub struct ExIoError(std::io::Error);

/// Central error type for the viewer application.
#[derive(Debug)]
pub enum ViewerError {
    /// Window creation or event loop error.
    Window(String),
    /// Graphics renderer error.
    Renderer(String),
    /// Video decoder error.
    Decoder(String),
    /// Configuration error.
    Config(String),
    /// Network or protocol error.
    Network(String),
    /// I/O error.
    Io(std::io::Error),
}

/// `r` failed with a decoder error whose detail is `text`.
pub open spec fn decoder_failure<T>(r: Result<T, ViewerError>, text: Seq<char>) -> bool {
    r matches Err(e) && e matches ViewerError::Decoder(m) && m@ == text
}

/// `r` failed with a renderer error whose detail is `text`.
pub open spec fn renderer_failure<T>(r: Result<T, ViewerError>, text: Seq<char>) -> bool {
    r matches Err(e) && e matches ViewerError::Renderer(m) && m@ == text
}

/// The text a viewer error reads as, given the prefix of its kind and its detail.
pub open spec fn prefixed_text(prefix: Seq<char>, detail: Seq<char>) -> Seq<char> {
    prefix + detail
}

/// Builds `prefix` followed by `detail` as a fresh string.
pub fn join_text(prefix: &str, detail: &str) -> (s: String)
    ensures
        s@ == prefix@ + detail@,
{
    let mut s = String::from_str(prefix);
    s.append(detail);
    s
}

impl ViewerError {
    /// Human-readable description of the error, as the viewer reports it.
    pub fn message(&self) -> (s: String)
        ensures
            self matches ViewerError::Window(d) ==> s@ == "Window error: "@ + d@,
            self matches ViewerError::Renderer(d) ==> s@ == "Renderer error: "@ + d@,
            self matches ViewerError::Decoder(d) ==> s@ == "Decoder error: "@ + d@,
            self matches ViewerError::Config(d) ==> s@ == "Configuration error: "@ + d@,
            self matches ViewerError::Network(d) ==> s@ == "Network error: "@ + d@,
    {
        match self {
            ViewerError::Window(d) => join_text("Window error: ", d.as_str()),
            ViewerError::Renderer(d) => join_text("Renderer error: ", d.as_str()),
            ViewerError::Decoder(d) => join_text("Decoder error: ", d.as_str()),
            ViewerError::Config(d) => join_text("Configuration error: ", d.as_str()),
            ViewerError::Network(d) => join_text("Network error: ", d.as_str()),
            ViewerError::Io(e) => {
                let detail = e.to_string();
                join_text("I/O error: ", detail.as_str())
            },
        }
    }
}

} // verus!
