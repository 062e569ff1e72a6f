//! Errors of style computation inside the engine.
use vstd::prelude::*;
use crate::text::prefixed;

verus! {

/// What can go wrong while computing styles inside the engine.
#[derive(Debug)]
pub enum StyleError {
    InvalidElement(String),
    ComputationFailed(String),
    CssParsingError(String),
    MissingStylesheet,
    InvalidProperty(String),
    ContextNotInitialized,
    TraversalError(String),
    StyloError(String),
}

/// The outcome of a style operation.
pub type StyleResult<T> = Result<T, StyleError>;

/// The message that describes the error.
pub open spec fn message_of(e: StyleError) -> Seq<char> {
    match e {
        StyleError::InvalidElement(s) => "Invalid DOM element: "@ + s@,
        StyleError::ComputationFailed(s) => "Style computation failed: "@ + s@,
        StyleError::CssParsingError(s) => "CSS parsing error: "@ + s@,
        StyleError::MissingStylesheet => "Missing required stylesheet"@,
        StyleError::InvalidProperty(s) => "Invalid CSS property: "@ + s@,
        StyleError::ContextNotInitialized => "Style context not initialized"@,
        StyleError::TraversalError(s) => "DOM traversal error: "@ + s@,
        StyleError::StyloError(s) => "Internal Stylo error: "@ + s@,
    }
}

impl StyleError {
    /// The message that describes the error.
    pub fn message(&self) -> (r: String)
        ensures
            r@ == message_of(*self),
    {
        match self {
            StyleError::InvalidElement(s) => prefixed("Invalid DOM element: ", s.as_str()),
            StyleError::ComputationFailed(s) => prefixed("Style computation failed: ", s.as_str()),
            StyleError::CssParsingError(s) => prefixed("CSS parsing error: ", s.as_str()),
            StyleError::MissingStylesheet => String::from_str("Missing required stylesheet"),
            StyleError::InvalidProperty(s) => prefixed("Invalid CSS property: ", s.as_str()),
            StyleError::ContextNotInitialized => String::from_str("Style context not initialized"),
            StyleError::TraversalError(s) => prefixed("DOM traversal error: ", s.as_str()),
            StyleError::StyloError(s) => prefixed("Internal Stylo error: ", s.as_str()),
        }
    }
}

} // verus!
