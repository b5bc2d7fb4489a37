//! The library's error type.
use vstd::prelude::*;

use crate::text::{concat2, concat3};

verus! {

/// Everything that can go wrong while loading, checking or using a configuration.
#[derive(Debug, Clone)]
pub enum MerError {
    Config(String),
    Validation(String),
    Template(String),
    Http(String),
    /// An I/O failure, held as its message.
    Io(String),
    /// A YAML parse failure, held as its message.
    Yaml(String),
    /// A JSON failure, held as its message.
    Json(String),
    MissingEnvVar { name: String },
}

/// The mathematical content of a `MerError`: its kind and its text.
pub enum MerErrorView {
    Config(Seq<char>),
    Validation(Seq<char>),
    Template(Seq<char>),
    Http(Seq<char>),
    Io(Seq<char>),
    Yaml(Seq<char>),
    Json(Seq<char>),
    MissingEnvVar(Seq<char>),
}

impl View for MerError {
    type V = MerErrorView;

    open spec fn view(&self) -> MerErrorView {
        match self {
            MerError::Config(s) => MerErrorView::Config(s@),
            MerError::Validation(s) => MerErrorView::Validation(s@),
            MerError::Template(s) => MerErrorView::Template(s@),
            MerError::Http(s) => MerErrorView::Http(s@),
            MerError::Io(s) => MerErrorView::Io(s@),
            MerError::Yaml(s) => MerErrorView::Yaml(s@),
            MerError::Json(s) => MerErrorView::Json(s@),
            MerError::MissingEnvVar { name } => MerErrorView::MissingEnvVar(name@),
        }
    }
}

impl MerErrorView {
    /// The human-readable text shown for an error.
    pub open spec fn message(self) -> Seq<char> {
        match self {
            MerErrorView::Config(s) => "Config error: "@ + s,
            MerErrorView::Validation(s) => "Validation error: "@ + s,
            MerErrorView::Template(s) => "Template error: "@ + s,
            MerErrorView::Http(s) => "HTTP error: "@ + s,
            MerErrorView::Io(s) => "IO error: "@ + s,
            MerErrorView::Yaml(s) => "YAML parse error: "@ + s,
            MerErrorView::Json(s) => "JSON error: "@ + s,
            MerErrorView::MissingEnvVar(n) => "Environment variable '"@ + n + "' is not set"@,
        }
    }
}

impl MerError {
    /// The human-readable text of this error.
    pub fn message(&self) -> (res: String)
        ensures
            res@ == self@.message(),
    {
        match self {
            MerError::Config(s) => concat2("Config error: ", s.as_str()),
            MerError::Validation(s) => concat2("Validation error: ", s.as_str()),
            MerError::Template(s) => concat2("Template error: ", s.as_str()),
            MerError::Http(s) => concat2("HTTP error: ", s.as_str()),
            MerError::Io(s) => concat2("IO error: ", s.as_str()),
            MerError::Yaml(s) => concat2("YAML parse error: ", s.as_str()),
            MerError::Json(s) => concat2("JSON error: ", s.as_str()),
            MerError::MissingEnvVar { name } => concat3(
                "Environment variable '",
                name.as_str(),
                "' is not set",
            ),
        }
    }
}

} // verus!
