//! The ways in which building the registry or analyzing a file can fail.

use vstd::prelude::*;
use vstd::string::StringExecFns;

verus! {

/// Why the registry could not be built or a file could not be analyzed.
#[derive(Debug, PartialEq, Eq)]
pub enum AnalysisError {
    /// A comment query does not compile against its grammar, or a grammar
    /// cannot be loaded. Nothing can be analyzed.
    RegistryBuild,
    /// The registry does not hold the language of this name.
    UnsupportedLanguage { language: String },
    /// The grammar gives no syntax tree for the content, or a tree that does
    /// not fit the content.
    ParseFailure,
    /// The content is not text.
    Io,
}

/// What an `AnalysisError` holds.
pub enum AnalysisErrorView {
    RegistryBuild,
    UnsupportedLanguage { language: Seq<char> },
    ParseFailure,
    Io,
}

impl View for AnalysisError {
    type V = AnalysisErrorView;

    open spec fn view(&self) -> AnalysisErrorView {
        match *self {
            AnalysisError::RegistryBuild => AnalysisErrorView::RegistryBuild,
            AnalysisError::UnsupportedLanguage { language } => AnalysisErrorView::UnsupportedLanguage {
                language: language@,
            },
            AnalysisError::ParseFailure => AnalysisErrorView::ParseFailure,
            AnalysisError::Io => AnalysisErrorView::Io,
        }
    }
}

impl AnalysisErrorView {
    /// A registry that cannot be built ends the run; any other failure only
    /// skips the file at hand.
    pub open spec fn is_fatal(self) -> bool {
        self is RegistryBuild
    }

    /// The error in words. An unsupported language is named.
    pub open spec fn message(self) -> Seq<char> {
        match self {
            AnalysisErrorView::RegistryBuild => "Failed to build the language registry"@,
            AnalysisErrorView::UnsupportedLanguage { language } => "Unsupported language: "@
                + language,
            AnalysisErrorView::ParseFailure => "Failed to parse file"@,
            AnalysisErrorView::Io => "Failed to read file as UTF-8 text"@,
        }
    }
}

impl AnalysisError {
    /// The error for a language that the registry does not hold.
    pub fn unsupported(language: &str) -> (e: AnalysisError)
        ensures
            e@ == (AnalysisErrorView::UnsupportedLanguage { language: language@ }),
    {
        AnalysisError::UnsupportedLanguage { language: language.to_owned() }
    }

    /// Whether the run has to end on this error.
    pub fn fatal(&self) -> (r: bool)
        ensures
            r == self@.is_fatal(),
    {
        match self {
            AnalysisError::RegistryBuild => true,
            _ => false,
        }
    }

    /// The error in words.
    pub fn message(&self) -> (s: String)
        ensures
            s@ == self@.message(),
    {
        match self {
            AnalysisError::RegistryBuild => "Failed to build the language registry".to_string(),
            AnalysisError::UnsupportedLanguage { language } => {
                let mut s = "Unsupported language: ".to_string();
                s.append(language.as_str());
                s
            },
            AnalysisError::ParseFailure => "Failed to parse file".to_string(),
            AnalysisError::Io => "Failed to read file as UTF-8 text".to_string(),
        }
    }
}

} // verus!
