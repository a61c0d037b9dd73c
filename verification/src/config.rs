//! The configuration of a run: which directories to scan, in which language.

use crate::languages::{strs, LanguageConfig};
use crate::text::str_eq;
use vstd::prelude::*;

verus! {

/// What to scan, and how to show it.
#[derive(Debug)]
pub struct Config {
    pub rules: Vec<Rule>,
    pub parameters: Parameters,
}

/// The directories to scan for one language.
#[derive(Debug)]
pub struct Rule {
    /// The directories, relative to the configuration file.
    pub paths: Vec<String>,
    /// The identifier of the language.
    pub language: String,
    /// The file extensions to scan, in place of those of the language.
    pub file_extensions: Option<Vec<String>>,
}

/// Settings that hold for every rule.
#[derive(Debug)]
pub struct Parameters {
    /// The URL that opens a file in an editor, with `%%file%%` for the path
    /// and `%%line%%` for the line.
    pub editor_url: Option<String>,
}

/// The texts of a list of strings.
pub open spec fn texts(list: Seq<String>) -> Seq<Seq<char>> {
    list.map_values(|s: String| s@)
}

impl Rule {
    /// The file extensions that the rule scans: its own where it names any,
    /// else those of its language.
    pub open spec fn extensions(self, language: LanguageConfig) -> Seq<Seq<char>> {
        match self.file_extensions {
            Some(list) => texts(list@),
            None => strs(language.file_extensions@),
        }
    }

    /// The file extensions that the rule scans.
    pub fn effective_extensions(&self, language: &LanguageConfig) -> (list: Vec<String>)
        ensures
            texts(list@) == self.extensions(*language),
    {
        let mut list: Vec<String> = Vec::new();
        match &self.file_extensions {
            Some(own) => {
                let mut at: usize = 0;
                while at < own.len()
                    invariant
                        at <= own@.len(),
                        list@.len() == at,
                        forall|i: int| 0 <= i < at ==> (#[trigger] list@[i])@ == own@[i]@,
                    decreases own@.len() - at,
                {
                    list.push(own[at].clone());
                    at += 1;
                }
                assert(texts(list@) =~= texts(own@));
            },
            None => {
                let defaults = &language.file_extensions;
                let mut at: usize = 0;
                while at < defaults.len()
                    invariant
                        at <= defaults@.len(),
                        list@.len() == at,
                        forall|i: int| 0 <= i < at ==> (#[trigger] list@[i])@ == defaults@[i]@,
                    decreases defaults@.len() - at,
                {
                    list.push(defaults[at].to_owned());
                    at += 1;
                }
                assert(texts(list@) =~= strs(defaults@));
            },
        }
        list
    }
}

/// Whether `extension` is one of `extensions`.
pub fn has_extension(extensions: &[String], extension: &str) -> (r: bool)
    ensures
        r == texts(extensions@).contains(extension@),
{
    let mut at: usize = 0;
    while at < extensions.len()
        invariant
            at <= extensions@.len(),
            forall|i: int| 0 <= i < at ==> (#[trigger] extensions@[i])@ != extension@,
        decreases extensions@.len() - at,
    {
        if str_eq(extensions[at].as_str(), extension) {
            assert(texts(extensions@)[at as int] == extension@);
            return true;
        }
        at += 1;
    }
    assert forall|i: int| 0 <= i < texts(extensions@).len() implies texts(extensions@)[i]
        != extension@ by {
        assert(texts(extensions@)[i] == extensions@[i]@);
    }
    false
}

} // verus!
