//! The registry of languages: for each identifier a grammar, the file
//! extensions that select it and the queries that find its comments.

use crate::error::AnalysisError;
use crate::syntax::compiled;
use tree_sitter::{Language, Query};
use vstd::hash_map::StringHashMap;
use vstd::prelude::*;

verus! {

/// One language of the registry.
pub struct LanguageConfig {
    /// The grammar.
    pub language: Language,
    /// The file extensions of the language, without the dot.
    pub file_extensions: Vec<&'static str>,
    /// The patterns that capture the comments, in the order they are run.
    pub comment_queries: Vec<&'static str>,
    /// The patterns of `comment_queries`, compiled against the grammar.
    pub compiled_queries: Vec<Query>,
}

/// The texts of a list of string slices.
pub open spec fn strs(list: Seq<&'static str>) -> Seq<Seq<char>> {
    list.map_values(|s: &'static str| s@)
}

/// Whether `name` is the identifier of a language that the registry holds.
pub open spec fn is_language(name: Seq<char>) -> bool {
    ||| name == "bash"@
    ||| name == "c"@
    ||| name == "c-sharp"@
    ||| name == "cpp"@
    ||| name == "css"@
    ||| name == "go"@
    ||| name == "java"@
    ||| name == "javascript"@
    ||| name == "php"@
    ||| name == "python"@
    ||| name == "ruby"@
    ||| name == "rust"@
    ||| name == "typescript"@
}

/// The file extensions that the registry gives a language.
pub open spec fn default_extensions(name: Seq<char>) -> Seq<Seq<char>> {
    if name == "bash"@ {
        seq!["sh"@]
    } else if name == "c"@ {
        seq!["c"@, "h"@]
    } else if name == "c-sharp"@ {
        seq!["cs"@, "csx"@, "cake"@, "cshtml"@, "razor"@]
    } else if name == "cpp"@ {
        seq!["cpp"@, "hpp"@, "cc"@, "hh"@, "cxx"@, "hxx"@]
    } else if name == "css"@ {
        seq!["css"@]
    } else if name == "go"@ {
        seq!["go"@]
    } else if name == "java"@ {
        seq!["java"@]
    } else if name == "javascript"@ {
        seq!["js"@, "mjs"@]
    } else if name == "php"@ {
        seq!["php"@]
    } else if name == "python"@ {
        seq!["py"@]
    } else if name == "ruby"@ {
        seq!["rb"@]
    } else if name == "rust"@ {
        seq!["rs"@]
    } else if name == "typescript"@ {
        seq!["ts"@]
    } else {
        seq![]
    }
}

/// The comment queries that the registry gives a language, in the order they
/// are run. Python also takes the string that opens a module, a class or a
/// function for a comment.
pub open spec fn default_queries(name: Seq<char>) -> Seq<Seq<char>> {
    if name == "java"@ || name == "rust"@ {
        seq!["(line_comment) @comment"@, "(block_comment) @comment"@]
    } else if name == "python"@ {
        seq![
            "(comment) @comment"@,
            "(module . (expression_statement (string) @comment))"@,
            "(class_definition body: (block . (expression_statement (string) @comment)))"@,
            "(function_definition body: (block . (expression_statement (string) @comment)))"@,
        ]
    } else if is_language(name) {
        seq!["(comment) @comment"@]
    } else {
        seq![]
    }
}

/// The grammar that the grammar crate of the language with this identifier
/// exports: `tree_sitter_bash::LANGUAGE` for `bash`, and so on for each
/// language of the registry.
pub uninterp spec fn registered_grammar(name: Seq<char>) -> Language;

/// Whether every one of the patterns compiles against the grammar.
pub open spec fn queries_compile(language: Language, sources: Seq<Seq<char>>) -> bool {
    forall|i: int| 0 <= i < sources.len() ==> (#[trigger] compiled(language, sources[i])) is Some
}

/// Whether `queries` are the patterns of `sources`, compiled against the
/// grammar, one for one.
pub open spec fn are_compiled(language: Language, sources: Seq<Seq<char>>, queries: Seq<Query>) -> bool {
    &&& queries.len() == sources.len()
    &&& forall|i: int|
        0 <= i < sources.len() ==> #[trigger] compiled(language, sources[i]) == Some(queries[i])
}

impl LanguageConfig {
    /// The compiled queries are the comment queries, compiled against the
    /// grammar of the language.
    pub open spec fn wf(self) -> bool {
        are_compiled(self.language, strs(self.comment_queries@), self.compiled_queries@)
    }
}

/// Whether `config` is what the registry holds under `name`: the grammar of
/// the language, its extensions and its queries, compiled.
pub open spec fn is_default_config(name: Seq<char>, config: LanguageConfig) -> bool {
    &&& config.language == registered_grammar(name)
    &&& strs(config.file_extensions@) == default_extensions(name)
    &&& strs(config.comment_queries@) == default_queries(name)
    &&& config.wf()
}

/// Whether the registry can be built: whether every query of every language
/// compiles against the grammar of the language.
pub open spec fn registry_builds() -> bool {
    forall|name: Seq<char>|
        is_language(name) ==> #[trigger] queries_compile(
            registered_grammar(name),
            default_queries(name),
        )
}

/// Whether every entry of `configs` is a language of the registry, as the
/// registry gives it.
pub open spec fn holds_defaults(configs: Map<Seq<char>, LanguageConfig>) -> bool {
    forall|name: Seq<char>| #[trigger]
        configs.contains_key(name) ==> is_language(name) && is_default_config(name, configs[name])
}

/// Whether `configs` is the registry: it holds the thirteen languages and
/// nothing else, each with its extensions and its queries, all compiled.
pub open spec fn is_registry(configs: Map<Seq<char>, LanguageConfig>) -> bool {
    &&& forall|name: Seq<char>| is_language(name) ==> #[trigger] configs.contains_key(name)
    &&& holds_defaults(configs)
}

/// `tree_sitter_bash::LANGUAGE` as a `Language`: the grammar that the registry
/// holds under `bash`.
#[verifier::external_body]
fn bash_grammar() -> (language: Language)
    ensures
        language == registered_grammar("bash"@),
{
    tree_sitter_bash::LANGUAGE.into()
}

/// `tree_sitter_c::LANGUAGE` as a `Language`: the grammar that the registry
/// holds under `c`.
#[verifier::external_body]
fn c_grammar() -> (language: Language)
    ensures
        language == registered_grammar("c"@),
{
    tree_sitter_c::LANGUAGE.into()
}

/// `tree_sitter_c_sharp::LANGUAGE` as a `Language`: the grammar that the registry
/// holds under `c-sharp`.
#[verifier::external_body]
fn c_sharp_grammar() -> (language: Language)
    ensures
        language == registered_grammar("c-sharp"@),
{
    tree_sitter_c_sharp::LANGUAGE.into()
}

/// `tree_sitter_cpp::LANGUAGE` as a `Language`: the grammar that the registry
/// holds under `cpp`.
#[verifier::external_body]
fn cpp_grammar() -> (language: Language)
    ensures
        language == registered_grammar("cpp"@),
{
    tree_sitter_cpp::LANGUAGE.into()
}

/// `tree_sitter_css::LANGUAGE` as a `Language`: the grammar that the registry
/// holds under `css`.
#[verifier::external_body]
fn css_grammar() -> (language: Language)
    ensures
        language == registered_grammar("css"@),
{
    tree_sitter_css::LANGUAGE.into()
}

/// `tree_sitter_go::LANGUAGE` as a `Language`: the grammar that the registry
/// holds under `go`.
#[verifier::external_body]
fn go_grammar() -> (language: Language)
    ensures
        language == registered_grammar("go"@),
{
    tree_sitter_go::LANGUAGE.into()
}

/// `tree_sitter_java::LANGUAGE` as a `Language`: the grammar that the registry
/// holds under `java`.
#[verifier::external_body]
fn java_grammar() -> (language: Language)
    ensures
        language == registered_grammar("java"@),
{
    tree_sitter_java::LANGUAGE.into()
}

/// `tree_sitter_javascript::LANGUAGE` as a `Language`: the grammar that the registry
/// holds under `javascript`.
#[verifier::external_body]
fn javascript_grammar() -> (language: Language)
    ensures
        language == registered_grammar("javascript"@),
{
    tree_sitter_javascript::LANGUAGE.into()
}

/// `tree_sitter_php::LANGUAGE_PHP` as a `Language`: the grammar that the
/// registry holds under `php`. It takes PHP inside HTML.
#[verifier::external_body]
fn php_grammar() -> (language: Language)
    ensures
        language == registered_grammar("php"@),
{
    tree_sitter_php::LANGUAGE_PHP.into()
}

/// `tree_sitter_python::LANGUAGE` as a `Language`: the grammar that the registry
/// holds under `python`.
#[verifier::external_body]
fn python_grammar() -> (language: Language)
    ensures
        language == registered_grammar("python"@),
{
    tree_sitter_python::LANGUAGE.into()
}

/// `tree_sitter_ruby::LANGUAGE` as a `Language`: the grammar that the registry
/// holds under `ruby`.
#[verifier::external_body]
fn ruby_grammar() -> (language: Language)
    ensures
        language == registered_grammar("ruby"@),
{
    tree_sitter_ruby::LANGUAGE.into()
}

/// `tree_sitter_rust::LANGUAGE` as a `Language`: the grammar that the registry
/// holds under `rust`.
#[verifier::external_body]
fn rust_grammar() -> (language: Language)
    ensures
        language == registered_grammar("rust"@),
{
    tree_sitter_rust::LANGUAGE.into()
}

/// `tree_sitter_typescript::LANGUAGE_TYPESCRIPT` as a `Language`: the
/// grammar that the registry holds under `typescript`. It takes TypeScript
/// without JSX.
#[verifier::external_body]
fn typescript_grammar() -> (language: Language)
    ensures
        language == registered_grammar("typescript"@),
{
    tree_sitter_typescript::LANGUAGE_TYPESCRIPT.into()
}

/// Compiles each pattern against the grammar, in their order, and gives the
/// compiled queries in that order; `None` as soon as one does not compile.
fn compile_queries(language: &Language, sources: &Vec<&'static str>) -> (r: Option<Vec<Query>>)
    ensures
        match r {
            Some(queries) => are_compiled(*language, strs(sources@), queries@),
            None => !queries_compile(*language, strs(sources@)),
        },
{
    let mut queries: Vec<Query> = Vec::new();
    let mut at: usize = 0;
    while at < sources.len()
        invariant
            at <= sources@.len(),
            queries@.len() == at,
            forall|i: int|
                0 <= i < at ==> #[trigger] compiled(*language, strs(sources@)[i]) == Some(
                    queries@[i],
                ),
        decreases sources@.len() - at,
    {
        assert(strs(sources@)[at as int] == sources@[at as int]@);
        match Query::new(language, sources[at]) {
            Ok(query) => queries.push(query),
            Err(_) => {
                return None;
            },
        }
        at += 1;
    }
    Some(queries)
}

/// Registers one language under `name`, given what compiling its queries
/// gave.
///
/// With compiled queries the registry holds the language afterwards, and
/// everything else as before. Without them it fails and leaves the registry
/// as it was.
pub fn insert_compiled(
    configs: &mut StringHashMap<LanguageConfig>,
    name: &'static str,
    language: Language,
    file_extensions: Vec<&'static str>,
    comment_queries: Vec<&'static str>,
    compiled: Option<Vec<Query>>,
) -> (r: Result<(), AnalysisError>)
    ensures
        match compiled {
            Some(compiled_queries) => r is Ok && final(configs)@ == old(configs)@.insert(
                name@,
                LanguageConfig { language, file_extensions, comment_queries, compiled_queries },
            ),
            None => r matches Err(e) && e is RegistryBuild && final(configs)@ == old(configs)@,
        },
{
    match compiled {
        Some(compiled_queries) => {
            configs.insert(
                name.to_string(),
                LanguageConfig { language, file_extensions, comment_queries, compiled_queries },
            );
            Ok(())
        },
        None => Err(AnalysisError::RegistryBuild),
    }
}

/// Registers one language under `name`, with its queries compiled against
/// its grammar.
///
/// Succeeds exactly where every query compiles, and then the registry holds
/// the language with its compiled queries, and everything else as before.
/// Where a query does not compile it fails with `RegistryBuild` and leaves
/// the registry as it was.
pub fn insert_language_config(
    configs: &mut StringHashMap<LanguageConfig>,
    name: &'static str,
    language: Language,
    file_extensions: Vec<&'static str>,
    comment_queries: Vec<&'static str>,
) -> (r: Result<(), AnalysisError>)
    ensures
        r is Ok <==> queries_compile(language, strs(comment_queries@)),
        match r {
            Ok(()) => {
                &&& final(configs)@.contains_key(name@)
                &&& final(configs)@ == old(configs)@.insert(name@, final(configs)@[name@])
                &&& final(configs)@[name@].language == language
                &&& final(configs)@[name@].file_extensions == file_extensions
                &&& final(configs)@[name@].comment_queries == comment_queries
                &&& final(configs)@[name@].wf()
            },
            Err(e) => e is RegistryBuild && final(configs)@ == old(configs)@,
        },
{
    let compiled = compile_queries(&language, &comment_queries);
    insert_compiled(configs, name, language, file_extensions, comment_queries, compiled)
}

/// No two identifiers of the registry are the same text: they differ in
/// length, or in their first, second or third character.
proof fn lemma_names_differ()
    ensures
        "bash"@.len() == 4,
        "bash"@[0] == 'b',
        "bash"@[2] == 's',
        "c"@.len() == 1,
        "c-sharp"@.len() == 7,
        "cpp"@.len() == 3,
        "cpp"@[0] == 'c',
        "cpp"@[1] == 'p',
        "css"@.len() == 3,
        "css"@[0] == 'c',
        "css"@[1] == 's',
        "go"@.len() == 2,
        "java"@.len() == 4,
        "java"@[0] == 'j',
        "java"@[2] == 'v',
        "javascript"@.len() == 10,
        "javascript"@[0] == 'j',
        "php"@.len() == 3,
        "php"@[0] == 'p',
        "php"@[1] == 'h',
        "python"@.len() == 6,
        "ruby"@.len() == 4,
        "ruby"@[0] == 'r',
        "ruby"@[2] == 'b',
        "rust"@.len() == 4,
        "rust"@[0] == 'r',
        "rust"@[2] == 's',
        "typescript"@.len() == 10,
        "typescript"@[0] == 't',
{
    reveal_strlit("bash");
    reveal_strlit("c");
    reveal_strlit("c-sharp");
    reveal_strlit("cpp");
    reveal_strlit("css");
    reveal_strlit("go");
    reveal_strlit("java");
    reveal_strlit("javascript");
    reveal_strlit("php");
    reveal_strlit("python");
    reveal_strlit("ruby");
    reveal_strlit("rust");
    reveal_strlit("typescript");
}

/// Registers a language of the registry, which keeps what it held.
fn register(
    configs: &mut StringHashMap<LanguageConfig>,
    name: &'static str,
    language: Language,
    file_extensions: Vec<&'static str>,
    comment_queries: Vec<&'static str>,
) -> (r: Result<(), AnalysisError>)
    requires
        holds_defaults(old(configs)@),
        is_language(name@),
        language == registered_grammar(name@),
        strs(file_extensions@) == default_extensions(name@),
        strs(comment_queries@) == default_queries(name@),
    ensures
        holds_defaults(final(configs)@),
        r is Ok <==> queries_compile(registered_grammar(name@), default_queries(name@)),
        r is Ok ==> final(configs)@.contains_key(name@),
        forall|other: Seq<char>|
            old(configs)@.contains_key(other) ==> #[trigger] final(configs)@.contains_key(other),
        r matches Err(e) ==> e is RegistryBuild,
{
    insert_language_config(configs, name, language, file_extensions, comment_queries)
}

/// Builds the registry.
///
/// Succeeds exactly where every query of every language compiles against the
/// grammar of the language, and then the map is the registry that
/// `is_registry` describes. A query that does not compile is a
/// `RegistryBuild` error.
pub fn get_language_configs() -> (r: Result<StringHashMap<LanguageConfig>, AnalysisError>)
    ensures
        r is Ok <==> registry_builds(),
        match r {
            Ok(configs) => is_registry(configs@),
            Err(e) => e is RegistryBuild,
        },
{
    let mut configs: StringHashMap<LanguageConfig> = StringHashMap::new();
    proof {
        lemma_names_differ();
    }
    let extensions: Vec<&'static str> = vec!["sh"];
    let queries: Vec<&'static str> = vec!["(comment) @comment"];
    proof {
        assert(strs(extensions@) =~= default_extensions("bash"@));
        assert(strs(queries@) =~= default_queries("bash"@));
    }
    if register(&mut configs, "bash", bash_grammar(), extensions, queries).is_err() {
        return Err(AnalysisError::RegistryBuild);
    }

    let extensions: Vec<&'static str> = vec!["c", "h"];
    let queries: Vec<&'static str> = vec!["(comment) @comment"];
    proof {
        assert(strs(extensions@) =~= default_extensions("c"@));
        assert(strs(queries@) =~= default_queries("c"@));
    }
    if register(&mut configs, "c", c_grammar(), extensions, queries).is_err() {
        return Err(AnalysisError::RegistryBuild);
    }

    let extensions: Vec<&'static str> = vec!["cs", "csx", "cake", "cshtml", "razor"];
    let queries: Vec<&'static str> = vec!["(comment) @comment"];
    proof {
        assert(strs(extensions@) =~= default_extensions("c-sharp"@));
        assert(strs(queries@) =~= default_queries("c-sharp"@));
    }
    if register(&mut configs, "c-sharp", c_sharp_grammar(), extensions, queries).is_err() {
        return Err(AnalysisError::RegistryBuild);
    }

    let extensions: Vec<&'static str> = vec!["cpp", "hpp", "cc", "hh", "cxx", "hxx"];
    let queries: Vec<&'static str> = vec!["(comment) @comment"];
    proof {
        assert(strs(extensions@) =~= default_extensions("cpp"@));
        assert(strs(queries@) =~= default_queries("cpp"@));
    }
    if register(&mut configs, "cpp", cpp_grammar(), extensions, queries).is_err() {
        return Err(AnalysisError::RegistryBuild);
    }

    let extensions: Vec<&'static str> = vec!["css"];
    let queries: Vec<&'static str> = vec!["(comment) @comment"];
    proof {
        assert(strs(extensions@) =~= default_extensions("css"@));
        assert(strs(queries@) =~= default_queries("css"@));
    }
    if register(&mut configs, "css", css_grammar(), extensions, queries).is_err() {
        return Err(AnalysisError::RegistryBuild);
    }

    let extensions: Vec<&'static str> = vec!["go"];
    let queries: Vec<&'static str> = vec!["(comment) @comment"];
    proof {
        assert(strs(extensions@) =~= default_extensions("go"@));
        assert(strs(queries@) =~= default_queries("go"@));
    }
    if register(&mut configs, "go", go_grammar(), extensions, queries).is_err() {
        return Err(AnalysisError::RegistryBuild);
    }

    let extensions: Vec<&'static str> = vec!["java"];
    let queries: Vec<&'static str> = vec!["(line_comment) @comment", "(block_comment) @comment"];
    proof {
        assert(strs(extensions@) =~= default_extensions("java"@));
        assert(strs(queries@) =~= default_queries("java"@));
    }
    if register(&mut configs, "java", java_grammar(), extensions, queries).is_err() {
        return Err(AnalysisError::RegistryBuild);
    }

    let extensions: Vec<&'static str> = vec!["js", "mjs"];
    let queries: Vec<&'static str> = vec!["(comment) @comment"];
    proof {
        assert(strs(extensions@) =~= default_extensions("javascript"@));
        assert(strs(queries@) =~= default_queries("javascript"@));
    }
    if register(&mut configs, "javascript", javascript_grammar(), extensions, queries).is_err() {
        return Err(AnalysisError::RegistryBuild);
    }

    let extensions: Vec<&'static str> = vec!["php"];
    let queries: Vec<&'static str> = vec!["(comment) @comment"];
    proof {
        assert(strs(extensions@) =~= default_extensions("php"@));
        assert(strs(queries@) =~= default_queries("php"@));
    }
    if register(&mut configs, "php", php_grammar(), extensions, queries).is_err() {
        return Err(AnalysisError::RegistryBuild);
    }

    let extensions: Vec<&'static str> = vec!["py"];
    let queries: Vec<&'static str> = vec![
        "(comment) @comment",
        "(module . (expression_statement (string) @comment))",
        "(class_definition body: (block . (expression_statement (string) @comment)))",
        "(function_definition body: (block . (expression_statement (string) @comment)))",
    ];
    proof {
        assert(strs(extensions@) =~= default_extensions("python"@));
        assert(strs(queries@) =~= default_queries("python"@));
    }
    if register(&mut configs, "python", python_grammar(), extensions, queries).is_err() {
        return Err(AnalysisError::RegistryBuild);
    }

    let extensions: Vec<&'static str> = vec!["rb"];
    let queries: Vec<&'static str> = vec!["(comment) @comment"];
    proof {
        assert(strs(extensions@) =~= default_extensions("ruby"@));
        assert(strs(queries@) =~= default_queries("ruby"@));
    }
    if register(&mut configs, "ruby", ruby_grammar(), extensions, queries).is_err() {
        return Err(AnalysisError::RegistryBuild);
    }

    let extensions: Vec<&'static str> = vec!["rs"];
    let queries: Vec<&'static str> = vec!["(line_comment) @comment", "(block_comment) @comment"];
    proof {
        assert(strs(extensions@) =~= default_extensions("rust"@));
        assert(strs(queries@) =~= default_queries("rust"@));
    }
    if register(&mut configs, "rust", rust_grammar(), extensions, queries).is_err() {
        return Err(AnalysisError::RegistryBuild);
    }

    let extensions: Vec<&'static str> = vec!["ts"];
    let queries: Vec<&'static str> = vec!["(comment) @comment"];
    proof {
        assert(strs(extensions@) =~= default_extensions("typescript"@));
        assert(strs(queries@) =~= default_queries("typescript"@));
    }
    if register(&mut configs, "typescript", typescript_grammar(), extensions, queries).is_err() {
        return Err(AnalysisError::RegistryBuild);
    }
    Ok(configs)
}

} // verus!
