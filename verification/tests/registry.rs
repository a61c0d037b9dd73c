use todo_checker::cli::Cli;
use todo_checker::config::{has_extension, Config, Parameters, Rule};
use todo_checker::error::AnalysisError;
use todo_checker::languages::{get_language_configs, insert_compiled, insert_language_config};

fn cli(format: &str, exit_zero: bool) -> Cli {
    Cli {
        config_file_path: "config.toml".to_string(),
        check_format_only: false,
        check_due_only: false,
        due_after: 0,
        max_comment_length: 100,
        format: format.to_string(),
        no_tty: false,
        exit_zero,
    }
}

#[test]
fn registry_holds_thirteen_languages() {
    let configs = get_language_configs().unwrap();
    assert_eq!(configs.len(), 13);
    for (name, extensions, queries) in [
        ("bash", vec!["sh"], 1),
        ("c", vec!["c", "h"], 1),
        ("c-sharp", vec!["cs", "csx", "cake", "cshtml", "razor"], 1),
        ("cpp", vec!["cpp", "hpp", "cc", "hh", "cxx", "hxx"], 1),
        ("css", vec!["css"], 1),
        ("go", vec!["go"], 1),
        ("java", vec!["java"], 2),
        ("javascript", vec!["js", "mjs"], 1),
        ("php", vec!["php"], 1),
        ("python", vec!["py"], 4),
        ("ruby", vec!["rb"], 1),
        ("rust", vec!["rs"], 2),
        ("typescript", vec!["ts"], 1),
    ] {
        let config = configs.get(name).unwrap();
        assert_eq!(config.file_extensions, extensions, "{}", name);
        assert_eq!(config.comment_queries.len(), queries, "{}", name);
        assert_eq!(config.compiled_queries.len(), queries, "{}", name);
    }
    assert!(configs.get("cobol").is_none());
    assert!(configs.get("").is_none());
}

#[test]
fn registry_names_its_queries() {
    let configs = get_language_configs().unwrap();
    assert_eq!(configs.get("go").unwrap().comment_queries, vec!["(comment) @comment"]);
    assert_eq!(
        configs.get("rust").unwrap().comment_queries,
        vec!["(line_comment) @comment", "(block_comment) @comment"]
    );
    assert_eq!(
        configs.get("python").unwrap().comment_queries,
        vec![
            "(comment) @comment",
            "(module . (expression_statement (string) @comment))",
            "(class_definition body: (block . (expression_statement (string) @comment)))",
            "(function_definition body: (block . (expression_statement (string) @comment)))",
        ]
    );
}

#[test]
fn format_is_table_or_json() {
    assert_eq!(cli("table", false).validate(), Ok(()));
    assert_eq!(cli("json", false).validate(), Ok(()));
    for format in ["", "Table", "JSON", "yaml", "table ", "jso"] {
        assert_eq!(
            cli(format, false).validate(),
            Err("Invalid format. Supported formats are 'table' and 'json'.".to_string())
        );
    }
}

#[test]
fn exit_code_tells_whether_there_are_warnings() {
    assert_eq!(cli("table", false).exit_code(0), 0);
    assert_eq!(cli("table", false).exit_code(1), 1);
    assert_eq!(cli("table", false).exit_code(250), 1);
    assert_eq!(cli("table", true).exit_code(0), 0);
    assert_eq!(cli("table", true).exit_code(7), 0);
}

#[test]
fn rule_scans_its_own_extensions_or_those_of_the_language() {
    let configs = get_language_configs().unwrap();
    let config = Config {
        rules: vec![
            Rule { paths: vec!["src".to_string()], language: "cpp".to_string(), file_extensions: None },
            Rule {
                paths: vec!["lib".to_string()],
                language: "cpp".to_string(),
                file_extensions: Some(vec!["ipp".to_string(), "h".to_string()]),
            },
            Rule { paths: vec![], language: "cpp".to_string(), file_extensions: Some(vec![]) },
        ],
        parameters: Parameters { editor_url: None },
    };
    let cpp = configs.get("cpp").unwrap();
    assert_eq!(
        config.rules[0].effective_extensions(cpp),
        vec!["cpp", "hpp", "cc", "hh", "cxx", "hxx"]
    );
    assert_eq!(config.rules[1].effective_extensions(cpp), vec!["ipp", "h"]);
    assert!(config.rules[2].effective_extensions(cpp).is_empty());
}

#[test]
fn extension_is_looked_up_exactly() {
    let extensions = vec!["rs".to_string(), "toml".to_string()];
    assert!(has_extension(&extensions, "rs"));
    assert!(has_extension(&extensions, "toml"));
    assert!(!has_extension(&extensions, "RS"));
    assert!(!has_extension(&extensions, "r"));
    assert!(!has_extension(&extensions, ""));
    assert!(!has_extension(&[], "rs"));
}

#[test]
fn errors_tell_what_failed() {
    let unsupported = AnalysisError::UnsupportedLanguage { language: "cobol".to_string() };
    assert_eq!(unsupported.message(), "Unsupported language: cobol");
    assert_eq!(AnalysisError::unsupported("c++"), AnalysisError::UnsupportedLanguage {
        language: "c++".to_string(),
    });
    assert_eq!(AnalysisError::unsupported("").message(), "Unsupported language: ");
    assert_eq!(AnalysisError::ParseFailure.message(), "Failed to parse file");
    assert_eq!(AnalysisError::Io.message(), "Failed to read file as UTF-8 text");
    assert_eq!(
        AnalysisError::RegistryBuild.message(),
        "Failed to build the language registry"
    );
    assert!(AnalysisError::RegistryBuild.fatal());
    assert!(!unsupported.fatal());
    assert!(!AnalysisError::ParseFailure.fatal());
    assert!(!AnalysisError::Io.fatal());
}

#[test]
fn query_that_does_not_compile_fails_the_registry() {
    let mut configs = get_language_configs().unwrap();
    let grammar = configs.get("go").unwrap().language.clone();
    assert_eq!(
        insert_language_config(
            &mut configs,
            "golang",
            grammar.clone(),
            vec!["go"],
            vec!["(comment) @comment", "(no_such_node) @comment"],
        ),
        Err(AnalysisError::RegistryBuild)
    );
    assert_eq!(configs.len(), 13);
    assert!(configs.get("golang").is_none());
    assert_eq!(
        insert_language_config(&mut configs, "golang", grammar.clone(), vec!["go"], vec!["(comment"]),
        Err(AnalysisError::RegistryBuild)
    );
    assert_eq!(
        insert_language_config(&mut configs, "golang", grammar, vec!["go"], vec!["(comment) @c"]),
        Ok(())
    );
    assert_eq!(configs.len(), 14);
    assert_eq!(configs.get("golang").unwrap().compiled_queries.len(), 1);
}

#[test]
fn language_is_registered_only_with_compiled_queries() {
    let mut configs = get_language_configs().unwrap();
    let grammar = configs.get("css").unwrap().language.clone();
    assert_eq!(
        insert_compiled(&mut configs, "style", grammar.clone(), vec!["scss"], vec!["(comment)"], None),
        Err(AnalysisError::RegistryBuild)
    );
    assert_eq!(configs.len(), 13);
    assert!(configs.get("style").is_none());
    assert_eq!(
        insert_compiled(&mut configs, "style", grammar, vec!["scss"], vec![], Some(Vec::new())),
        Ok(())
    );
    assert_eq!(configs.len(), 14);
    let style = configs.get("style").unwrap();
    assert_eq!(style.file_extensions, vec!["scss"]);
    assert!(style.comment_queries.is_empty());
    assert!(style.compiled_queries.is_empty());
}

#[test]
fn language_without_queries_is_always_registered() {
    let mut configs = get_language_configs().unwrap();
    let grammar = configs.get("ruby").unwrap().language.clone();
    assert_eq!(insert_language_config(&mut configs, "plain", grammar, vec!["txt"], vec![]), Ok(()));
    let plain = configs.get("plain").unwrap();
    assert_eq!(plain.file_extensions, vec!["txt"]);
    assert!(plain.comment_queries.is_empty());
    assert!(plain.compiled_queries.is_empty());
    assert_eq!(configs.len(), 14);
}
