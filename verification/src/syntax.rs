//! The syntax trees of `tree_sitter`, as far as the analyzer needs them.
//!
//! A grammar, a parser, a tree and a compiled query are opaque here. What
//! tree-sitter makes of them is a function of what it is given, and has a name
//! each: whether a grammar fits the parser, which grammar a parser holds,
//! what a pattern compiles to, which tree a text parses to, and which nodes a
//! query captures. What the analyzer reads of a match is where each captured
//! node stands in the source: a `NodeSpan`.

use streaming_iterator::StreamingIterator;
use tree_sitter::{Language, LanguageError, Parser, Query, QueryCursor, QueryError, Tree};
use vstd::prelude::*;

verus! {

#[verifier::external_type_specification]
#[verifier::external_body]
pub struct ExLanguage(tree_sitter::Language);

#[verifier::external_type_specification]
#[verifier::external_body]
pub struct ExParser(tree_sitter::Parser);

#[verifier::external_type_specification]
#[verifier::external_body]
pub struct ExTree(tree_sitter::Tree);

#[verifier::external_type_specification]
#[verifier::external_body]
pub struct ExQuery(tree_sitter::Query);

#[verifier::external_type_specification]
#[verifier::external_body]
pub struct ExLanguageError(tree_sitter::LanguageError);

#[verifier::external_type_specification]
#[verifier::external_body]
pub struct ExQueryError(tree_sitter::QueryError);

/// Where a captured syntax node stands in the source.
#[derive(Clone, Copy, Debug, PartialEq, Eq, Structural)]
pub struct NodeSpan {
    /// The byte offset at which the node starts.
    pub start_byte: usize,
    /// The byte offset at which the node ends.
    pub end_byte: usize,
    /// The row on which the node starts; the first row is 0.
    pub row: usize,
}

/// Whether `Parser::set_language` accepts the grammar: whether it was
/// generated for a version of the library that this one can read, and can be
/// parsed with.
pub uninterp spec fn grammar_fits(language: Language) -> bool;

/// The grammar that a parser holds, which is what `Parser::language` gives:
/// the one it was last given with success, and none before that.
pub uninterp spec fn parser_grammar(parser: Parser) -> Option<Language>;

/// What `Query::new` makes of the patterns of `source` for a grammar: the
/// compiled query, or none where they do not compile.
pub uninterp spec fn compiled(language: Language, source: Seq<char>) -> Option<Query>;

/// The tree that `Parser::parse` gives for the whole of `source`, with no
/// earlier tree to reuse, where the parser holds `grammar`.
pub uninterp spec fn parsed_tree(grammar: Option<Language>, source: Seq<u8>) -> Option<Tree>;

/// What a fresh `QueryCursor` finds when it runs `query` over the whole of
/// `tree`, with `source` as the text: for each match, in the order found, the
/// places of its captured nodes, in the order of the captures.
pub uninterp spec fn query_matches(query: Query, tree: Tree, source: Seq<u8>) -> Seq<Seq<NodeSpan>>;

/// The captures of each match, as sequences.
pub open spec fn match_spans(matches: Seq<Vec<NodeSpan>>) -> Seq<Seq<NodeSpan>> {
    matches.map_values(|captures: Vec<NodeSpan>| captures@)
}

/// `Parser::new` makes a parser that has no language yet.
pub assume_specification[ Parser::new ]() -> (parser: Parser)
    ensures
        parser_grammar(parser) is None,
;

/// `Parser::set_language` gives the parser a grammar, or refuses one that was
/// generated for another version of the library or cannot be parsed with.
/// Which it does depends on the grammar alone. A parser that refuses keeps
/// what it held.
pub assume_specification[ Parser::set_language ](
    parser: &mut Parser,
    language: &Language,
) -> (r: Result<(), LanguageError>)
    ensures
        r is Ok <==> grammar_fits(*language),
        parser_grammar(*final(parser)) == if grammar_fits(*language) {
            Some(*language)
        } else {
            parser_grammar(*old(parser))
        },
;

/// `Query::new` compiles the patterns of `source` against a grammar, or says
/// why it cannot.
pub assume_specification[ Query::new ](language: &Language, source: &str) -> (r: Result<
    Query,
    QueryError,
>)
    ensures
        match r {
            Ok(query) => compiled(*language, source@) == Some(query),
            Err(_) => compiled(*language, source@) is None,
        },
;

/// `Parser::parse` on the whole text, with no earlier tree to reuse. The
/// parsers of this crate are as `Parser::new` makes them and are given
/// nothing but grammars, so the tree depends on the grammar that the parser
/// holds and on the text alone. The parser keeps its grammar.
#[verifier::external_body]
pub(crate) fn parse_source(parser: &mut Parser, source: &[u8]) -> (r: Option<Tree>)
    ensures
        r == parsed_tree(parser_grammar(*old(parser)), source@),
        parser_grammar(*final(parser)) == parser_grammar(*old(parser)),
{
    parser.parse(source, None)
}

/// Runs `query` with a fresh `QueryCursor` over the whole tree
/// (`QueryCursor::matches` from `Tree::root_node`) and hands out, for each
/// match that `StreamingIterator::next` gives, in that order, the places of
/// its captured nodes in the order of `QueryMatch::captures`:
/// `Node::start_byte`, `Node::end_byte` and the row of `Node::start_position`.
/// The source has to be the text that the tree was parsed from: a query with
/// a condition on the text of a node reads the source at the node's offsets.
#[verifier::external_body]
pub(crate) fn run_query(query: &Query, tree: &Tree, source: &[u8]) -> (found: Vec<Vec<NodeSpan>>)
    requires
        exists|grammar: Option<Language>|
            #![trigger parsed_tree(grammar, source@)]
            parsed_tree(grammar, source@) == Some(*tree),
    ensures
        match_spans(found@) == query_matches(*query, *tree, source@),
{
    let mut cursor = QueryCursor::new();
    let mut matches = cursor.matches(query, tree.root_node(), source);
    let mut found = Vec::new();
    while let Some(m) = matches.next() {
        found.push(m.captures().iter().map(|c| NodeSpan {
            start_byte: c.node.start_byte(),
            end_byte: c.node.end_byte(),
            row: c.node.start_position().row,
        }).collect());
    }
    found
}

} // verus!
