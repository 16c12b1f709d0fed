//! The syntax tree provider: a reusable parser holding the HTML grammar,
//! and point-to-node resolution on the trees it produces. Both lean on the
//! tree-sitter library, which verification reaches only through the trusted
//! items below.

use vstd::prelude::*;

verus! {

#[verifier::external_type_specification]
#[verifier::external_body]
pub struct ExTree(tree_sitter::Tree);

#[verifier::external_type_specification]
#[verifier::external_body]
pub struct ExParser(tree_sitter::Parser);

/// The source bytes that a syntax tree was parsed from: every node range in
/// the tree indexes into these bytes.
pub uninterp spec fn tree_source(tree: tree_sitter::Tree) -> Seq<u8>;

/// Whether a tree was produced by the HTML grammar that this crate loads.
pub uninterp spec fn html_tree(tree: tree_sitter::Tree) -> bool;

/// The byte range of the smallest named node of the HTML syntax tree of
/// `text` that spans the zero-based `(line, character)` point, if any.
/// Parsing is deterministic in the text, so this is a function of the source
/// bytes and the point alone.
pub uninterp spec fn span_at(text: Seq<u8>, line: u32, character: u32) -> Option<(usize, usize)>;

/// A reusable parser with the HTML grammar assigned. The only constructor is
/// `new`, so every value of this type carries the grammar; access must be
/// serialized, which `parse` taking `&mut self` enforces.
pub struct HtmlParser {
    parser: tree_sitter::Parser,
}

impl HtmlParser {
    /// Relies on tree_sitter::Parser::new and Parser::set_language with the
    /// grammar of tree_sitter_html::LANGUAGE. Returns None when the grammar
    /// cannot be assigned (a grammar version mismatch), the fatal startup
    /// error of the service.
    #[verifier::external_body]
    pub fn new() -> (r: Option<HtmlParser>) {
        let mut parser = tree_sitter::Parser::new();
        match parser.set_language(&tree_sitter_html::LANGUAGE.into()) {
            Ok(()) => Some(HtmlParser { parser }),
            Err(_) => None,
        }
    }

    /// Relies on tree_sitter::Parser::parse, which returns None only when no
    /// language is assigned; every `HtmlParser` has one, so a tree always
    /// comes back. The tree's node ranges index the given bytes, and parsing
    /// is deterministic in them. The byte length bound keeps the text within
    /// the 32-bit offsets that the parser works with.
    #[verifier::external_body]
    pub fn parse(&mut self, text: &Vec<u8>) -> (tree: tree_sitter::Tree)
        requires
            text@.len() < 4294967296,
        ensures
            html_tree(tree),
            tree_source(tree) == text@,
    {
        self.parser.parse(text.as_slice(), None).expect("a parser with a language assigned always yields a tree")
    }
}

/// Relies on Tree::root_node and Node::named_descendant_for_point_range: the
/// smallest named node spanning the point, handed out as its byte range
/// (Node::start_byte, Node::end_byte) so that no node outlives this call.
/// The resolution reads only the tree, and the tree stands for its source
/// bytes alone, which is what `span_at` names. A node's byte range always
/// lies within the source the tree was parsed from.
#[verifier::external_body]
pub(crate) fn tree_span_at(tree: &tree_sitter::Tree, line: u32, character: u32) -> (r: Option<(usize, usize)>)
    requires
        html_tree(*tree),
    ensures
        r == span_at(tree_source(*tree), line, character),
        r matches Some(sp) ==> sp.0 <= sp.1 <= tree_source(*tree).len(),
{
    let point = tree_sitter::Point::new(line as usize, character as usize);
    tree.root_node()
        .named_descendant_for_point_range(point, point)
        .map(|node| (node.start_byte(), node.end_byte()))
}

} // verus!
