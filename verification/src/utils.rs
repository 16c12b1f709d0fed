//! Documents and position resolution: one open document's snapshot, the
//! cursor coordinate type, the resolver from a position to the byte range of
//! the smallest named token under it, and extraction of a range's text.

use vstd::prelude::*;

use crate::tree::{html_tree, span_at, tree_source, tree_span_at};

verus! {

/// A zero-based editor cursor coordinate, translated verbatim into the
/// syntax tree's own zero-based point coordinates.
#[derive(Clone, Copy)]
pub struct Position {
    pub line: u32,
    pub character: u32,
}

/// One open document's snapshot: its concrete syntax tree and the source
/// bytes the tree was parsed from. The type invariant ties the two to the
/// same snapshot, so a tree is never read against another version's text.
pub struct Document {
    cst: tree_sitter::Tree,
    text: Vec<u8>,
}

impl View for Document {
    type V = Seq<u8>;

    closed spec fn view(&self) -> Seq<u8> {
        self.text@
    }
}

impl Document {
    #[verifier::type_invariant]
    spec fn snapshot_coherent(self) -> bool {
        html_tree(self.cst) && tree_source(self.cst) == self.text@
    }

    pub fn new(cst: tree_sitter::Tree, text: Vec<u8>) -> (r: Document)
        requires
            html_tree(cst),
            tree_source(cst) == text@,
        ensures
            r@ == text@,
    {
        Document { cst, text }
    }

    pub fn text(&self) -> (r: &Vec<u8>)
        ensures
            r@ == self@,
    {
        &self.text
    }
}

/// Resolves a cursor position to the byte range of the smallest named node
/// spanning it in the document's tree, or None when no named node spans it.
/// The range always lies within the document's text.
pub fn get_node_on_position(document: &Document, position: Position) -> (r: Option<(usize, usize)>)
    ensures
        r == span_at(document@, position.line, position.character),
        r matches Some(sp) ==> sp.0 <= sp.1 <= document@.len(),
{
    proof {
        use_type_invariant(&*document);
    }
    tree_span_at(&document.cst, position.line, position.character)
}

/// The text spanned by a node's byte range, read from the same source bytes
/// the range was recorded against: exactly `source@.subrange(start, end)`.
pub fn node_to_text(source: &Vec<u8>, start: usize, end: usize) -> (r: Vec<u8>)
    requires
        start <= end <= source@.len(),
    ensures
        r@ == source@.subrange(start as int, end as int),
{
    let mut out: Vec<u8> = Vec::new();
    let mut i: usize = start;
    while i < end
        invariant
            start <= i <= end <= source@.len(),
            out@ == source@.subrange(start as int, i as int),
        decreases end - i,
    {
        out.push(source[i]);
        proof {
            assert(source@.subrange(start as int, i + 1 as int) =~= source@.subrange(
                start as int,
                i as int,
            ).push(source@[i as int]));
        }
        i = i + 1;
    }
    out
}

/// Whether two byte strings hold the same bytes.
pub fn bytes_eq(a: &[u8], b: &[u8]) -> (r: bool)
    ensures
        r == (a@ == b@),
{
    if a.len() != b.len() {
        return false;
    }
    let mut i: usize = 0;
    while i < a.len()
        invariant
            i <= a@.len(),
            a@.len() == b@.len(),
            forall|j: int| 0 <= j < i ==> a@[j] == b@[j],
        decreases a@.len() - i,
    {
        if a[i] != b[i] {
            return false;
        }
        i = i + 1;
    }
    proof {
        assert(a@ =~= b@);
    }
    true
}

} // verus!
