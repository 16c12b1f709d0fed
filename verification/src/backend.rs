//! The hover service: the document lifecycle handlers and the hover query,
//! tying the parser, the document store, the position resolver and the
//! attribute catalog together. Abstractly the service is the map from open
//! document URIs to their source bytes; every answer it gives is a function
//! of that map and the queried position.

use vstd::prelude::*;

use crate::constants::{doc_for, docs_for_attribute_bytes, lemma_catalog_consistent,
    recognized_names};
use crate::store::DocumentStore;
use crate::tree::{span_at, HtmlParser};
use crate::utils::{get_node_on_position, node_to_text, Document, Position};

verus! {

/// The answer to one hover query. An unknown document is a request-level
/// error; a position without documentation is an empty result, not an error.
#[derive(Debug, PartialEq)]
pub enum HoverOutcome {
    UnknownDocument,
    Empty,
    Documentation(String),
}

/// The hover answer a document's source bytes and a position determine: the
/// documentation of the token under the position, if the position resolves
/// to a token that reads as a recognized attribute name.
pub open spec fn hover_spec(text: Seq<u8>, position: Position) -> Option<Seq<char>> {
    match span_at(text, position.line, position.character) {
        Some(sp) => doc_for(text.subrange(sp.0 as int, sp.1 as int)),
        None => None,
    }
}

/// The service: the shared parser and the document table. The lifecycle is
/// open, any number of changes, close; closing reclaims the entry, so a
/// hover after a close reports the unknown-document condition again.
pub struct Backend {
    parser: HtmlParser,
    documents: DocumentStore,
}

impl View for Backend {
    type V = Map<Seq<u8>, Seq<u8>>;

    closed spec fn view(&self) -> Map<Seq<u8>, Seq<u8>> {
        self.documents@
    }
}

impl Backend {
    pub fn new(parser: HtmlParser, documents: DocumentStore) -> (r: Backend)
        ensures
            r@ == documents@,
    {
        Backend { parser, documents }
    }

    /// A document was opened: parse its text and store the snapshot.
    pub fn did_open(&mut self, uri: Vec<u8>, text: Vec<u8>)
        requires
            text@.len() < 4294967296,
        ensures
            final(self)@ == old(self)@.insert(uri@, text@),
    {
        let tree = self.parser.parse(&text);
        let document = Document::new(tree, text);
        self.documents.put(uri, document);
    }

    /// A document changed: re-parse the full replacement text and replace
    /// the snapshot wholesale.
    pub fn did_change(&mut self, uri: Vec<u8>, text: Vec<u8>)
        requires
            text@.len() < 4294967296,
        ensures
            final(self)@ == old(self)@.insert(uri@, text@),
    {
        self.did_open(uri, text);
    }

    /// A document was closed: reclaim its entry. Closing a document that
    /// was never opened changes nothing.
    pub fn did_close(&mut self, uri: &Vec<u8>)
        ensures
            final(self)@ == old(self)@.remove(uri@),
    {
        self.documents.remove(uri);
    }

    /// Answers one hover query from the stored snapshot for `uri`.
    pub fn hover(&self, uri: &Vec<u8>, position: Position) -> (r: HoverOutcome)
        ensures
            match r {
                HoverOutcome::UnknownDocument => !self@.contains_key(uri@),
                HoverOutcome::Empty => self@.contains_key(uri@) && hover_spec(
                    self@[uri@],
                    position,
                ) is None,
                HoverOutcome::Documentation(d) => self@.contains_key(uri@) && hover_spec(
                    self@[uri@],
                    position,
                ) == Some(d@),
            },
    {
        match self.documents.get(uri) {
            None => HoverOutcome::UnknownDocument,
            Some(document) => {
                match get_node_on_position(document, position) {
                    None => HoverOutcome::Empty,
                    Some(sp) => {
                        let node_as_text = node_to_text(document.text(), sp.0, sp.1);
                        match docs_for_attribute_bytes(node_as_text.as_slice()) {
                            None => HoverOutcome::Empty,
                            Some(docs) => HoverOutcome::Documentation(docs.desc.to_owned()),
                        }
                    },
                }
            },
        }
    }
}

/// Hovering at a position whose resolved token reads as a recognized
/// attribute name reports exactly that name's catalog documentation,
/// and some documentation always exists for such a name.
pub proof fn lemma_hover_reports_recognized_attribute(
    text: Seq<u8>,
    position: Position,
    sp: (usize, usize),
    name: Seq<u8>,
)
    requires
        span_at(text, position.line, position.character) == Some(sp),
        text.subrange(sp.0 as int, sp.1 as int) == name,
        recognized_names().contains(name),
    ensures
        hover_spec(text, position) == doc_for(name),
        doc_for(name) is Some,
{
    lemma_catalog_consistent();
    let i = choose|i: int|
        0 <= i < recognized_names().len() && recognized_names()[i] == name;
    assert(doc_for(recognized_names()[i]) is Some);
}

/// A position that resolves to no named node yields an empty hover answer
/// for an open document, never an error.
pub proof fn lemma_unresolved_position_hovers_empty(text: Seq<u8>, position: Position)
    requires
        span_at(text, position.line, position.character) is None,
    ensures
        hover_spec(text, position) is None,
{
}

/// Replacing a document twice with identical text leaves the service in
/// exactly the state one replacement gives; since every answer is a
/// function of that state, the two are behaviorally indistinguishable.
pub proof fn lemma_did_change_idempotent(
    documents: Map<Seq<u8>, Seq<u8>>,
    uri: Seq<u8>,
    text: Seq<u8>,
)
    ensures
        documents.insert(uri, text).insert(uri, text) == documents.insert(uri, text),
{
    assert(documents.insert(uri, text).insert(uri, text) =~= documents.insert(uri, text));
}

} // verus!
