//! The attribute catalog: the fixed set of recognized htmx attribute names
//! and their markdown documentation. The constants below are the single
//! source of truth; the lookup function, the name list and the consistency
//! lemma are all proved against them, so the recognized names and the
//! documented names cannot drift apart.

use vstd::prelude::*;
use vstd::string::StringSliceAdditionalSpecFns;
use vstd::utf8::encode_utf8_decode_utf8;

verus! {

pub const HX_POST_NAME: &'static str = "hx-post";

pub const HX_POST_DOC: &'static str = "The `hx-post` attribute issues a POST request to the given URL and swaps the response into the DOM.";

pub const HX_GET_NAME: &'static str = "hx-get";

pub const HX_GET_DOC: &'static str = "The `hx-get` attribute issues a GET request to the given URL and swaps the response into the DOM.";

pub const HX_PATCH_NAME: &'static str = "hx-patch";

pub const HX_PATCH_DOC: &'static str = "The `hx-patch` attribute issues a PATCH request to the given URL and swaps the response into the DOM.";

pub const HX_DELETE_NAME: &'static str = "hx-delete";

pub const HX_DELETE_DOC: &'static str = "The `hx-delete` attribute issues a DELETE request to the given URL and swaps the response into the DOM.";

pub const HX_PUT_NAME: &'static str = "hx-put";

pub const HX_PUT_DOC: &'static str = "The `hx-put` attribute issues a PUT request to the given URL and swaps the response into the DOM.";

pub const HX_BOOST_NAME: &'static str = "hx-boost";

pub const HX_BOOST_DOC: &'static str = "The `hx-boost` attribute turns anchors and forms into AJAX requests that target the document body.";

pub const HX_CONFIRM_NAME: &'static str = "hx-confirm";

pub const HX_CONFIRM_DOC: &'static str = "The `hx-confirm` attribute shows a confirmation dialog with the given message before the request is issued.";

pub const HX_DISABLE_NAME: &'static str = "hx-disable";

pub const HX_DISABLE_DOC: &'static str = "The `hx-disable` attribute disables htmx processing for the element and its children.";

pub const HX_HEADERS_NAME: &'static str = "hx-headers";

pub const HX_HEADERS_DOC: &'static str = "The `hx-headers` attribute adds the given headers, written as a JSON object, to the request.";

/// One catalog entry: a recognized attribute name with its documentation.
#[derive(Clone, Copy, Debug)]
pub struct HxCompletion {
    pub name: &'static str,
    pub desc: &'static str,
}

/// The documentation for a token's bytes: Some exactly when the bytes read
/// as a recognized attribute name.
pub open spec fn doc_for(name: Seq<u8>) -> Option<Seq<char>> {
    if name == HX_POST_NAME.spec_bytes() {
        Some(HX_POST_DOC@)
    } else if name == HX_GET_NAME.spec_bytes() {
        Some(HX_GET_DOC@)
    } else if name == HX_PATCH_NAME.spec_bytes() {
        Some(HX_PATCH_DOC@)
    } else if name == HX_DELETE_NAME.spec_bytes() {
        Some(HX_DELETE_DOC@)
    } else if name == HX_PUT_NAME.spec_bytes() {
        Some(HX_PUT_DOC@)
    } else if name == HX_BOOST_NAME.spec_bytes() {
        Some(HX_BOOST_DOC@)
    } else if name == HX_CONFIRM_NAME.spec_bytes() {
        Some(HX_CONFIRM_DOC@)
    } else if name == HX_DISABLE_NAME.spec_bytes() {
        Some(HX_DISABLE_DOC@)
    } else if name == HX_HEADERS_NAME.spec_bytes() {
        Some(HX_HEADERS_DOC@)
    } else {
        None
    }
}

/// The recognized attribute names, as byte strings.
pub open spec fn recognized_names() -> Seq<Seq<u8>> {
    seq![
        HX_POST_NAME.spec_bytes(),
        HX_GET_NAME.spec_bytes(),
        HX_PATCH_NAME.spec_bytes(),
        HX_DELETE_NAME.spec_bytes(),
        HX_PUT_NAME.spec_bytes(),
        HX_BOOST_NAME.spec_bytes(),
        HX_CONFIRM_NAME.spec_bytes(),
        HX_DISABLE_NAME.spec_bytes(),
        HX_HEADERS_NAME.spec_bytes(),
    ]
}

/// Looks an attribute's documentation up from the token's bytes.
pub fn docs_for_attribute_bytes(name: &[u8]) -> (r: Option<HxCompletion>)
    ensures
        match r {
            Some(e) => doc_for(name@) == Some(e.desc@) && e.name.spec_bytes() == name@,
            None => doc_for(name@) is None,
        },
{
    if crate::utils::bytes_eq(name, HX_POST_NAME.as_bytes()) {
        Some(HxCompletion { name: HX_POST_NAME, desc: HX_POST_DOC })
    } else if crate::utils::bytes_eq(name, HX_GET_NAME.as_bytes()) {
        Some(HxCompletion { name: HX_GET_NAME, desc: HX_GET_DOC })
    } else if crate::utils::bytes_eq(name, HX_PATCH_NAME.as_bytes()) {
        Some(HxCompletion { name: HX_PATCH_NAME, desc: HX_PATCH_DOC })
    } else if crate::utils::bytes_eq(name, HX_DELETE_NAME.as_bytes()) {
        Some(HxCompletion { name: HX_DELETE_NAME, desc: HX_DELETE_DOC })
    } else if crate::utils::bytes_eq(name, HX_PUT_NAME.as_bytes()) {
        Some(HxCompletion { name: HX_PUT_NAME, desc: HX_PUT_DOC })
    } else if crate::utils::bytes_eq(name, HX_BOOST_NAME.as_bytes()) {
        Some(HxCompletion { name: HX_BOOST_NAME, desc: HX_BOOST_DOC })
    } else if crate::utils::bytes_eq(name, HX_CONFIRM_NAME.as_bytes()) {
        Some(HxCompletion { name: HX_CONFIRM_NAME, desc: HX_CONFIRM_DOC })
    } else if crate::utils::bytes_eq(name, HX_DISABLE_NAME.as_bytes()) {
        Some(HxCompletion { name: HX_DISABLE_NAME, desc: HX_DISABLE_DOC })
    } else if crate::utils::bytes_eq(name, HX_HEADERS_NAME.as_bytes()) {
        Some(HxCompletion { name: HX_HEADERS_NAME, desc: HX_HEADERS_DOC })
    } else {
        None
    }
}

/// Looks an attribute's documentation up by its name.
pub fn get_docs_for_attribute(attribute: &str) -> (r: Option<HxCompletion>)
    ensures
        match r {
            Some(e) => doc_for(attribute.spec_bytes()) == Some(e.desc@) && e.name.spec_bytes()
                == attribute.spec_bytes(),
            None => doc_for(attribute.spec_bytes()) is None,
        },
{
    docs_for_attribute_bytes(attribute.as_bytes())
}

/// The catalog as a list of entries, in the order of `recognized_names`.
pub fn hx_tags() -> (r: Vec<HxCompletion>)
    ensures
        r@.len() == recognized_names().len(),
        forall|i: int|
            0 <= i < r@.len() ==> (#[trigger] r@[i]).name.spec_bytes() == recognized_names()[i]
                && doc_for(r@[i].name.spec_bytes()) == Some(r@[i].desc@),
{
    let mut r: Vec<HxCompletion> = Vec::new();
    r.push(HxCompletion { name: HX_POST_NAME, desc: HX_POST_DOC });
    r.push(HxCompletion { name: HX_GET_NAME, desc: HX_GET_DOC });
    r.push(HxCompletion { name: HX_PATCH_NAME, desc: HX_PATCH_DOC });
    r.push(HxCompletion { name: HX_DELETE_NAME, desc: HX_DELETE_DOC });
    r.push(HxCompletion { name: HX_PUT_NAME, desc: HX_PUT_DOC });
    r.push(HxCompletion { name: HX_BOOST_NAME, desc: HX_BOOST_DOC });
    r.push(HxCompletion { name: HX_CONFIRM_NAME, desc: HX_CONFIRM_DOC });
    r.push(HxCompletion { name: HX_DISABLE_NAME, desc: HX_DISABLE_DOC });
    r.push(HxCompletion { name: HX_HEADERS_NAME, desc: HX_HEADERS_DOC });
    proof {
        lemma_names_distinct();
        assert forall|i: int| 0 <= i < r@.len() implies (#[trigger] r@[i]).name.spec_bytes()
            == recognized_names()[i] && doc_for(r@[i].name.spec_bytes()) == Some(r@[i].desc@) by {
            if i == 0 {
                assert(r@[0].name == HX_POST_NAME);
                assert(r@[0].name.spec_bytes() =~= recognized_names()[0]);
                assert(doc_for(r@[0].name.spec_bytes()) == Some(r@[0].desc@));
            }
            else if i == 1 {
                assert(r@[1].name == HX_GET_NAME);
                assert(r@[1].name.spec_bytes() =~= recognized_names()[1]);
                assert(doc_for(r@[1].name.spec_bytes()) == Some(r@[1].desc@));
            }
            else if i == 2 {
                assert(r@[2].name == HX_PATCH_NAME);
                assert(r@[2].name.spec_bytes() =~= recognized_names()[2]);
                assert(doc_for(r@[2].name.spec_bytes()) == Some(r@[2].desc@));
            }
            else if i == 3 {
                assert(r@[3].name == HX_DELETE_NAME);
                assert(r@[3].name.spec_bytes() =~= recognized_names()[3]);
                assert(doc_for(r@[3].name.spec_bytes()) == Some(r@[3].desc@));
            }
            else if i == 4 {
                assert(r@[4].name == HX_PUT_NAME);
                assert(r@[4].name.spec_bytes() =~= recognized_names()[4]);
                assert(doc_for(r@[4].name.spec_bytes()) == Some(r@[4].desc@));
            }
            else if i == 5 {
                assert(r@[5].name == HX_BOOST_NAME);
                assert(r@[5].name.spec_bytes() =~= recognized_names()[5]);
                assert(doc_for(r@[5].name.spec_bytes()) == Some(r@[5].desc@));
            }
            else if i == 6 {
                assert(r@[6].name == HX_CONFIRM_NAME);
                assert(r@[6].name.spec_bytes() =~= recognized_names()[6]);
                assert(doc_for(r@[6].name.spec_bytes()) == Some(r@[6].desc@));
            }
            else if i == 7 {
                assert(r@[7].name == HX_DISABLE_NAME);
                assert(r@[7].name.spec_bytes() =~= recognized_names()[7]);
                assert(doc_for(r@[7].name.spec_bytes()) == Some(r@[7].desc@));
            }
            else {
                assert(r@[8].name == HX_HEADERS_NAME);
                assert(r@[8].name.spec_bytes() =~= recognized_names()[8]);
                assert(doc_for(r@[8].name.spec_bytes()) == Some(r@[8].desc@));
            }
        }
    }
    r
}

/// Two strings with different characters have different byte encodings,
/// because UTF-8 decoding inverts encoding.
proof fn lemma_bytes_of_distinct_strs(a: &str, b: &str)
    requires
        a@ != b@,
    ensures
        a.spec_bytes() != b.spec_bytes(),
{
    if a.spec_bytes() == b.spec_bytes() {
        encode_utf8_decode_utf8(a@);
        encode_utf8_decode_utf8(b@);
        assert(false);
    }
}

/// The recognized names are pairwise distinct.
proof fn lemma_names_distinct()
    ensures
        forall|i: int, j: int|
            0 <= i < recognized_names().len() && 0 <= j < recognized_names().len() && i != j
                ==> recognized_names()[i] != recognized_names()[j],
{
    reveal_strlit("hx-post");
    reveal_strlit("hx-get");
    reveal_strlit("hx-patch");
    reveal_strlit("hx-delete");
    reveal_strlit("hx-put");
    reveal_strlit("hx-boost");
    reveal_strlit("hx-confirm");
    reveal_strlit("hx-disable");
    reveal_strlit("hx-headers");
    assert(HX_GET_NAME@[3] != HX_PUT_NAME@[3]);
    assert(HX_PATCH_NAME@[3] != HX_BOOST_NAME@[3]);
    assert(HX_CONFIRM_NAME@[3] != HX_DISABLE_NAME@[3]);
    assert(HX_CONFIRM_NAME@[3] != HX_HEADERS_NAME@[3]);
    assert(HX_DISABLE_NAME@[3] != HX_HEADERS_NAME@[3]);
    assert forall|i: int, j: int|
        0 <= i < recognized_names().len() && 0 <= j < recognized_names().len() && i != j implies
        recognized_names()[i] != recognized_names()[j] by {
        let names = seq![
            HX_POST_NAME,
            HX_GET_NAME,
            HX_PATCH_NAME,
            HX_DELETE_NAME,
            HX_PUT_NAME,
            HX_BOOST_NAME,
            HX_CONFIRM_NAME,
            HX_DISABLE_NAME,
            HX_HEADERS_NAME,
        ];
        assert(recognized_names()[i] == names[i].spec_bytes());
        assert(recognized_names()[j] == names[j].spec_bytes());
        assert(names[i]@ != names[j]@);
        lemma_bytes_of_distinct_strs(names[i], names[j]);
    }
}

/// Catalog consistency: the recognized names are pairwise distinct, every
/// recognized name has documentation, and every documented name is
/// recognized. The name list and the lookup cannot drift apart.
pub proof fn lemma_catalog_consistent()
    ensures
        forall|i: int, j: int|
            0 <= i < recognized_names().len() && 0 <= j < recognized_names().len() && i != j
                ==> recognized_names()[i] != recognized_names()[j],
        forall|i: int|
            0 <= i < recognized_names().len() ==> doc_for(#[trigger] recognized_names()[i]) is Some,
        forall|name: Seq<u8>| #[trigger] doc_for(name) is Some ==> recognized_names().contains(name),
{
    lemma_names_distinct();
    assert forall|i: int| 0 <= i < recognized_names().len() implies doc_for(
        #[trigger] recognized_names()[i],
    ) is Some by {
        reveal_strlit("hx-post");
    }
    assert forall|name: Seq<u8>| #[trigger] doc_for(name) is Some implies
        recognized_names().contains(name) by {
        if name == HX_POST_NAME.spec_bytes() {
            assert(recognized_names()[0] == name);
        } else if name == HX_GET_NAME.spec_bytes() {
            assert(recognized_names()[1] == name);
        } else if name == HX_PATCH_NAME.spec_bytes() {
            assert(recognized_names()[2] == name);
        } else if name == HX_DELETE_NAME.spec_bytes() {
            assert(recognized_names()[3] == name);
        } else if name == HX_PUT_NAME.spec_bytes() {
            assert(recognized_names()[4] == name);
        } else if name == HX_BOOST_NAME.spec_bytes() {
            assert(recognized_names()[5] == name);
        } else if name == HX_CONFIRM_NAME.spec_bytes() {
            assert(recognized_names()[6] == name);
        } else if name == HX_DISABLE_NAME.spec_bytes() {
            assert(recognized_names()[7] == name);
        } else {
            assert(name == HX_HEADERS_NAME.spec_bytes());
            assert(recognized_names()[8] == name);
        }
    }
}

} // verus!
