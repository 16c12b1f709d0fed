use htmx_ls::constants::{get_docs_for_attribute, hx_tags};

#[test]
fn every_recognized_name_has_exactly_one_entry() {
    let tags = hx_tags();
    assert_eq!(tags.len(), 9);
    for (i, entry) in tags.iter().enumerate() {
        for other in tags.iter().skip(i + 1) {
            assert_ne!(entry.name, other.name);
        }
        let found = get_docs_for_attribute(entry.name).unwrap();
        assert_eq!(found.name, entry.name);
        assert_eq!(found.desc, entry.desc);
    }
}

#[test]
fn unknown_attributes_have_no_docs() {
    assert!(get_docs_for_attribute("hx-unknown").is_none());
    assert!(get_docs_for_attribute("hx-tri,gger").is_none());
    assert!(get_docs_for_attribute("").is_none());
    assert!(get_docs_for_attribute("div").is_none());
}

#[test]
fn hx_post_documentation_names_the_request() {
    let entry = get_docs_for_attribute("hx-post").unwrap();
    assert_eq!(entry.name, "hx-post");
    assert!(entry.desc.contains("POST"));
}
