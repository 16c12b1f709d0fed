use htmx_ls::backend::{Backend, HoverOutcome};
use htmx_ls::constants::get_docs_for_attribute;
use htmx_ls::store::DocumentStore;
use htmx_ls::tree::HtmlParser;
use htmx_ls::utils::{get_node_on_position, node_to_text, Document, Position};

const HTML_FILE: &str = r#"
        <!doctype html>
        <html lang="en">

        <head>
          <meta charset="UTF-8" />
          <meta name="viewport" content="width=device-width, initial-scale=1" />
          <script src="https://unpkg.com/htmx.org@1.9.10"
            integrity="sha384-D1Kt99CQMDuVetoL1lrYwg5t+9QdHe7NLX/SoJYkXDFfX37iInKRy5xLSi8nO7UC"
            crossorigin="anonymous"></script>
          <title>Htmx test</title>
        </head>

        <body>
            <div hx-post="test"></div>
        </body>

        </html>
    "#;

fn new_backend() -> Backend {
    let parser = HtmlParser::new().expect("Error loading html grammar.");
    Backend::new(parser, DocumentStore::new())
}

#[test]
fn get_node_on_position_works() {
    let mut html_parser = HtmlParser::new().expect("Error loading html grammar.");

    let text = HTML_FILE.as_bytes().to_vec();
    let cst = html_parser.parse(&text);

    let document = Document::new(cst, text);

    let (start, end) = get_node_on_position(
        &document,
        Position {
            line: 14,
            character: 17,
        },
    )
    .unwrap();

    assert_eq!(node_to_text(document.text(), start, end), "hx-post".as_bytes().to_vec());
}

#[test]
fn server_returns_correct_hover_information() {
    let mut backend = new_backend();
    let uri = "file:///tmp/index.html".as_bytes().to_vec();
    backend.did_open(uri.clone(), HTML_FILE.as_bytes().to_vec());

    let outcome = backend.hover(
        &uri,
        Position {
            line: 14,
            character: 17,
        },
    );

    let expected = get_docs_for_attribute("hx-post").unwrap().desc.to_string();
    assert_eq!(outcome, HoverOutcome::Documentation(expected));
}

#[test]
fn hover_inside_attribute_name_returns_documentation() {
    let mut backend = new_backend();
    let uri = "file:///a.html".as_bytes().to_vec();
    backend.did_open(uri.clone(), "<div hx-post=\"test\"></div>".as_bytes().to_vec());

    let outcome = backend.hover(
        &uri,
        Position {
            line: 0,
            character: 7,
        },
    );

    let expected = get_docs_for_attribute("hx-post").unwrap().desc.to_string();
    assert_eq!(outcome, HoverOutcome::Documentation(expected));
}

#[test]
fn hover_inside_attribute_value_is_empty() {
    let mut backend = new_backend();
    let uri = "file:///a.html".as_bytes().to_vec();
    backend.did_open(uri.clone(), "<div hx-post=\"test\"></div>".as_bytes().to_vec());

    let outcome = backend.hover(
        &uri,
        Position {
            line: 0,
            character: 15,
        },
    );

    assert_eq!(outcome, HoverOutcome::Empty);
}

#[test]
fn hover_unknown_document_reports_the_error() {
    let backend = new_backend();
    let uri = "file:///never-opened.html".as_bytes().to_vec();

    let outcome = backend.hover(
        &uri,
        Position {
            line: 0,
            character: 0,
        },
    );

    assert_eq!(outcome, HoverOutcome::UnknownDocument);
}

#[test]
fn hover_each_recognized_attribute_reports_its_entry() {
    for entry in htmx_ls::constants::hx_tags() {
        let mut backend = new_backend();
        let uri = "file:///a.html".as_bytes().to_vec();
        let text = format!("<div {}=\"x\"></div>", entry.name);
        backend.did_open(uri.clone(), text.into_bytes());

        let outcome = backend.hover(
            &uri,
            Position {
                line: 0,
                character: 6,
            },
        );

        assert_eq!(outcome, HoverOutcome::Documentation(entry.desc.to_string()));
    }
}

#[test]
fn hover_in_whitespace_between_tags_is_empty() {
    let mut backend = new_backend();
    let uri = "file:///a.html".as_bytes().to_vec();
    backend.did_open(
        uri.clone(),
        "<body>\n    <div></div>\n</body>".as_bytes().to_vec(),
    );

    let outcome = backend.hover(
        &uri,
        Position {
            line: 1,
            character: 1,
        },
    );

    assert_eq!(outcome, HoverOutcome::Empty);
}

#[test]
fn hover_on_empty_document_is_empty() {
    let mut backend = new_backend();
    let uri = "file:///empty.html".as_bytes().to_vec();
    backend.did_open(uri.clone(), Vec::new());

    let outcome = backend.hover(
        &uri,
        Position {
            line: 0,
            character: 0,
        },
    );

    assert_eq!(outcome, HoverOutcome::Empty);
}

#[test]
fn did_change_twice_with_identical_text_is_like_once() {
    let text = "<div hx-get=\"/x\"></div>";
    let uri = "file:///a.html".as_bytes().to_vec();

    let mut once = new_backend();
    once.did_open(uri.clone(), "<p></p>".as_bytes().to_vec());
    once.did_change(uri.clone(), text.as_bytes().to_vec());

    let mut twice = new_backend();
    twice.did_open(uri.clone(), "<p></p>".as_bytes().to_vec());
    twice.did_change(uri.clone(), text.as_bytes().to_vec());
    twice.did_change(uri.clone(), text.as_bytes().to_vec());

    for character in 0u32..23u32 {
        let position = Position { line: 0, character };
        assert_eq!(once.hover(&uri, position), twice.hover(&uri, position));
    }
    let expected = get_docs_for_attribute("hx-get").unwrap().desc.to_string();
    assert_eq!(
        twice.hover(&uri, Position { line: 0, character: 6 }),
        HoverOutcome::Documentation(expected)
    );
}

#[test]
fn closing_a_document_reclaims_its_entry() {
    let mut backend = new_backend();
    let uri = "file:///a.html".as_bytes().to_vec();
    backend.did_open(uri.clone(), "<div hx-post=\"test\"></div>".as_bytes().to_vec());

    let position = Position {
        line: 0,
        character: 7,
    };
    assert!(matches!(
        backend.hover(&uri, position),
        HoverOutcome::Documentation(_)
    ));

    backend.did_close(&uri);
    assert_eq!(backend.hover(&uri, position), HoverOutcome::UnknownDocument);
}

#[test]
fn closing_an_unopened_document_changes_nothing() {
    let mut backend = new_backend();
    let opened = "file:///kept.html".as_bytes().to_vec();
    let never_opened = "file:///other.html".as_bytes().to_vec();
    backend.did_open(opened.clone(), "<div hx-get=\"/x\"></div>".as_bytes().to_vec());

    backend.did_close(&never_opened);

    let position = Position {
        line: 0,
        character: 6,
    };
    assert!(matches!(
        backend.hover(&opened, position),
        HoverOutcome::Documentation(_)
    ));
}

#[test]
fn resolve_round_trip_extracts_the_token() {
    let mut html_parser = HtmlParser::new().expect("Error loading html grammar.");
    let text = "<div hx-get=\"/y\"></div>".as_bytes().to_vec();
    let cst = html_parser.parse(&text);
    let document = Document::new(cst, text);

    let (start, end) = get_node_on_position(
        &document,
        Position {
            line: 0,
            character: 6,
        },
    )
    .unwrap();

    assert_eq!(node_to_text(document.text(), start, end), "hx-get".as_bytes().to_vec());
}
