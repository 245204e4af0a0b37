use stardew_save::document::{Attribute, Document, Node};
use stardew_save::failure::{Cause, DecodeError};
use stardew_save::fields::{get, get_bool, get_string, parse, FieldMap};
use stardew_save::number::Fault;
use stardew_save::stardew::Season;

fn fields_doc(xml: &str) -> Document {
    Document::parse(xml).unwrap()
}

fn fields_element(parent: usize, tag: &str, text: Option<&str>) -> Node {
    Node {
        parent: Some(parent),
        element: true,
        tag: tag.to_string(),
        text: text.map(|t| t.to_string()),
        attributes: Vec::new(),
    }
}

fn fields_root() -> Node {
    Node { parent: None, element: false, tag: String::new(), text: None, attributes: Vec::new() }
}

fn fields_top(cause: Cause) -> DecodeError {
    DecodeError { path: Vec::new(), cause }
}

#[test]
fn parse_copies_out_the_nodes_of_the_tree() {
    let doc = fields_doc("<a x='1'><b>text</b><!-- note --><c/></a>");
    assert_eq!(doc.nodes.len(), 6);
    assert_eq!(doc.nodes[0], fields_root());
    assert_eq!(
        doc.nodes[1],
        Node {
            parent: Some(0),
            element: true,
            tag: "a".to_string(),
            text: None,
            attributes: vec![Attribute {
                namespace: None,
                name: "x".to_string(),
                value: "1".to_string(),
            }],
        }
    );
    assert_eq!(doc.nodes[2], fields_element(1, "b", Some("text")));
    assert_eq!(doc.nodes[3].parent, Some(2));
    assert!(!doc.nodes[3].element);
    assert_eq!(doc.nodes[3].text, Some("text".to_string()));
    assert!(!doc.nodes[4].element);
    assert_eq!(doc.nodes[4].parent, Some(1));
    assert_eq!(doc.nodes[5], fields_element(1, "c", None));
}

#[test]
fn parse_resolves_attribute_namespaces() {
    let doc = fields_doc("<a xmlns:n='http://example.org/ns' n:k='v' k='w'/>");
    assert_eq!(doc.attribute(1, "http://example.org/ns", "k"), Some("v"));
    assert_eq!(doc.attribute(1, "http://example.org/other", "k"), None);
    assert_eq!(doc.attribute(1, "http://example.org/ns", "j"), None);
    assert_eq!(doc.attribute(7, "http://example.org/ns", "k"), None);
}

#[test]
fn parse_rejects_text_that_is_no_document() {
    assert_eq!(Document::parse("<a><b></a>"), Err(fields_top(Cause::DocumentMalformed)));
    assert_eq!(Document::parse(""), Err(fields_top(Cause::DocumentMalformed)));
    assert_eq!(Document::parse("plain text"), Err(fields_top(Cause::DocumentMalformed)));
}

#[test]
fn children_are_the_element_children_in_document_order() {
    let doc = fields_doc("<a>lead<b/>mid<c><d/></c><!-- x --><e/></a>");
    assert_eq!(doc.root_element(), Some(1));
    let kids = doc.children(1);
    assert_eq!(kids.len(), 3);
    assert_eq!(doc.nodes[kids[0]].tag, "b");
    assert_eq!(doc.nodes[kids[1]].tag, "c");
    assert_eq!(doc.nodes[kids[2]].tag, "e");
    assert_eq!(doc.first_child(1), Some(kids[0]));
    assert_eq!(doc.children(kids[0]), Vec::<usize>::new());
    assert_eq!(doc.first_child(kids[0]), None);
    assert_eq!(doc.children(99), Vec::<usize>::new());
}

#[test]
fn element_text_is_the_text_it_starts_with() {
    let doc = fields_doc("<a><b>one<i/>two</b><c><i/>tail</c><d></d></a>");
    let map = FieldMap::new(&doc, 1);
    assert_eq!(get_string(&map, "b"), Ok("one".to_string()));
    assert_eq!(get_string(&map, "c"), Err(fields_top(Cause::EmptyField("c".to_string()))));
    assert_eq!(get_string(&map, "d"), Err(fields_top(Cause::EmptyField("d".to_string()))));
}

#[test]
fn two_children_with_different_tags_are_both_found() {
    let doc = fields_doc("<r><tagA>1</tagA><tagB>2</tagB></r>");
    let map = FieldMap::new(&doc, 1);
    let a = get(&map, "tagA").unwrap();
    let b = get(&map, "tagB").unwrap();
    assert_ne!(a, b);
    assert_eq!(doc.nodes[a].text, Some("1".to_string()));
    assert_eq!(doc.nodes[b].text, Some("2".to_string()));
}

#[test]
fn of_two_children_with_one_tag_the_later_is_the_field() {
    let doc = fields_doc("<r><x>first</x><x>second</x></r>");
    let map = FieldMap::new(&doc, 1);
    let kids = doc.children(1);
    assert_eq!(kids.len(), 2);
    assert_eq!(get(&map, "x"), Ok(kids[1]));
    assert_eq!(get_string(&map, "x"), Ok("second".to_string()));
}

#[test]
fn later_child_wins_in_a_document_written_by_hand() {
    let doc = Document {
        nodes: vec![
            fields_root(),
            fields_element(0, "r", None),
            fields_element(1, "x", Some("first")),
            fields_element(1, "y", Some("other")),
            fields_element(1, "x", Some("second")),
        ],
    };
    let map = FieldMap::new(&doc, 1);
    assert_eq!(get(&map, "x"), Ok(4));
    assert_eq!(get(&map, "y"), Ok(3));
}

#[test]
fn field_map_of_an_element_without_children_is_empty() {
    let doc = fields_doc("<r>only text</r>");
    let map = FieldMap::new(&doc, 1);
    assert_eq!(get(&map, "r"), Err(fields_top(Cause::MissingField("r".to_string()))));
    assert_eq!(get(&map, ""), Err(fields_top(Cause::MissingField(String::new()))));
}

#[test]
fn field_map_holds_direct_children_only() {
    let doc = fields_doc("<r><a><deep>1</deep></a></r>");
    let map = FieldMap::new(&doc, 1);
    assert!(get(&map, "a").is_ok());
    assert_eq!(get(&map, "deep"), Err(fields_top(Cause::MissingField("deep".to_string()))));
    let inner = FieldMap::new(&doc, get(&map, "a").unwrap());
    assert_eq!(get_string(&inner, "deep"), Ok("1".to_string()));
    assert_eq!(inner.document().nodes.len(), doc.nodes.len());
}

#[test]
fn get_fails_on_a_missing_field() {
    let doc = fields_doc("<r><a>1</a></r>");
    let map = FieldMap::new(&doc, 1);
    assert_eq!(get(&map, "b"), Err(fields_top(Cause::MissingField("b".to_string()))));
    assert_eq!(get_string(&map, "b"), Err(fields_top(Cause::MissingField("b".to_string()))));
    assert_eq!(get_bool(&map, "b"), Err(fields_top(Cause::MissingField("b".to_string()))));
    assert_eq!(parse::<u64>(&map, "b"), Err(fields_top(Cause::MissingField("b".to_string()))));
}

#[test]
fn get_string_fails_on_a_field_without_content() {
    let doc = fields_doc("<r><a/><b></b></r>");
    let map = FieldMap::new(&doc, 1);
    assert_eq!(get_string(&map, "a"), Err(fields_top(Cause::EmptyField("a".to_string()))));
    assert_eq!(get_string(&map, "b"), Err(fields_top(Cause::EmptyField("b".to_string()))));
}

#[test]
fn get_string_fails_on_text_without_characters() {
    let doc = Document {
        nodes: vec![fields_root(), fields_element(0, "r", None), fields_element(1, "a", Some(""))],
    };
    let map = FieldMap::new(&doc, 1);
    assert_eq!(get_string(&map, "a"), Err(fields_top(Cause::EmptyField("a".to_string()))));
}

#[test]
fn get_bool_is_true_for_exactly_true() {
    let doc = fields_doc(
        "<r><a>true</a><b>True</b><c>1</c><d>false</d><e> true</e><f>TRUE</f><g>truee</g></r>",
    );
    let map = FieldMap::new(&doc, 1);
    assert_eq!(get_bool(&map, "a"), Ok(true));
    assert_eq!(get_bool(&map, "b"), Ok(false));
    assert_eq!(get_bool(&map, "c"), Ok(false));
    assert_eq!(get_bool(&map, "d"), Ok(false));
    assert_eq!(get_bool(&map, "e"), Ok(false));
    assert_eq!(get_bool(&map, "f"), Ok(false));
    assert_eq!(get_bool(&map, "g"), Ok(false));
}

#[test]
fn get_bool_is_false_for_text_without_characters() {
    let doc = Document {
        nodes: vec![fields_root(), fields_element(0, "r", None), fields_element(1, "a", Some(""))],
    };
    let map = FieldMap::new(&doc, 1);
    assert_eq!(get_bool(&map, "a"), Ok(false));
}

#[test]
fn get_bool_fails_on_a_field_without_content() {
    let doc = fields_doc("<r><a/></r>");
    let map = FieldMap::new(&doc, 1);
    assert_eq!(get_bool(&map, "a"), Err(fields_top(Cause::EmptyField("a".to_string()))));
}

#[test]
fn parse_reads_a_number() {
    let doc = fields_doc("<r><n>42</n></r>");
    let map = FieldMap::new(&doc, 1);
    assert_eq!(parse::<u64>(&map, "n"), Ok(42u64));
    assert_eq!(parse::<u8>(&map, "n"), Ok(42u8));
    assert_eq!(parse::<i32>(&map, "n"), Ok(42i32));
    assert_eq!(parse::<String>(&map, "n"), Ok("42".to_string()));
}

#[test]
fn parse_names_the_field_and_the_text_that_is_no_number() {
    let doc = fields_doc("<r><n>abc</n></r>");
    let map = FieldMap::new(&doc, 1);
    assert_eq!(
        parse::<u64>(&map, "n"),
        Err(fields_top(Cause::InvalidField(
            "n".to_string(),
            "abc".to_string(),
            Fault::InvalidDigit
        )))
    );
}

#[test]
fn parse_fails_on_a_field_without_content() {
    let doc = fields_doc("<r><n/></r>");
    let map = FieldMap::new(&doc, 1);
    assert_eq!(parse::<u64>(&map, "n"), Err(fields_top(Cause::EmptyField("n".to_string()))));
}

#[test]
fn parse_tells_a_number_out_of_range() {
    let doc = fields_doc("<r><n>256</n><m>-129</m></r>");
    let map = FieldMap::new(&doc, 1);
    assert_eq!(
        parse::<u8>(&map, "n"),
        Err(fields_top(Cause::InvalidField(
            "n".to_string(),
            "256".to_string(),
            Fault::PosOverflow
        )))
    );
    assert_eq!(
        parse::<i8>(&map, "m"),
        Err(fields_top(Cause::InvalidField(
            "m".to_string(),
            "-129".to_string(),
            Fault::NegOverflow
        )))
    );
    assert_eq!(parse::<u16>(&map, "n"), Ok(256u16));
}

#[test]
fn parse_reads_a_season() {
    let doc = fields_doc("<r><s>autumn</s><t>Autumn</t></r>");
    let map = FieldMap::new(&doc, 1);
    assert_eq!(parse::<Season>(&map, "s"), Ok(Season::Autumn));
    assert_eq!(
        parse::<Season>(&map, "t"),
        Err(fields_top(Cause::InvalidField(
            "t".to_string(),
            "Autumn".to_string(),
            Fault::UnknownSeason
        )))
    );
}
