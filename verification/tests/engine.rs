use ctchi::nodes::Context;
use ctchi::nodes::ContextMap;
use ctchi::nodes::Loader;
use ctchi::nodes::ParseError;
use ctchi::nodes::RenderError;
use ctchi::nodes::TemplateNode;
use ctchi::parser::Content;
use ctchi::nodes::CtchiValue;
use ctchi::nodes::Html;
use ctchi::nodes::TemplateTag;
use ctchi::parser::parse;

fn empty_context() -> ContextMap {
    ContextMap::new()
}

fn empty_loader() -> Loader {
    Loader::new()
}

fn render_str(source: &str, context: &ContextMap, loader: &Loader) -> String {
    let tree = parse(source).expect("source should parse");
    ctchi::writer::write(&tree, context, loader).expect("tree should render")
}

#[test]
fn literal_source_round_trips() {
    let source = "just text, no tags at all";
    let mut context = ContextMap::new();
    context.insert("name".to_string(), Context::SingleValue("Bob".to_string()));
    context.insert("flag".to_string(), Context::BooleanValue(true));
    let out = render_str(source, &context, &empty_loader());
    assert_eq!(out, source);
}

#[test]
fn literal_source_with_inner_brackets_round_trips() {
    let source = "hello [world] [[x]] [if y]z[endif]";
    let out = render_str(source, &empty_context(), &empty_loader());
    assert_eq!(out, source);
}

#[test]
fn reparse_is_structurally_identical() {
    let source = "[template][for x in xs]a[[x]][endfor][endtemplate]";
    let first = parse(source).unwrap();
    let second = parse(source).unwrap();
    assert!(first.structural_eq(&second));
}

#[test]
fn different_sources_parse_to_different_trees() {
    let first = parse("[template]a[endtemplate]").unwrap();
    let second = parse("[template]b[endtemplate]").unwrap();
    assert!(!first.structural_eq(&second));
}

#[test]
fn value_substitution_with_binding() {
    let mut context = ContextMap::new();
    context.insert("name".to_string(), Context::SingleValue("Bob".to_string()));
    let out = render_str("[template][[name]][endtemplate]", &context, &empty_loader());
    assert_eq!(out, "Bob");
}

#[test]
fn value_substitution_without_binding_is_empty() {
    let out = render_str("[template][[name]][endtemplate]", &empty_context(), &empty_loader());
    assert_eq!(out, "");
}

#[test]
fn value_substitution_with_wrong_kind_is_empty() {
    let mut context = ContextMap::new();
    context.insert("name".to_string(), Context::BooleanValue(true));
    let out = render_str("[template][[name]][endtemplate]", &context, &empty_loader());
    assert_eq!(out, "");
}

#[test]
fn later_binding_shadows_earlier_one() {
    let mut context = ContextMap::new();
    context.insert("name".to_string(), Context::SingleValue("old".to_string()));
    context.insert("name".to_string(), Context::SingleValue("new".to_string()));
    let out = render_str("[template][[name]][endtemplate]", &context, &empty_loader());
    assert_eq!(out, "new");
}

#[test]
fn conditional_true_renders_children() {
    let mut context = ContextMap::new();
    context.insert("flag".to_string(), Context::BooleanValue(true));
    let out = render_str("[template][if flag]yes[endif][endtemplate]", &context, &empty_loader());
    assert_eq!(out, "yes");
}

#[test]
fn conditional_false_renders_nothing() {
    let mut context = ContextMap::new();
    context.insert("flag".to_string(), Context::BooleanValue(false));
    let out = render_str("[template][if flag]yes[endif][endtemplate]", &context, &empty_loader());
    assert_eq!(out, "");
}

#[test]
fn conditional_absent_renders_nothing() {
    let out = render_str(
        "[template][if flag]yes[endif][endtemplate]",
        &empty_context(),
        &empty_loader(),
    );
    assert_eq!(out, "");
}

#[test]
fn conditional_non_boolean_is_a_type_mismatch() {
    let mut context = ContextMap::new();
    context.insert("flag".to_string(), Context::SingleValue("yes".to_string()));
    let tree = parse("[template][if flag]yes[endif][endtemplate]").unwrap();
    match ctchi::writer::write(&tree, &context, &empty_loader()) {
        Err(RenderError::ContextTypeMismatch { name }) => assert_eq!(name, "flag"),
        other => panic!("expected a type mismatch, got {:?}", other),
    }
}

#[test]
fn loop_preserves_order_and_trailing_separator() {
    let mut context = ContextMap::new();
    context.insert(
        "nums".to_string(),
        Context::MultiValue(vec!["1".to_string(), "2".to_string(), "3".to_string()]),
    );
    let out = render_str(
        "[template][for n in nums][[n]],[endfor][endtemplate]",
        &context,
        &empty_loader(),
    );
    assert_eq!(out, "1,2,3,");
}

#[test]
fn loop_over_absent_collection_renders_nothing() {
    let out = render_str(
        "[template][for n in nums][[n]],[endfor][endtemplate]",
        &empty_context(),
        &empty_loader(),
    );
    assert_eq!(out, "");
}

#[test]
fn loop_over_empty_collection_renders_nothing() {
    let mut context = ContextMap::new();
    context.insert("nums".to_string(), Context::MultiValue(Vec::new()));
    let out = render_str(
        "[template][for n in nums][[n]],[endfor][endtemplate]",
        &context,
        &empty_loader(),
    );
    assert_eq!(out, "");
}

#[test]
fn loop_over_non_collection_is_a_type_mismatch() {
    let mut context = ContextMap::new();
    context.insert("nums".to_string(), Context::SingleValue("1".to_string()));
    let tree = parse("[template][for n in nums][[n]][endfor][endtemplate]").unwrap();
    match ctchi::writer::write(&tree, &context, &empty_loader()) {
        Err(RenderError::ContextTypeMismatch { name }) => assert_eq!(name, "nums"),
        other => panic!("expected a type mismatch, got {:?}", other),
    }
}

#[test]
fn loop_variable_shadows_outer_binding() {
    let mut context = ContextMap::new();
    context.insert("n".to_string(), Context::SingleValue("outer".to_string()));
    context.insert(
        "ns".to_string(),
        Context::MultiValue(vec!["a".to_string(), "b".to_string()]),
    );
    let out = render_str(
        "[template][for n in ns][[n]][endfor][[n]][endtemplate]",
        &context,
        &empty_loader(),
    );
    assert_eq!(out, "abouter");
}

#[test]
fn nested_blocks_render_in_document_order() {
    let mut context = ContextMap::new();
    context.insert("a".to_string(), Context::BooleanValue(true));
    context.insert(
        "ns".to_string(),
        Context::MultiValue(vec!["x".to_string(), "y".to_string()]),
    );
    let out = render_str(
        "[template][if a][for n in ns][[n]];[endfor][endif][endtemplate]",
        &context,
        &empty_loader(),
    );
    assert_eq!(out, "x;y;");
}

#[test]
fn unterminated_block_is_malformed() {
    match parse("[template][if flag]missing-end") {
        Err(ParseError::MalformedTemplate { .. }) => (),
        other => panic!("expected a malformed-template error, got {:?}", other),
    }
}

#[test]
fn wrong_closing_tag_is_malformed() {
    match parse("[template][if x]y[endfor][endtemplate]") {
        Err(ParseError::MalformedTemplate { offset }) => assert_eq!(offset, 17),
        other => panic!("expected a malformed-template error, got {:?}", other),
    }
}

#[test]
fn truncated_for_header_is_malformed() {
    match parse("[template][for x][endfor][endtemplate]") {
        Err(ParseError::MalformedTemplate { offset }) => assert_eq!(offset, 10),
        other => panic!("expected a malformed-template error, got {:?}", other),
    }
}

#[test]
fn unknown_tag_is_reported_with_its_offset() {
    match parse("[template][blah/][endtemplate]") {
        Err(ParseError::UnknownTag { offset }) => assert_eq!(offset, 10),
        other => panic!("expected an unknown-tag error, got {:?}", other),
    }
}

#[test]
fn empty_template_renders_nothing() {
    let out = render_str("[template][endtemplate]", &empty_context(), &empty_loader());
    assert_eq!(out, "");
}

#[test]
fn root_size_spans_the_whole_document() {
    let source = "[template]ab[endtemplate]";
    match parse(source).unwrap() {
        TemplateNode::CtchiTemplateTagNode(root) => {
            assert_eq!(root.size, source.chars().count());
            assert_eq!(root.children.len(), 1);
        }
        other => panic!("expected a template root, got {:?}", other),
    }
}

#[test]
fn import_path_is_stripped_of_quotes_and_slash() {
    match parse("[template][import \"x.html\"/][endtemplate]").unwrap() {
        TemplateNode::CtchiTemplateTagNode(root) => match &root.children[0] {
            TemplateNode::CtchiImportTagNode(tag) => {
                assert_eq!(tag.path, "x.html");
                assert_eq!(tag.size, 18);
            }
            other => panic!("expected an import node, got {:?}", other),
        },
        other => panic!("expected a template root, got {:?}", other),
    }
}

#[test]
fn escaped_brackets_render_as_entities() {
    let out = render_str("[template]a\\[b\\]c[endtemplate]", &empty_context(), &empty_loader());
    assert_eq!(out, "a&#x5B;b&#x5D;c");
}

#[test]
fn import_renders_target_against_importers_context() {
    let mut loader = Loader::new();
    loader.insert(
        "inc.html".to_string(),
        "[template][[who]][endtemplate]".to_string(),
    );
    let importer = "[template][import \"inc.html\"/][endtemplate]";
    let local = "[template][[who]][endtemplate]";

    let mut context = ContextMap::new();
    context.insert("who".to_string(), Context::SingleValue("Bob".to_string()));
    assert_eq!(render_str(importer, &context, &loader), "Bob");
    assert_eq!(
        render_str(importer, &context, &loader),
        render_str(local, &context, &loader),
    );

    let mut changed = ContextMap::new();
    changed.insert("who".to_string(), Context::SingleValue("Alice".to_string()));
    assert_eq!(render_str(importer, &changed, &loader), "Alice");
    assert_eq!(
        render_str(importer, &changed, &loader),
        render_str(local, &changed, &loader),
    );
}

#[test]
fn unresolved_import_degrades_to_error_text() {
    let out = render_str(
        "[template][import \"missing.html\"/][endtemplate]",
        &empty_context(),
        &empty_loader(),
    );
    assert_eq!(out, "cannot load template: missing.html");
}

#[test]
fn malformed_import_target_fails_the_render() {
    let mut loader = Loader::new();
    loader.insert("bad.html".to_string(), "[template][blah/][endtemplate]".to_string());
    let tree = parse("[template][import \"bad.html\"/][endtemplate]").unwrap();
    match ctchi::writer::write(&tree, &empty_context(), &loader) {
        Err(RenderError::ImportFailed { path, error }) => {
            assert_eq!(path, "bad.html");
            assert!(matches!(error, ParseError::UnknownTag { .. }));
        }
        other => panic!("expected an import failure, got {:?}", other),
    }
}

#[test]
fn circular_imports_exhaust_the_depth_limit() {
    let mut loader = Loader::new();
    loader.insert(
        "self.html".to_string(),
        "[template][import \"self.html\"/][endtemplate]".to_string(),
    );
    let tree = parse("[template][import \"self.html\"/][endtemplate]").unwrap();
    match ctchi::writer::write(&tree, &empty_context(), &loader) {
        Err(RenderError::ImportDepthExceeded { path }) => assert_eq!(path, "self.html"),
        other => panic!("expected a depth error, got {:?}", other),
    }
}

#[test]
fn multibyte_characters_pass_through() {
    let mut context = ContextMap::new();
    context.insert("nåme".to_string(), Context::SingleValue("Åke".to_string()));
    let out = render_str("[template]héllo [[nåme]]![endtemplate]", &context, &empty_loader());
    assert_eq!(out, "héllo Åke!");
}

#[test]
fn get_content_yields_utf8_bytes() {
    let mut context = ContextMap::new();
    context.insert("name".to_string(), Context::SingleValue("Bob".to_string()));
    let tree = parse("[template]hi [[name]][endtemplate]").unwrap();
    let bytes = tree.get_content(&context, &empty_loader()).unwrap();
    assert_eq!(bytes, b"hi Bob".to_vec());
}

#[test]
fn constructors_wrap_their_nodes() {
    let tag = TemplateNode::from_tag(TemplateTag {
        name: "template".to_string(),
        children: Vec::new(),
        size: 0,
    });
    assert!(matches!(tag, TemplateNode::CtchiTemplateTagNode(_)));
    let html = TemplateNode::from_html(Html { value: "x".to_string() });
    assert!(matches!(html, TemplateNode::HtmlNode(_)));
    let value = TemplateNode::from_value(CtchiValue { value: "v".to_string() });
    assert!(matches!(value, TemplateNode::CtchiValueNode(_)));
}
