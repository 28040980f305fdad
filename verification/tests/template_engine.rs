use walk_the_dog::template_engine::{
    check_matching_pair, check_symbol_string, generate_html_template_var, get_content_type,
    get_expression_data, get_index_for_symbol, ContentType, Context, ExpressionData, TagType,
};

#[test]
fn get_index_for_symbol_test() {
    assert_eq!((true, 3), get_index_for_symbol("Hi {name} , welcome", '{'));
}

#[test]
fn get_expression_data_test() {
    let expression_data = ExpressionData {
        head: Some("Hi ".to_string()),
        variable: "name".to_string(),
        tail: Some(" , welcome".to_string()),
    };

    assert_eq!(expression_data, get_expression_data("Hi {{name}} , welcome"));
}

#[test]
fn check_symbol_string_test() {
    assert_eq!(true, check_symbol_string("{{Hello}}", "{{"));
}

#[test]
fn lib_check_symbol_string_test() {
    assert_eq!(true, check_symbol_string("{{Hello}}", "{{"));
}

#[test]
fn check_matching_pair_test() {
    assert_eq!(true, check_matching_pair("{{Hello}}", "{{", "}}"));
}

#[test]
fn lib_check_matching_pair_test() {
    assert_eq!(true, check_matching_pair("{{Hello}}", "{{", "}}"));
}

#[test]
fn check_template_var_test() {
    let content = ExpressionData {
        head: Some("Hi ".to_string()),
        variable: "name".to_string(),
        tail: Some(" , welcome".to_string()),
    };

    assert_eq!(
        ContentType::TemplateVariable(content),
        get_content_type("Hi {{name}} , welcome")
    );
}

#[test]
fn lib_check_template_var_test() {
    let content = ExpressionData {
        head: Some("Hi ".to_string()),
        variable: "name".to_string(),
        tail: Some(" , welcome".to_string()),
    };

    assert_eq!(
        ContentType::TemplateVariable(content),
        get_content_type("Hi {{name}} , welcome")
    );
}

#[test]
fn symbol_that_is_missing_is_reported_at_byte_zero() {
    assert_eq!((false, 0), get_index_for_symbol("Hi name , welcome", '{'));
    assert_eq!((false, 0), get_index_for_symbol("", '{'));
}

#[test]
fn symbol_index_counts_bytes_not_characters() {
    assert_eq!((true, 2), get_index_for_symbol("é{", '{'));
    assert_eq!((true, 9), get_index_for_symbol("日本語}", '}'));
    assert_eq!((true, 0), get_index_for_symbol("{{", '{'));
}

#[test]
fn symbol_string_that_is_missing_is_not_found() {
    assert_eq!(false, check_symbol_string("{{Hello}}", "{%"));
    assert_eq!(false, check_symbol_string("Hello", "Hello!"));
    assert_eq!(true, check_symbol_string("Hello", ""));
}

#[test]
fn matching_pair_needs_both_symbols() {
    assert_eq!(false, check_matching_pair("{{Hello", "{{", "}}"));
    assert_eq!(false, check_matching_pair("Hello}}", "{{", "}}"));
    assert_eq!(true, check_matching_pair("}}Hello{{", "{{", "}}"));
}

#[test]
fn expression_with_empty_parts() {
    let expression_data = ExpressionData {
        head: Some("".to_string()),
        variable: "".to_string(),
        tail: Some("".to_string()),
    };
    assert_eq!(expression_data, get_expression_data("{{}}"));
}

#[test]
fn expression_keeps_text_of_several_bytes() {
    let expression_data = ExpressionData {
        head: Some("Grüße ".to_string()),
        variable: "name".to_string(),
        tail: Some(" – bis bald".to_string()),
    };
    assert_eq!(expression_data, get_expression_data("Grüße {{name}} – bis bald"));
}

#[test]
fn content_type_of_a_for_tag() {
    assert_eq!(
        ContentType::Tag(TagType::ForTag),
        get_content_type("{% for name in names %}")
    );
    assert_eq!(ContentType::Tag(TagType::ForTag), get_content_type("{% endfor %}"));
}

#[test]
fn content_type_of_an_if_tag() {
    assert_eq!(ContentType::Tag(TagType::IfTag), get_content_type("{% if name %}"));
    assert_eq!(ContentType::Tag(TagType::IfTag), get_content_type("{% endif %}"));
}

#[test]
fn content_type_of_a_literal() {
    assert_eq!(
        ContentType::Literal("<h1>Hello world</h1>".to_string()),
        get_content_type("<h1>Hello world</h1>")
    );
    assert_eq!(ContentType::Literal("".to_string()), get_content_type(""));
}

#[test]
fn content_type_of_an_unknown_tag() {
    assert_eq!(ContentType::Unrecognized, get_content_type("{% while %}"));
}

#[test]
fn tag_wins_over_template_variable() {
    assert_eq!(
        ContentType::Tag(TagType::IfTag),
        get_content_type("{% if {{name}} %}")
    );
}

#[test]
fn html_puts_the_value_in_the_place_of_the_variable() {
    let mut context = Context::new();
    context.insert("name", "Bob");
    context.insert("city", "Boston");
    let content = ExpressionData {
        head: Some("Hi ".to_string()),
        variable: "name".to_string(),
        tail: Some(" , welcome".to_string()),
    };
    assert_eq!("Hi Bob , welcome", generate_html_template_var(content, context));
}

#[test]
fn html_leaves_out_what_is_not_there() {
    let mut context = Context::new();
    context.insert("name", "Bob");
    let content = ExpressionData {
        head: None,
        variable: "city".to_string(),
        tail: Some("!".to_string()),
    };
    assert_eq!("!", generate_html_template_var(content, context));
    let mut context = Context::new();
    context.insert("city", "Boston");
    context.insert("city", "Berlin");
    let content = ExpressionData { head: None, variable: "city".to_string(), tail: None };
    assert_eq!("Berlin", generate_html_template_var(content, context));
}

#[test]
fn context_gives_the_latest_value() {
    let mut context = Context::new();
    assert_eq!(None, context.get("name"));
    context.insert("name", "Bob");
    context.insert("name", "Alice");
    assert_eq!(Some(&"Alice".to_string()), context.get("name"));
}
