use mobile_init::context::{build_template_context, ContextValue, FieldValue, TemplateContext};
use mobile_init::helpers::{
    app_root, get_str, get_str_array, html_escape, join, prefix_path, quote_and_join,
    quote_and_join_colon_prefix, reverse_domain, reverse_domain_snake_case, snake_case,
    unprefix_path, HelperError, ItemFormat, ParamValue,
};

fn text(s: &str) -> ParamValue {
    ParamValue::Text(s.to_string())
}

fn list(items: &[&str]) -> ParamValue {
    ParamValue::List(items.iter().map(|s| text(s)).collect())
}

fn context_with_root(root: &str) -> TemplateContext {
    let app = ContextValue::Record(vec![
        ("name".to_string(), FieldValue::Text("demo".to_string())),
        ("root-dir".to_string(), FieldValue::Text(root.to_string())),
    ]);
    let android = ContextValue::Record(vec![]);
    build_template_context(app, android, None, Some("tauri".to_string()))
}

#[test]
fn reverse_domain_of_app_id() {
    assert_eq!(reverse_domain(Some(&text("com.example.app"))), "app.example.com");
}

#[test]
fn reverse_domain_keeps_empty_pieces() {
    assert_eq!(reverse_domain(Some(&text("a..b"))), "b..a");
    assert_eq!(reverse_domain(Some(&text(""))), "");
    assert_eq!(reverse_domain(Some(&text("single"))), "single");
    assert_eq!(reverse_domain(None), "");
}

#[test]
fn reverse_domain_snake_case_is_snake_of_reversed() {
    let p = text("com.Example-App.sub");
    let reversed = reverse_domain(Some(&p));
    assert_eq!(reversed, "sub.Example-App.com");
    let expected = snake_case(Some(&ParamValue::Text(reversed)));
    assert_eq!(reverse_domain_snake_case(Some(&p)), expected);
    assert_eq!(expected, "sub_example_app_com");
}

#[test]
fn snake_case_converts() {
    assert_eq!(snake_case(Some(&text("CamelCase"))), "camel_case");
    assert_eq!(snake_case(Some(&text("kebab-case"))), "kebab_case");
}

#[test]
fn html_escape_replaces_entities() {
    assert_eq!(
        html_escape(Some(&text("<a href=\"x\">'&`</a>"))),
        "&lt;a href&#x3D;&quot;x&quot;&gt;&#x27;&amp;&#x60;&lt;/a&gt;"
    );
    assert_eq!(html_escape(Some(&text("plain"))), "plain");
    assert_eq!(html_escape(Some(&ParamValue::Other)), "");
}

#[test]
fn get_str_reads_text_only() {
    assert_eq!(get_str(Some(&text("abc"))), "abc");
    assert_eq!(get_str(Some(&ParamValue::Other)), "");
    assert_eq!(get_str(Some(&list(&["a"]))), "");
    assert_eq!(get_str(None), "");
}

#[test]
fn get_str_array_formats_items() {
    let p = list(&["a", "b"]);
    assert_eq!(get_str_array(Some(&p), ItemFormat::Plain), Some(vec!["a".to_string(), "b".to_string()]));
    assert_eq!(
        get_str_array(Some(&p), ItemFormat::ColonQuoted),
        Some(vec!["\":a\"".to_string(), "\":b\"".to_string()])
    );
    let mixed = ParamValue::List(vec![text("a"), ParamValue::Other]);
    assert_eq!(get_str_array(Some(&mixed), ItemFormat::Plain), None);
    assert_eq!(get_str_array(Some(&text("a")), ItemFormat::Plain), None);
    assert_eq!(get_str_array(None, ItemFormat::Plain), None);
}

#[test]
fn join_joins_with_comma_space() {
    assert_eq!(join(Some(&list(&["x", "y", "z"]))), Ok("x, y, z".to_string()));
    assert_eq!(join(Some(&list(&[]))), Ok(String::new()));
    assert_eq!(join(Some(&list(&["only"]))), Ok("only".to_string()));
}

#[test]
fn quote_and_join_quotes_items() {
    assert_eq!(
        quote_and_join(Some(&list(&["a", "b\"c"]))),
        Ok("\"a\", \"b\\\"c\"".to_string())
    );
}

#[test]
fn quote_and_join_colon_prefix_prefixes_items() {
    assert_eq!(
        quote_and_join_colon_prefix(Some(&list(&["app", "lib"]))),
        Ok("\":app\", \":lib\"".to_string())
    );
}

#[test]
fn list_helpers_reject_non_lists() {
    assert_eq!(join(Some(&text("x"))), Err(HelperError::MissingArray));
    assert_eq!(quote_and_join(Some(&ParamValue::Other)), Err(HelperError::MissingArray));
    assert_eq!(quote_and_join_colon_prefix(None), Err(HelperError::MissingArray));
    let nested = ParamValue::List(vec![list(&["a"])]);
    assert_eq!(join(Some(&nested)), Err(HelperError::MissingArray));
}

#[test]
fn app_root_reads_root_dir() {
    let ctx = context_with_root("/home/me/app");
    assert_eq!(app_root(&ctx), Ok("/home/me/app".to_string()));
}

#[test]
fn app_root_missing_fields() {
    let empty = TemplateContext::new();
    assert_eq!(app_root(&empty), Err(HelperError::MissingContextField));
    let app = ContextValue::Record(vec![("name".to_string(), FieldValue::Text("x".to_string()))]);
    let ctx = build_template_context(app, ContextValue::Record(vec![]), None, None);
    assert_eq!(app_root(&ctx), Err(HelperError::MissingContextField));
    let app = ContextValue::Record(vec![("root-dir".to_string(), FieldValue::Other)]);
    let ctx = build_template_context(app, ContextValue::Record(vec![]), None, None);
    assert_eq!(app_root(&ctx), Err(HelperError::MissingContextField));
    assert_eq!(prefix_path(&ctx, Some(&text("a"))), Err(HelperError::MissingContextField));
    assert_eq!(unprefix_path(&ctx, Some(&text("a"))), Err(HelperError::MissingContextField));
}

#[test]
fn prefix_then_unprefix_round_trips() {
    for root in ["/home/me/app", "/home/me/app/", "rel/root", "/"] {
        let ctx = context_with_root(root);
        for path in ["gen/android", "x", "", "a/b/c.txt"] {
            let prefixed = prefix_path(&ctx, Some(&text(path))).unwrap();
            let back = unprefix_path(&ctx, Some(&ParamValue::Text(prefixed))).unwrap();
            assert_eq!(back, path);
        }
    }
}

#[test]
fn prefix_path_joins_under_root() {
    let ctx = context_with_root("/home/me/app");
    assert_eq!(prefix_path(&ctx, Some(&text("gen/android"))), Ok("/home/me/app/gen/android".to_string()));
    assert_eq!(prefix_path(&ctx, Some(&text("/abs/path"))), Ok("/abs/path".to_string()));
}

#[test]
fn unprefix_path_strips_root() {
    let ctx = context_with_root("/home/me/app");
    assert_eq!(unprefix_path(&ctx, Some(&text("/home/me/app/src/lib.rs"))), Ok("src/lib.rs".to_string()));
    assert_eq!(unprefix_path(&ctx, Some(&text("/home/me/app"))), Ok(String::new()));
    assert_eq!(unprefix_path(&ctx, Some(&text("/home/me/app/"))), Ok(String::new()));
}

#[test]
fn unprefix_path_outside_root_fails() {
    let ctx = context_with_root("/home/me/app");
    assert_eq!(unprefix_path(&ctx, Some(&text("/home/me/other/x"))), Err(HelperError::PathNotUnderRoot));
    assert_eq!(unprefix_path(&ctx, Some(&text("/home/me/application"))), Err(HelperError::PathNotUnderRoot));
    assert_eq!(unprefix_path(&ctx, Some(&text("relative"))), Err(HelperError::PathNotUnderRoot));
}

#[test]
fn unprefix_path_compares_components() {
    let ctx = context_with_root("/a");
    assert_eq!(unprefix_path(&ctx, Some(&text("/a//b"))), Ok("b".to_string()));
    assert_eq!(unprefix_path(&ctx, Some(&text("/a/./b//c/"))), Ok("b/c".to_string()));
    let ctx = context_with_root("/a/./");
    assert_eq!(unprefix_path(&ctx, Some(&text("/a/b"))), Ok("b".to_string()));
    let ctx = context_with_root("/home/me/app");
    assert_eq!(unprefix_path(&ctx, Some(&text("/home/me/app/./src//lib.rs"))), Ok("src/lib.rs".to_string()));
    assert_eq!(unprefix_path(&ctx, Some(&text("home/me/app/x"))), Err(HelperError::PathNotUnderRoot));
}
