use proc_macro2::Span;
use structural::tstr::{tstr_impl, TStrValue};
use structural::utils::{joined_or, remove_raw_prefix, SpanExt, StrExt};

fn strings(names: &[&str]) -> Vec<String> {
    names.iter().map(|s| s.to_string()).collect()
}

#[test]
fn one_name_is_a_single_string() {
    match tstr_impl(strings(&["foo"])) {
        Ok(TStrValue::Single(name)) => assert_eq!(name, "foo"),
        _ => panic!("expected a single name"),
    }
}

#[test]
fn distinct_names_are_a_set() {
    match tstr_impl(strings(&["foo", "bar", "baz"])) {
        Ok(TStrValue::Several(names)) => assert_eq!(names, strings(&["foo", "bar", "baz"])),
        _ => panic!("expected a set"),
    }
    match tstr_impl(Vec::new()) {
        Ok(TStrValue::Several(names)) => assert!(names.is_empty()),
        _ => panic!("expected the empty set"),
    }
}

#[test]
fn repeated_name_is_refused_where_it_repeats() {
    match tstr_impl(strings(&["a", "b", "c", "b", "a"])) {
        Err(e) => {
            assert_eq!(e.index, 3);
            assert_eq!(e.message(), "Field names cannot be used more than once");
        }
        Ok(_) => panic!("expected an error"),
    }
    match tstr_impl(strings(&["0", "0"])) {
        Err(e) => assert_eq!(e.index, 1),
        Ok(_) => panic!("expected an error"),
    }
}

#[test]
fn raw_prefix_is_removed_once() {
    assert_eq!(remove_raw_prefix("r#type".to_string()), "type");
    assert_eq!(remove_raw_prefix("type".to_string()), "type");
    assert_eq!(remove_raw_prefix("r#".to_string()), "");
    assert_eq!(remove_raw_prefix("r".to_string()), "r");
    assert_eq!(remove_raw_prefix("".to_string()), "");
    assert_eq!(remove_raw_prefix("r#r#x".to_string()), "r#x");
    assert_eq!(remove_raw_prefix("xr#".to_string()), "xr#");
    assert_eq!(remove_raw_prefix("r#\u{e9}t\u{e9}".to_string()), "\u{e9}t\u{e9}");
}

#[test]
fn text_is_surrounded() {
    assert_eq!("b".surrounded_with("a", "c"), "abc");
    assert_eq!(String::from("name").surrounded_with("<", ">"), "<name>");
    assert_eq!("".surrounded_with("", ""), "");
    assert_eq!("\u{e9}".surrounded_with("(", ")"), "(\u{e9})");
}

#[test]
fn spans_combine() {
    let a = Span::call_site();
    let b = Span::call_site();
    let combined = a.combine_span(b);
    assert_eq!(format!("{:?}", combined), format!("{:?}", a));
    assert_eq!(format!("{:?}", joined_or(None, a)), format!("{:?}", a));
    assert_eq!(format!("{:?}", joined_or(Some(b), a)), format!("{:?}", b));
}
