use ui_macros::{find_setting, requested_style, AttrArg, Attribute, CaseStyle, DeriveError, PathConfig};

fn bind(name: &str, value: &str) -> AttrArg {
    AttrArg::Setting { name: name.to_string(), value: value.to_string() }
}

fn attr(name: &str, args: Vec<AttrArg>) -> Attribute {
    Attribute { name: name.to_string(), args }
}

#[test]
fn no_attributes_hold_no_setting() {
    assert_eq!(find_setting(&vec![], "path_str", "prefix"), None);
}

#[test]
fn setting_is_found_in_the_named_attribute() {
    let attrs = vec![attr("path_str", vec![bind("prefix", "icons"), bind("suffix", ".svg")])];
    assert_eq!(find_setting(&attrs, "path_str", "prefix"), Some("icons"));
    assert_eq!(find_setting(&attrs, "path_str", "suffix"), Some(".svg"));
    assert_eq!(find_setting(&attrs, "path_str", "infix"), None);
}

#[test]
fn attributes_of_another_name_are_passed_over() {
    let attrs = vec![
        attr("strum", vec![bind("prefix", "wrong")]),
        attr("derive", vec![AttrArg::Other, AttrArg::Other]),
        attr("path_str", vec![bind("prefix", "right")]),
    ];
    assert_eq!(find_setting(&attrs, "path_str", "prefix"), Some("right"));
    assert_eq!(find_setting(&attrs, "strum", "prefix"), Some("wrong"));
    assert_eq!(find_setting(&attrs, "derive", "prefix"), None);
}

#[test]
fn first_binding_of_a_key_counts() {
    let attrs = vec![
        attr("path_str", vec![AttrArg::Other, bind("suffix", ".a")]),
        attr("path_str", vec![bind("prefix", "one"), bind("prefix", "two")]),
        attr("path_str", vec![bind("prefix", "three"), bind("suffix", ".b")]),
    ];
    assert_eq!(find_setting(&attrs, "path_str", "prefix"), Some("one"));
    assert_eq!(find_setting(&attrs, "path_str", "suffix"), Some(".a"));
}

#[test]
fn settings_spread_over_two_attributes() {
    let attrs = vec![
        attr("path_str", vec![bind("prefix", "p")]),
        attr("path_str", vec![bind("suffix", ".s")]),
    ];
    assert_eq!(
        PathConfig::from_attrs(&attrs),
        Ok(PathConfig { prefix: "p".to_string(), suffix: ".s".to_string() })
    );
}

#[test]
fn attribute_value_of_finds_its_first_binding() {
    let attribute = attr("path_str", vec![AttrArg::Other, bind("a", "1"), bind("a", "2")]);
    assert_eq!(attribute.value_of("a"), Some("1"));
    assert_eq!(attribute.value_of("b"), None);
    assert_eq!(bind("a", "1").value_of("a"), Some("1"));
    assert_eq!(bind("a", "1").value_of("b"), None);
    assert_eq!(AttrArg::Other.value_of("a"), None);
}

#[test]
fn config_without_suffix_has_an_empty_one() {
    let attrs = vec![attr("path_str", vec![bind("prefix", "icons")])];
    assert_eq!(
        PathConfig::from_attrs(&attrs),
        Ok(PathConfig { prefix: "icons".to_string(), suffix: String::new() })
    );
}

#[test]
fn config_without_prefix_is_refused() {
    let attrs = vec![attr("path_str", vec![bind("suffix", ".svg"), AttrArg::Other])];
    assert_eq!(PathConfig::from_attrs(&attrs), Err(DeriveError::MissingPrefix));
    assert_eq!(PathConfig::from_attrs(&vec![]), Err(DeriveError::MissingPrefix));
}

#[test]
fn prefix_under_another_attribute_does_not_count() {
    let attrs = vec![attr("strum", vec![bind("prefix", "icons")])];
    assert_eq!(PathConfig::from_attrs(&attrs), Err(DeriveError::MissingPrefix));
}

#[test]
fn empty_prefix_is_a_prefix() {
    let attrs = vec![attr("path_str", vec![bind("prefix", "")])];
    assert_eq!(
        PathConfig::from_attrs(&attrs),
        Ok(PathConfig { prefix: String::new(), suffix: String::new() })
    );
}

#[test]
fn style_is_read_from_the_strum_attribute() {
    let attrs = vec![
        attr("path_str", vec![bind("prefix", "icons")]),
        attr("strum", vec![bind("serialize_all", "snake_case")]),
    ];
    assert_eq!(requested_style(&attrs), Some(CaseStyle::Snake));
}

#[test]
fn no_style_without_a_directive() {
    let attrs = vec![attr("path_str", vec![bind("prefix", "icons"), bind("serialize_all", "snake_case")])];
    assert_eq!(requested_style(&attrs), None);
    assert_eq!(requested_style(&vec![attr("strum", vec![AttrArg::Other])]), None);
}

#[test]
fn no_style_for_an_unknown_directive() {
    let attrs = vec![attr("strum", vec![bind("serialize_all", "sponge_case")])];
    assert_eq!(requested_style(&attrs), None);
}
