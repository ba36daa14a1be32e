use ui_macros::{
    derive_path_str, generate, match_arms, path_str, AttrArg, Attribute, CaseStyle, DeriveError,
    ItemData, ItemDecl, MatchArm, PathConfig, PathMethod,
};

fn bind(name: &str, value: &str) -> AttrArg {
    AttrArg::Setting { name: name.to_string(), value: value.to_string() }
}

fn attr(name: &str, args: Vec<AttrArg>) -> Attribute {
    Attribute { name: name.to_string(), args }
}

fn names(variants: &[&str]) -> Vec<String> {
    variants.iter().map(|name| name.to_string()).collect()
}

fn enumeration(name: &str, attrs: Vec<Attribute>, variants: &[&str]) -> ItemDecl {
    ItemDecl { name: name.to_string(), attrs, data: ItemData::Enum { variants: names(variants) } }
}

fn arm(variant: &str, path: &str) -> MatchArm {
    MatchArm { variant: variant.to_string(), path: path.to_string() }
}

fn my_enum() -> ItemDecl {
    enumeration(
        "MyEnum",
        vec![
            attr("derive", vec![AttrArg::Other, AttrArg::Other]),
            attr("path_str", vec![bind("prefix", "my_prefix"), bind("suffix", ".txt")]),
            attr("strum", vec![bind("serialize_all", "snake_case")]),
        ],
        &["VariantOne", "VariantTwo"],
    )
}

#[test]
fn prefix_suffix_and_snake_case() {
    let method = generate(&my_enum()).unwrap();
    assert_eq!(
        method,
        PathMethod {
            enum_name: "MyEnum".to_string(),
            arms: vec![
                arm("VariantOne", "my_prefix/variant_one.txt"),
                arm("VariantTwo", "my_prefix/variant_two.txt"),
            ],
        }
    );
}

#[test]
fn prefix_alone_uses_the_names_as_labels() {
    let item = enumeration(
        "Icon",
        vec![attr("path_str", vec![bind("prefix", "icons")])],
        &["Close", "ArrowLeft", "snake_named", "X"],
    );
    let method = generate(&item).unwrap();
    assert_eq!(method.enum_name, "Icon");
    assert_eq!(
        method.arms,
        vec![
            arm("Close", "icons/Close"),
            arm("ArrowLeft", "icons/ArrowLeft"),
            arm("snake_named", "icons/snake_named"),
            arm("X", "icons/X"),
        ]
    );
}

#[test]
fn one_arm_per_variant_in_declaration_order() {
    let variants = ["Zulu", "Alpha", "Mike", "Alpha2", "Bravo"];
    let item = enumeration("Word", vec![attr("path_str", vec![bind("prefix", "w")])], &variants);
    let method = generate(&item).unwrap();
    assert_eq!(method.arms.len(), variants.len());
    for (i, variant) in variants.iter().enumerate() {
        assert_eq!(method.arms[i].variant, *variant);
        assert_eq!(method.arms[i].path, format!("w/{}", variant));
    }
}

#[test]
fn every_path_begins_with_the_prefix_and_ends_with_the_suffix() {
    let item = enumeration(
        "Sound",
        vec![
            attr("path_str", vec![bind("suffix", ".wav"), bind("prefix", "sounds/ui")]),
            attr("strum", vec![bind("serialize_all", "kebab-case")]),
        ],
        &["Click", "LongPress", "Drop"],
    );
    let method = generate(&item).unwrap();
    assert_eq!(method.arms.len(), 3);
    for arm in &method.arms {
        assert!(arm.path.starts_with("sounds/ui/"));
        assert!(arm.path.ends_with(".wav"));
    }
    assert_eq!(method.arms[1].path, "sounds/ui/long-press.wav");
}

#[test]
fn case_style_converts_the_label_not_the_variant() {
    let method = generate(&my_enum()).unwrap();
    assert_eq!(method.arms[0].variant, "VariantOne");
    assert_eq!(method.arms[0].path, "my_prefix/variant_one.txt");
    assert_ne!(method.arms[0].path, "my_prefix/VariantOne.txt");
}

#[test]
fn unknown_case_directive_leaves_the_names_alone() {
    let item = enumeration(
        "Icon",
        vec![
            attr("path_str", vec![bind("prefix", "icons")]),
            attr("strum", vec![bind("serialize_all", "sponge_case")]),
        ],
        &["ArrowLeft"],
    );
    assert_eq!(generate(&item).unwrap().arms, vec![arm("ArrowLeft", "icons/ArrowLeft")]);
}

#[test]
fn enum_without_variants_gets_a_method_without_arms() {
    let item = enumeration("Never", vec![attr("path_str", vec![bind("prefix", "p")])], &[]);
    assert_eq!(generate(&item), Ok(PathMethod { enum_name: "Never".to_string(), arms: vec![] }));
}

#[test]
fn struct_is_refused() {
    let item = ItemDecl {
        name: "Point".to_string(),
        attrs: vec![attr("path_str", vec![bind("prefix", "p")])],
        data: ItemData::Struct,
    };
    assert_eq!(generate(&item), Err(DeriveError::NotAnEnum));
    assert_eq!(derive_path_str(&item), Err(DeriveError::NotAnEnum));
    assert!(DeriveError::NotAnEnum.message().contains("only supports enums"));
}

#[test]
fn union_is_refused() {
    let item = ItemDecl { name: "Bits".to_string(), attrs: vec![], data: ItemData::Union };
    assert_eq!(generate(&item), Err(DeriveError::NotAnEnum));
    assert_eq!(derive_path_str(&item), Err(DeriveError::NotAnEnum));
}

#[test]
fn struct_without_prefix_is_refused_for_being_no_enum() {
    let item = ItemDecl { name: "Point".to_string(), attrs: vec![], data: ItemData::Struct };
    assert_eq!(generate(&item), Err(DeriveError::NotAnEnum));
}

#[test]
fn enum_without_prefix_is_refused() {
    let item = enumeration(
        "Icon",
        vec![
            attr("path_str", vec![bind("suffix", ".svg")]),
            attr("strum", vec![bind("serialize_all", "snake_case")]),
        ],
        &["Close"],
    );
    assert_eq!(generate(&item), Err(DeriveError::MissingPrefix));
    assert_eq!(derive_path_str(&item), Err(DeriveError::MissingPrefix));
    assert!(DeriveError::MissingPrefix.message().contains("prefix"));
}

#[test]
fn enum_without_attributes_is_refused() {
    let item = enumeration("Icon", vec![], &["Close"]);
    assert_eq!(generate(&item), Err(DeriveError::MissingPrefix));
}

#[test]
fn prefix_that_is_no_string_does_not_count() {
    let item = enumeration("Icon", vec![attr("path_str", vec![AttrArg::Other])], &["Close"]);
    assert_eq!(generate(&item), Err(DeriveError::MissingPrefix));
}

#[test]
fn messages_of_the_two_failures() {
    assert_eq!(DeriveError::NotAnEnum.message(), "DerivePathStr only supports enums");
    assert_eq!(DeriveError::MissingPrefix.message(), "prefix attribute is required");
}

#[test]
fn derived_text_of_the_documented_enum() {
    let expected = "impl MyEnum {\n    pub fn path(&self) -> ::std::string::String {\n        match *self {\n            MyEnum::VariantOne => ::std::string::String::from(\"my_prefix/variant_one.txt\"),\n            MyEnum::VariantTwo => ::std::string::String::from(\"my_prefix/variant_two.txt\"),\n        }\n    }\n}\n";
    assert_eq!(derive_path_str(&my_enum()), Ok(expected.to_string()));
}

#[test]
fn derived_text_is_the_text_of_the_generated_method() {
    let item = my_enum();
    assert_eq!(derive_path_str(&item).unwrap(), generate(&item).unwrap().render());
}

#[test]
fn deriving_twice_gives_the_same_text() {
    let first = derive_path_str(&my_enum()).unwrap();
    let second = derive_path_str(&my_enum().clone()).unwrap();
    assert_eq!(first.as_bytes(), second.as_bytes());
    let refused = enumeration("Icon", vec![], &["Close"]);
    assert_eq!(derive_path_str(&refused), derive_path_str(&refused.clone()));
}

#[test]
fn derived_text_parses_and_returns_the_paths() {
    let item = enumeration(
        "Icon",
        vec![
            attr("path_str", vec![bind("prefix", "icons \"ui\""), bind("suffix", "\\.svg")]),
            attr("strum", vec![bind("serialize_all", "SCREAMING_SNAKE_CASE")]),
        ],
        &["ArrowLeft", "Close"],
    );
    let text = derive_path_str(&item).unwrap();
    let parsed: syn::ItemImpl = syn::parse_str(&text).unwrap();
    let syn::ImplItem::Fn(path_fn) = &parsed.items[0] else { panic!("not a method") };
    let syn::Stmt::Expr(syn::Expr::Match(body), None) = &path_fn.block.stmts[0] else {
        panic!("not a match")
    };
    let mut returned = Vec::new();
    for arm in &body.arms {
        let syn::Expr::Call(call) = &*arm.body else { panic!("not a call") };
        let syn::Expr::Lit(syn::ExprLit { lit: syn::Lit::Str(text), .. }) = &call.args[0] else {
            panic!("not a string literal")
        };
        returned.push(text.value());
    }
    assert_eq!(returned, vec!["icons \"ui\"/ARROW_LEFT\\.svg", "icons \"ui\"/CLOSE\\.svg"]);
}

#[test]
fn arms_for_given_variants() {
    let config = PathConfig { prefix: "a".to_string(), suffix: ".b".to_string() };
    assert_eq!(
        match_arms(&names(&["OneTwo", "Three"]), Some(CaseStyle::Camel), &config),
        vec![arm("OneTwo", "a/oneTwo.b"), arm("Three", "a/three.b")]
    );
    assert_eq!(match_arms(&names(&["OneTwo"]), None, &config), vec![arm("OneTwo", "a/OneTwo.b")]);
    assert_eq!(match_arms(&vec![], None, &config), vec![]);
}

#[test]
fn marker_hands_the_item_back() {
    let item = my_enum();
    assert_eq!(path_str(vec![bind("prefix", "other")], item.clone()), item);
    let point = ItemDecl { name: "Point".to_string(), attrs: vec![], data: ItemData::Struct };
    assert_eq!(path_str((), point.clone()), point);
    assert_eq!(path_str("prefix = \"p\"", "fn main() {}"), "fn main() {}");
}
