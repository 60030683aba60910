use ammonia_wasm::{clean, clean_text, decode_text, AmmoniaBuilder, ConfigError, ConfigValue};

fn text(s: &str) -> ConfigValue {
    ConfigValue::Text(s.to_string())
}

fn list(items: &[&str]) -> ConfigValue {
    ConfigValue::List(items.iter().map(|s| text(s)).collect())
}

fn object(pairs: Vec<(&str, ConfigValue)>) -> ConfigValue {
    ConfigValue::Object(pairs.into_iter().map(|(k, v)| (k.to_string(), v)).collect())
}

fn policy(pairs: Vec<(&str, ConfigValue)>) -> AmmoniaBuilder {
    match AmmoniaBuilder::new(&object(pairs)) {
        Ok(p) => p,
        Err(e) => panic!("configuration refused: {:?}", e),
    }
}

#[test]
fn tags_given_as_string_is_refused() {
    let r = AmmoniaBuilder::new(&object(vec![("tags", text("b"))]));
    match r {
        Err(ConfigError::WrongShape(f)) => assert_eq!(f, "tags"),
        other => panic!("unexpected: {:?}", other.err()),
    }
}

#[test]
fn tags_given_as_list_is_accepted() {
    assert!(AmmoniaBuilder::new(&object(vec![("tags", list(&["b", "i"]))])).is_ok());
}

#[test]
fn policy_keeps_allowed_tags_and_drops_script() {
    let p = policy(vec![("tags", list(&["b", "i"]))]);
    assert_eq!(p.clean("<b>bold</b><script>alert(1)</script>"), "<b>bold</b>");
}

#[test]
fn clean_text_keeps_text_only() {
    assert_eq!(clean_text("<p>Hello <b>World</b></p>"), "Hello World");
}

#[test]
fn default_clean_drops_javascript_href() {
    let out = clean("<a href=\"javascript:evil()\">x</a>");
    assert!(!out.contains("href"));
    assert_eq!(out, "<a rel=\"noopener noreferrer\">x</a>");
}

#[test]
fn default_clean_keeps_http_href() {
    assert_eq!(
        clean("<a href=\"http://example.com/\">x</a>"),
        "<a href=\"http://example.com/\" rel=\"noopener noreferrer\">x</a>"
    );
}

#[test]
fn policy_clean_is_idempotent_on_sample() {
    let p = policy(vec![("tags", list(&["p", "b"]))]);
    let once = p.clean("<p onclick=\"x()\">a <b>b</b> <i>c</i><!-- d --></p>");
    assert_eq!(once, "<p>a <b>b</b> c</p>");
    assert_eq!(p.clean(&once), once);
}

#[test]
fn attributes_outside_allow_list_are_removed() {
    let p = policy(vec![
        ("tags", list(&["p"])),
        ("tagAttributes", object(vec![("p", list(&["dir"]))])),
        ("genericAttributes", list(&["title"])),
    ]);
    assert_eq!(
        p.clean("<p dir=\"rtl\" title=\"t\" lang=\"en\" onclick=\"x()\"><em>y</em></p>"),
        "<p dir=\"rtl\" title=\"t\">y</p>"
    );
}

#[test]
fn forced_value_wins_over_allowed_values() {
    let p = policy(vec![
        ("tagAttributes", object(vec![("span", list(&["data-x"]))])),
        (
            "tagAttributeValues",
            object(vec![("span", object(vec![("data-x", list(&["2"]))]))]),
        ),
        (
            "setTagAttributeValues",
            object(vec![("span", object(vec![("data-x", text("1"))]))]),
        ),
    ]);
    assert_eq!(p.clean("<span data-x=\"2\">hi</span>"), "<span data-x=\"1\">hi</span>");
    assert_eq!(p.clean("<span>hi</span>"), "<span data-x=\"1\">hi</span>");
}

#[test]
fn empty_url_schemes_remove_every_url() {
    let p = policy(vec![("urlSchemes", ConfigValue::List(vec![]))]);
    assert_eq!(
        p.clean("<a href=\"http://example.com/\">y</a>"),
        "<a rel=\"noopener noreferrer\">y</a>"
    );
}

#[test]
fn absent_url_schemes_keep_defaults() {
    let p = policy(vec![]);
    assert_eq!(
        p.clean("<a href=\"http://example.com/\">y</a>"),
        "<a href=\"http://example.com/\" rel=\"noopener noreferrer\">y</a>"
    );
}

#[test]
fn null_field_counts_as_absent() {
    let p = policy(vec![("urlSchemes", ConfigValue::Null), ("tags", ConfigValue::Null)]);
    assert_eq!(p.clean("<b>x</b>"), "<b>x</b>");
}

#[test]
fn non_object_configuration_is_refused() {
    let r = AmmoniaBuilder::new(&list(&["b"]));
    assert!(matches!(r, Err(ConfigError::NotAnObject)));
}

#[test]
fn duplicate_field_is_refused() {
    let r = AmmoniaBuilder::new(&object(vec![("tags", list(&["b"])), ("tags", list(&["i"]))]));
    assert!(matches!(r, Err(ConfigError::DuplicateField)));
}

#[test]
fn nested_wrong_shape_names_the_field() {
    let r = AmmoniaBuilder::new(&object(vec![
        ("tags", list(&["b"])),
        ("allowedClasses", object(vec![("b", text("x"))])),
    ]));
    match r {
        Err(ConfigError::WrongShape(f)) => assert_eq!(f, "allowedClasses"),
        other => panic!("unexpected: {:?}", other.err()),
    }
}

#[test]
fn first_wrong_field_is_reported() {
    let r = AmmoniaBuilder::new(&object(vec![
        ("stripComments", text("no")),
        ("urlSchemes", ConfigValue::Bool(true)),
    ]));
    match r {
        Err(ConfigError::WrongShape(f)) => assert_eq!(f, "urlSchemes"),
        other => panic!("unexpected: {:?}", other.err()),
    }
}

#[test]
fn unknown_keys_are_ignored() {
    let p = policy(vec![("tags", list(&["b"])), ("somethingElse", ConfigValue::Number)]);
    assert_eq!(p.clean("<b>x</b><i>y</i>"), "<b>x</b>y");
}

#[test]
fn content_tag_also_allowed_is_a_conflict() {
    let r = AmmoniaBuilder::new(&object(vec![
        ("tags", list(&["b"])),
        ("cleanContentTags", list(&["b"])),
    ]));
    assert!(matches!(r, Err(ConfigError::Conflict)));
}

#[test]
fn content_tag_among_default_tags_is_a_conflict() {
    let r = AmmoniaBuilder::new(&object(vec![("cleanContentTags", list(&["b"]))]));
    assert!(matches!(r, Err(ConfigError::Conflict)));
}

#[test]
fn rel_allowed_beside_link_rel_is_a_conflict() {
    let r = AmmoniaBuilder::new(&object(vec![("genericAttributes", list(&["rel"]))]));
    assert!(matches!(r, Err(ConfigError::Conflict)));
}

#[test]
fn class_allowed_beside_allowed_classes_is_a_conflict() {
    let r = AmmoniaBuilder::new(&object(vec![
        ("tagAttributes", object(vec![("p", list(&["class"]))])),
        ("allowedClasses", object(vec![("p", list(&["x"]))])),
    ]));
    assert!(matches!(r, Err(ConfigError::Conflict)));
}

#[test]
fn svg_animation_tag_is_a_conflict() {
    let r = AmmoniaBuilder::new(&object(vec![("tags", list(&["b", "animate"]))]));
    assert!(matches!(r, Err(ConfigError::Conflict)));
}

#[test]
fn allowed_classes_filter_class_values() {
    let p = policy(vec![("allowedClasses", object(vec![("p", list(&["ok"]))]))]);
    assert_eq!(p.clean("<p class=\"ok bad\">x</p>"), "<p class=\"ok\">x</p>");
}

#[test]
fn comments_kept_when_not_stripped() {
    let p = policy(vec![("stripComments", ConfigValue::Bool(false))]);
    assert_eq!(p.clean("<!-- c -->x"), "<!-- c -->x");
    let q = policy(vec![]);
    assert_eq!(q.clean("<!-- c -->x"), "x");
}

#[test]
fn empty_link_rel_is_an_override() {
    let p = policy(vec![("linkRel", text(""))]);
    assert_eq!(
        p.clean("<a href=\"http://example.com/\">y</a>"),
        "<a href=\"http://example.com/\" rel=\"\">y</a>"
    );
}

#[test]
fn id_prefix_is_applied() {
    let p = policy(vec![("genericAttributes", list(&["id"])), ("idPrefix", text("user-"))]);
    assert_eq!(p.clean("<div id=\"x\">y</div>"), "<div id=\"user-x\">y</div>");
}

#[test]
fn generic_attribute_prefixes_allow_data_attributes() {
    let p = policy(vec![("genericAttributePrefixes", list(&["data-"]))]);
    assert_eq!(p.clean("<span data-k=\"v\">y</span>"), "<span data-k=\"v\">y</span>");
    let q = policy(vec![]);
    assert_eq!(q.clean("<span data-k=\"v\">y</span>"), "<span>y</span>");
}

#[test]
fn policy_is_reusable() {
    let p = policy(vec![("tags", list(&["i"]))]);
    assert_eq!(p.clean("<i>a</i><b>b</b>"), "<i>a</i>b");
    assert_eq!(p.clean("<i>a</i><b>b</b>"), "<i>a</i>b");
}

#[test]
fn clean_text_decodes_special_characters() {
    assert_eq!(clean_text("a & b < c > d"), "a & b < c > d");
    assert_eq!(clean_text("<div>x&nbsp;y</div><script>z</script>"), "x\u{a0}y");
}

#[test]
fn decode_text_turns_escapes_back() {
    assert_eq!(decode_text("a &amp;lt; b&nbsp;&gt;&lt;"), "a &lt; b\u{a0}><");
    assert_eq!(decode_text("&am&quot;p; é"), "&am&quot;p; é");
    assert_eq!(decode_text(""), "");
}

#[test]
fn error_message_names_the_field() {
    let r = AmmoniaBuilder::new(&object(vec![("idPrefix", list(&["x"]))]));
    match r {
        Err(e) => assert_eq!(e.message(), "invalid type for field `idPrefix` of the configuration"),
        Ok(_) => panic!("accepted"),
    }
    assert_eq!(ConfigError::NotAnObject.message(), "the configuration must be an object");
}

#[test]
fn allowed_values_of_other_attributes_still_apply() {
    let p = policy(vec![
        (
            "tagAttributeValues",
            object(vec![("span", object(vec![("data-x", list(&["2"])), ("data-y", list(&["ok"]))]))]),
        ),
        (
            "setTagAttributeValues",
            object(vec![("span", object(vec![("data-x", text("1"))]))]),
        ),
    ]);
    assert_eq!(
        p.clean("<span data-x=\"9\" data-y=\"bad\">hi</span>"),
        "<span data-x=\"1\">hi</span>"
    );
    assert_eq!(
        p.clean("<span data-y=\"ok\">hi</span>"),
        "<span data-y=\"ok\" data-x=\"1\">hi</span>"
    );
}

#[test]
fn two_forced_values_are_both_set() {
    let p = policy(vec![(
        "setTagAttributeValues",
        object(vec![("span", object(vec![("data-a", text("1")), ("data-b", text("2"))]))]),
    )]);
    let out = p.clean("<span>x</span>");
    assert!(out.contains("data-a=\"1\""));
    assert!(out.contains("data-b=\"2\""));
    assert!(out.ends_with(">x</span>"));
}
