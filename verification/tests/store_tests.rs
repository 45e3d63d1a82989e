use ptwebhook::template::{
    FieldDefinition, LoadEntry, Template, TemplateStore, WebhookSettings,
};

fn field(label: &str, default_value: Option<&str>) -> FieldDefinition {
    FieldDefinition {
        kind: String::from("text"),
        label: String::from(label),
        placeholder: None,
        required: None,
        options: None,
        default_value: default_value.map(String::from),
    }
}

fn template(id: &str, keys: &[&str]) -> Template {
    Template {
        id: String::from(id),
        name: format!("{} name", id),
        description: String::from("a template"),
        fields: keys
            .iter()
            .map(|k| (String::from(*k), field(k, None)))
            .collect(),
        webhook: WebhookSettings { username: None, avatar_url: None, color: None },
    }
}

#[test]
fn build_keeps_parsed_templates_in_order() {
    let entries = vec![
        LoadEntry::Parsed(template("alpha", &["one", "two"])),
        LoadEntry::Malformed(String::from("broken")),
        LoadEntry::Parsed(template("beta", &["solo"])),
    ];
    let store = TemplateStore::build(entries);
    assert_eq!(store.len(), 2);
    assert_eq!(store.get(0).id, "alpha");
    assert_eq!(store.get(1).id, "beta");
    assert_eq!(store.diagnostics, vec![String::from("broken")]);
}

#[test]
fn build_skips_duplicate_keys_with_diagnostic() {
    let entries = vec![
        LoadEntry::Parsed(template("dup", &["same", "same"])),
        LoadEntry::Parsed(template("fine", &["a"])),
    ];
    let store = TemplateStore::build(entries);
    assert_eq!(store.len(), 1);
    assert_eq!(store.get(0).id, "fine");
    assert_eq!(store.diagnostics, vec![String::from("dup")]);
}

#[test]
fn build_of_nothing_is_empty_store() {
    let store = TemplateStore::build(Vec::new());
    assert_eq!(store.len(), 0);
    assert!(store.is_empty());
    assert!(store.diagnostics.is_empty());
}

#[test]
fn field_order_stable_across_repeated_loads() {
    let make = || {
        vec![
            LoadEntry::Parsed(template("t", &["first", "second", "third"])),
        ]
    };
    let a = TemplateStore::build(make());
    let b = TemplateStore::build(make());
    let keys_a: Vec<&String> = a.get(0).fields.iter().map(|(k, _)| k).collect();
    let keys_b: Vec<&String> = b.get(0).fields.iter().map(|(k, _)| k).collect();
    assert_eq!(keys_a, keys_b);
    assert_eq!(keys_a, vec!["first", "second", "third"]);
}

#[test]
fn field_index_finds_declared_key() {
    let t = template("t", &["first", "second"]);
    assert_eq!(t.field_index(&String::from("second")), Some(1));
    assert_eq!(t.field_index(&String::from("absent")), None);
}

#[test]
fn keys_distinct_detects_duplicates() {
    assert!(template("t", &["a", "b"]).keys_distinct());
    assert!(!template("t", &["a", "a"]).keys_distinct());
}
