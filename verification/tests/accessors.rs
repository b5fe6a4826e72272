use fam::Manifest;

fn json(s: &str) -> serde_json::Value {
    serde_json::from_str(s).unwrap()
}

fn toml_value(s: &str) -> toml::Value {
    toml::from_str(s).unwrap()
}

#[test]
fn scalar_reads_agree_across_encodings() {
    let j = Manifest::from(json(r#"{"appid":"demo","apptype":"APP","name":"Demo"}"#));
    let t = Manifest::from(toml_value(
        "appid = \"demo\"\napptype = \"APP\"\nname = \"Demo\"\n",
    ));
    assert_eq!(j.appid().as_deref(), Some("demo"));
    assert_eq!(t.appid().as_deref(), Some("demo"));
    assert_eq!(j.apptype().as_deref(), Some("APP"));
    assert_eq!(t.apptype().as_deref(), Some("APP"));
    assert_eq!(j.name().as_deref(), Some("Demo"));
    assert_eq!(t.name().as_deref(), Some("Demo"));
    assert_eq!(j.icon(), None);
    assert_eq!(t.icon(), None);
}

#[test]
fn missing_or_mistyped_scalar_reads_absent() {
    let j = Manifest::from(json(r#"{"apptype":7}"#));
    assert_eq!(j.appid(), None);
    assert_eq!(j.apptype(), None);
    let t = Manifest::from(toml_value("apptype = 7\n"));
    assert_eq!(t.appid(), None);
    assert_eq!(t.apptype(), None);
}

#[test]
fn sequence_reads_agree_across_encodings() {
    let j = Manifest::from(json(r#"{"flags":["a","b"]}"#));
    assert_eq!(j.flags(), vec!["a".to_string(), "b".to_string()]);
    let t = Manifest::from(toml_value("flags = [\"a\", \"b\"]\n"));
    assert_eq!(t.flags(), vec!["a".to_string(), "b".to_string()]);
    assert!(j.cdefines().is_empty());
    assert!(t.cdefines().is_empty());
}

#[test]
fn malformed_toml_sequence_reads_empty() {
    let t = Manifest::from(toml_value("sources = \"*.c\"\n"));
    assert!(t.sources().is_empty());
    let mixed = Manifest::from(toml_value("sources = [\"*.c\", 3]\n"));
    assert!(mixed.sources().is_empty());
}

#[test]
fn version_pair_requires_exact_arity() {
    let two = Manifest::from(toml_value("fap_version = [\"1\", \"0\"]\n"));
    assert_eq!(two.fap_version(), Some(("1".to_string(), "0".to_string())));
    let three = Manifest::from(toml_value("fap_version = [\"1\", \"0\", \"0\"]\n"));
    assert_eq!(three.fap_version(), None);
    let one = Manifest::from(toml_value("fap_version = [\"1\"]\n"));
    assert_eq!(one.fap_version(), None);
    let not_strings = Manifest::from(toml_value("fap_version = [1, 0]\n"));
    assert_eq!(not_strings.fap_version(), None);
}

#[test]
fn integer_reads_fail_soft_on_range_and_type() {
    let j = Manifest::from(json(r#"{"stack_size":4096,"order":-2}"#));
    assert_eq!(j.stack_size(), Some(4096));
    assert_eq!(j.order(), Some(-2));
    let negative = Manifest::from(toml_value("stack_size = -5\norder = -5\n"));
    assert_eq!(negative.stack_size(), None);
    assert_eq!(negative.order(), Some(-5));
    let mistyped = Manifest::from(json(r#"{"stack_size":"big"}"#));
    assert_eq!(mistyped.stack_size(), None);
}

#[test]
fn struct_reads_project_stored_values() {
    let m = Manifest::Struct {
        name: None,
        appid: "unit".to_string(),
        apptype: "DEBUG".to_string(),
        stack_size: Some(256),
        icon: None,
        entry_point: Some("entry".to_string()),
        flags: Vec::new(),
        cdefines: Vec::new(),
        requires_list: vec!["base".to_string()],
        conflicts: Vec::new(),
        provides: Vec::new(),
        order: Some(1),
        sdk_headers: Vec::new(),
        sources: Vec::new(),
        fap_version: Some(("0".to_string(), "1".to_string())),
        fap_icon: None,
        fap_libs: Vec::new(),
        fap_category: None,
        fap_description: None,
        fap_author: None,
        fap_weburl: None,
    };
    assert_eq!(m.appid().as_deref(), Some("unit"));
    assert_eq!(m.apptype().as_deref(), Some("DEBUG"));
    assert_eq!(m.name(), None);
    assert_eq!(m.stack_size(), Some(256));
    assert_eq!(m.entry_point().as_deref(), Some("entry"));
    assert_eq!(m.requires_list(), vec!["base".to_string()]);
    assert_eq!(m.order(), Some(1));
    assert_eq!(m.fap_version(), Some(("0".to_string(), "1".to_string())));
}
