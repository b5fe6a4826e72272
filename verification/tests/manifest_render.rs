use fam::Manifest;
use fam::render_raw_json;
use fam::render_raw_toml;

fn bare_struct(appid: &str, apptype: &str) -> Manifest {
    Manifest::Struct {
        name: None,
        appid: appid.to_string(),
        apptype: apptype.to_string(),
        stack_size: None,
        icon: None,
        entry_point: None,
        flags: Vec::new(),
        cdefines: Vec::new(),
        requires_list: Vec::new(),
        conflicts: Vec::new(),
        provides: Vec::new(),
        order: None,
        sdk_headers: Vec::new(),
        sources: Vec::new(),
        fap_version: None,
        fap_icon: None,
        fap_libs: Vec::new(),
        fap_category: None,
        fap_description: None,
        fap_author: None,
        fap_weburl: None,
    }
}

fn header() -> String {
    "App(\n\t# Automatically generated by `fam` crate.\n".to_string()
}

fn json(s: &str) -> serde_json::Value {
    serde_json::from_str(s).unwrap()
}

fn toml_value(s: &str) -> toml::Value {
    toml::from_str(s).unwrap()
}

#[test]
fn minimal_struct_renders_bare_block() {
    let m = bare_struct("hello", "APP");
    let out = m.try_to_string().unwrap();
    let expected = header() + "\tappid=\"hello\",\n\tapptype=APP,\n)\n";
    assert_eq!(out, expected);
}

#[test]
fn full_struct_renders_every_clause_in_order() {
    let m = Manifest::Struct {
        name: Some("Hello".to_string()),
        appid: "hello".to_string(),
        apptype: "APP".to_string(),
        stack_size: Some(1024),
        icon: Some("icon".to_string()),
        entry_point: Some("main".to_string()),
        flags: vec!["f1".to_string()],
        cdefines: vec!["D1".to_string(), "D2".to_string()],
        requires_list: vec!["r1".to_string()],
        conflicts: vec!["c1".to_string()],
        provides: vec!["p1".to_string()],
        order: Some(-3),
        sdk_headers: vec!["h.h".to_string()],
        sources: vec!["*.c".to_string(), "*.cpp".to_string()],
        fap_version: Some(("0".to_string(), "1".to_string())),
        fap_icon: Some("i.png".to_string()),
        fap_libs: vec!["lib1".to_string()],
        fap_category: Some("Tools".to_string()),
        fap_description: Some("desc".to_string()),
        fap_author: Some("me".to_string()),
        fap_weburl: Some("https://example.com".to_string()),
    };
    let expected = header()
        + "\tappid=\"hello\",\n"
        + "\tapptype=APP,\n"
        + "\tname=\"Hello\", \n"
        + "\tstack_size=1024, \n"
        + "\ticon=\"icon\", \n"
        + "\tentry_point=\"main\", \n"
        + "\torder=-3, \n"
        + "\tsources=[\"*.c\", \"*.cpp\"], \n"
        + "\tflags=[\"f1\"], \n"
        + "\tcdefines=[\"D1\", \"D2\"], \n"
        + "\trequires=[\"r1\"], \n"
        + "\tconflicts=[\"c1\"], \n"
        + "\tprovides=[\"p1\"], \n"
        + "\tsdk_headers=[\"h.h\"], \n"
        + "\tfap_libs=[\"lib1\"], \n"
        + "\tfap_version=(0,1), \n"
        + "\tfap_icon=\"i.png\", \n"
        + "\tfap_category=\"Tools\", \n"
        + "\tfap_description=\"desc\", \n"
        + "\tfap_author=\"me\", \n"
        + "\tfap_weburl=\"https://example.com\", \n"
        + ")\n";
    assert_eq!(m.try_to_string().unwrap(), expected);
}

#[test]
fn render_is_idempotent_on_full_struct() {
    let m = Manifest::Struct {
        name: Some("N".to_string()),
        appid: "a".to_string(),
        apptype: "SERVICE".to_string(),
        stack_size: Some(2048),
        icon: Some("i".to_string()),
        entry_point: Some("e".to_string()),
        flags: vec!["x".to_string()],
        cdefines: vec!["y".to_string()],
        requires_list: vec!["z".to_string()],
        conflicts: vec!["w".to_string()],
        provides: vec!["v".to_string()],
        order: Some(7),
        sdk_headers: vec!["s.h".to_string()],
        sources: vec!["*.c".to_string()],
        fap_version: Some(("1".to_string(), "2".to_string())),
        fap_icon: Some("p".to_string()),
        fap_libs: vec!["l".to_string()],
        fap_category: Some("c".to_string()),
        fap_description: Some("d".to_string()),
        fap_author: Some("a".to_string()),
        fap_weburl: Some("u".to_string()),
    };
    let first = m.try_to_string().unwrap();
    let second = m.try_to_string().unwrap();
    assert_eq!(first, second);
}

#[test]
fn json_sources_clause_only() {
    let m = Manifest::from(json(r#"{"appid":"x","apptype":"APP","sources":["*.c"]}"#));
    let out = m.try_to_string().unwrap();
    let expected = header() + "\tappid=\"x\",\n\tapptype=APP,\n\tsources=[\"*.c\"], \n)\n";
    assert_eq!(out, expected);
}

#[test]
fn json_version_arity_mismatch_is_omitted() {
    let m = Manifest::from(json(r#"{"appid":"x","apptype":"APP","fap_version":["1","0","0"]}"#));
    let out = m.try_to_string().unwrap();
    assert!(!out.contains("fap_version"));
    assert_eq!(out, header() + "\tappid=\"x\",\n\tapptype=APP,\n)\n");
}

#[test]
fn json_version_pair_renders_unquoted() {
    let m = Manifest::from(json(r#"{"appid":"x","apptype":"APP","fap_version":["1","0"]}"#));
    let out = m.try_to_string().unwrap();
    assert!(out.contains("\tfap_version=(1,0), \n"));
}

#[test]
fn cross_encoding_equivalence() {
    let s = Manifest::Struct {
        name: Some("Demo".to_string()),
        appid: "demo".to_string(),
        apptype: "PLUGIN".to_string(),
        stack_size: Some(512),
        icon: None,
        entry_point: None,
        flags: Vec::new(),
        cdefines: Vec::new(),
        requires_list: Vec::new(),
        conflicts: Vec::new(),
        provides: Vec::new(),
        order: None,
        sdk_headers: Vec::new(),
        sources: vec!["*.c".to_string()],
        fap_version: Some(("2".to_string(), "5".to_string())),
        fap_icon: None,
        fap_libs: Vec::new(),
        fap_category: None,
        fap_description: None,
        fap_author: None,
        fap_weburl: None,
    };
    let j = Manifest::from(json(
        r#"{"appid":"demo","apptype":"PLUGIN","name":"Demo","stack_size":512,
            "sources":["*.c"],"fap_version":["2","5"]}"#,
    ));
    let t = Manifest::from(toml_value(
        "appid = \"demo\"\napptype = \"PLUGIN\"\nname = \"Demo\"\nstack_size = 512\nsources = [\"*.c\"]\nfap_version = [\"2\", \"5\"]\n",
    ));
    let from_struct = s.try_to_string().unwrap();
    let from_json = j.try_to_string().unwrap();
    let from_toml = t.try_to_string().unwrap();
    assert_eq!(from_struct, from_json);
    assert_eq!(from_struct, from_toml);
}

#[test]
fn empty_sequences_are_never_emitted() {
    let m = Manifest::from(json(r#"{"appid":"x","apptype":"APP","flags":[],"sources":[]}"#));
    let out = m.try_to_string().unwrap();
    assert!(!out.contains("flags"));
    assert!(!out.contains("sources"));
    let s = bare_struct("x", "APP");
    assert_eq!(s.try_to_string().unwrap(), out);
}

#[test]
fn absent_scalars_are_never_emitted() {
    let out = bare_struct("x", "APP").try_to_string().unwrap();
    assert!(!out.contains("name"));
    assert!(!out.contains("icon"));
    assert!(!out.contains("fap_category"));
}

#[test]
fn absent_version_leaves_no_default() {
    let out = bare_struct("x", "APP").try_to_string().unwrap();
    assert!(!out.contains("fap_version"));
    assert!(!out.contains("(0,1)"));
}

#[test]
fn malformed_json_sequence_reads_empty() {
    let m = Manifest::from(json(r#"{"appid":"x","apptype":"APP","sources":"*.c"}"#));
    assert!(m.sources().is_empty());
    let mixed = Manifest::from(json(r#"{"appid":"x","apptype":"APP","sources":["*.c",3]}"#));
    assert!(mixed.sources().is_empty());
}

#[test]
fn render_raw_json_matches_wrapped_manifest() {
    let v = json(r#"{"appid":"x","apptype":"APP","cdefines":["A"]}"#);
    let raw = render_raw_json(&v).unwrap();
    let wrapped = Manifest::from(v).try_to_string().unwrap();
    assert_eq!(raw, wrapped);
    assert!(raw.contains("\tcdefines=[\"A\"], \n"));
}

#[test]
fn render_raw_toml_matches_wrapped_manifest() {
    let v = toml_value("appid = \"t\"\napptype = \"SYSTEM\"\nprovides = [\"p\"]\n");
    let raw = render_raw_toml(&v).unwrap();
    let wrapped = Manifest::from(v).try_to_string().unwrap();
    assert_eq!(raw, wrapped);
    assert!(raw.contains("\tprovides=[\"p\"], \n"));
}

#[test]
fn non_object_json_renders_empty_mandatory_tokens() {
    let v = json(r#"[1,2,3]"#);
    let out = render_raw_json(&v).unwrap();
    assert_eq!(out, header() + "\tappid=\"\",\n\tapptype=,\n)\n");
}

#[test]
fn integer_bounds_render_exactly() {
    let mut m = bare_struct("x", "APP");
    if let Manifest::Struct { stack_size, order, .. } = &mut m {
        *stack_size = Some(u64::MAX);
        *order = Some(i64::MIN);
    }
    let out = m.try_to_string().unwrap();
    assert!(out.contains("\tstack_size=18446744073709551615, \n"));
    assert!(out.contains("\torder=-9223372036854775808, \n"));
}

#[test]
fn zero_values_are_present_and_emitted() {
    let mut m = bare_struct("x", "APP");
    if let Manifest::Struct { stack_size, order, .. } = &mut m {
        *stack_size = Some(0);
        *order = Some(0);
    }
    let out = m.try_to_string().unwrap();
    assert!(out.contains("\tstack_size=0, \n"));
    assert!(out.contains("\torder=0, \n"));
}
