use jargo::manifest::{Dependency, DependencyDef, DependencyType, JargoToml, ManifestParseError, Package};
use jargo::document::{item_of_value, items_of_table, Item};
use jargo::parse::{duplicate_key, find_item, manifest_from_document, parse_manifest, parse_scope};

const DEMO: &str = r#"
[package]
name = "demo"
version = "1.0"
main = "com.x.Main"

[dependencies]
a = "org:lib:1.0"
b = { value = "org:lib2:2.0", scope = "Runtime" }
"#;

fn demo_package() -> Package {
    Package { name: "demo".to_string(), version: "1.0".to_string(), main: "com.x.Main".to_string() }
}

#[test]
fn parses_the_demo_manifest() {
    let manifest = parse_manifest(DEMO).unwrap();
    let expected = JargoToml {
        package: demo_package(),
        dependencies: vec![
            Dependency { name: "a".to_string(), def: DependencyDef::Simple("org:lib:1.0".to_string()) },
            Dependency {
                name: "b".to_string(),
                def: DependencyDef::Full {
                    value: "org:lib2:2.0".to_string(),
                    scope: Some(DependencyType::Runtime),
                },
            },
        ],
    };
    assert_eq!(manifest, expected);
}

#[test]
fn manifest_without_dependencies_has_an_empty_table() {
    let manifest =
        parse_manifest("[package]\nname = \"n\"\nversion = \"0.1\"\nmain = \"M\"\n").unwrap();
    assert_eq!(manifest.package, Package { name: "n".into(), version: "0.1".into(), main: "M".into() });
    assert!(manifest.dependencies.is_empty());
}

#[test]
fn scoped_dependency_without_scope_is_kept_unscoped() {
    let text = "[package]\nname=\"n\"\nversion=\"1\"\nmain=\"M\"\n[dependencies]\nx = { value = \"g:a:1\" }\n";
    let manifest = parse_manifest(text).unwrap();
    assert_eq!(
        manifest.dependencies,
        vec![Dependency {
            name: "x".into(),
            def: DependencyDef::Full { value: "g:a:1".into(), scope: None }
        }]
    );
}

#[test]
fn compile_scope_is_read() {
    let text = "[package]\nname=\"n\"\nversion=\"1\"\nmain=\"M\"\n[dependencies]\nx = { value = \"g:a:1\", scope = \"Compile\" }\n";
    let manifest = parse_manifest(text).unwrap();
    assert_eq!(
        manifest.dependencies[0].def,
        DependencyDef::Full { value: "g:a:1".into(), scope: Some(DependencyType::Compile) }
    );
}

#[test]
fn unknown_scope_is_rejected() {
    let text = "[package]\nname=\"demo\"\nversion=\"1.0\"\nmain=\"com.x.Main\"\n[dependencies]\nb = { value = \"org:lib2:2.0\", scope = \"Provided\" }\n";
    assert_eq!(
        parse_manifest(text),
        Err(ManifestParseError::UnknownScope { dependency: "b".into(), scope: "Provided".into() })
    );
}

#[test]
fn scope_strings() {
    assert_eq!(parse_scope("Compile"), Some(DependencyType::Compile));
    assert_eq!(parse_scope("Runtime"), Some(DependencyType::Runtime));
    assert_eq!(parse_scope("runtime"), None);
    assert_eq!(parse_scope("Provided"), None);
    assert_eq!(parse_scope(""), None);
}

#[test]
fn missing_package_is_reported() {
    assert_eq!(
        parse_manifest("[dependencies]\na = \"g:a:1\"\n"),
        Err(ManifestParseError::MissingField("package".into()))
    );
}

#[test]
fn missing_package_fields_are_reported_in_order() {
    assert_eq!(
        parse_manifest("[package]\nversion=\"1\"\n"),
        Err(ManifestParseError::MissingField("package.name".into()))
    );
    assert_eq!(
        parse_manifest("[package]\nname=\"n\"\nmain=\"M\"\n"),
        Err(ManifestParseError::MissingField("package.version".into()))
    );
    assert_eq!(
        parse_manifest("[package]\nname=\"n\"\nversion=\"1\"\n"),
        Err(ManifestParseError::MissingField("package.main".into()))
    );
}

#[test]
fn wrong_types_are_reported() {
    assert_eq!(parse_manifest("package = 3\n"), Err(ManifestParseError::WrongType("package".into())));
    assert_eq!(
        parse_manifest("[package]\nname = 1\nversion=\"1\"\nmain=\"M\"\n"),
        Err(ManifestParseError::WrongType("package.name".into()))
    );
    let head = "dependencies = \"x\"\n[package]\nname=\"n\"\nversion=\"1\"\nmain=\"M\"\n";
    assert_eq!(parse_manifest(head), Err(ManifestParseError::WrongType("dependencies".into())));
    let head = "[package]\nname=\"n\"\nversion=\"1\"\nmain=\"M\"\n[dependencies]\n";
    assert_eq!(
        parse_manifest(&format!("{}x = 4\n", head)),
        Err(ManifestParseError::WrongType("dependencies.x".into()))
    );
    assert_eq!(
        parse_manifest(&format!("{}x = {{ value = true }}\n", head)),
        Err(ManifestParseError::WrongType("dependencies.x.value".into()))
    );
    assert_eq!(
        parse_manifest(&format!("{}x = {{ value = \"g:a:1\", scope = 1 }}\n", head)),
        Err(ManifestParseError::WrongType("dependencies.x.scope".into()))
    );
}

#[test]
fn missing_value_is_reported() {
    let text = "[package]\nname=\"n\"\nversion=\"1\"\nmain=\"M\"\n[dependencies]\nx = { scope = \"Runtime\" }\n";
    assert_eq!(parse_manifest(text), Err(ManifestParseError::MissingField("dependencies.x.value".into())));
}

#[test]
fn empty_coordinates_are_rejected() {
    let head = "[package]\nname=\"n\"\nversion=\"1\"\nmain=\"M\"\n[dependencies]\n";
    assert_eq!(
        parse_manifest(&format!("{}x = \"\"\n", head)),
        Err(ManifestParseError::EmptyCoordinate("x".into()))
    );
    assert_eq!(
        parse_manifest(&format!("{}y = {{ value = \"\" }}\n", head)),
        Err(ManifestParseError::EmptyCoordinate("y".into()))
    );
}

#[test]
fn first_faulty_dependency_decides_the_error() {
    let text = "[package]\nname=\"n\"\nversion=\"1\"\nmain=\"M\"\n[dependencies]\na = \"g:a:1\"\nb = 1\nc = \"\"\n";
    assert_eq!(parse_manifest(text), Err(ManifestParseError::WrongType("dependencies.b".into())));
}

#[test]
fn package_is_checked_before_dependencies() {
    let text = "[package]\nname=\"n\"\nversion=\"1\"\n[dependencies]\nb = 1\n";
    assert_eq!(parse_manifest(text), Err(ManifestParseError::MissingField("package.main".into())));
}

#[test]
fn syntax_errors_carry_the_parser_message() {
    match parse_manifest("[package\nname = ") {
        Err(ManifestParseError::Syntax(message)) => assert!(!message.is_empty()),
        other => panic!("expected a syntax error, got {:?}", other),
    }
}

#[test]
fn duplicate_keys_are_a_syntax_error() {
    let text = "[package]\nname=\"n\"\nname=\"m\"\nversion=\"1\"\nmain=\"M\"\n";
    match parse_manifest(text) {
        Err(ManifestParseError::Syntax(message)) => assert!(message.contains("duplicate key")),
        other => panic!("expected a syntax error, got {:?}", other),
    }
}

fn text(s: &str) -> Item {
    Item::Text(s.to_string())
}

fn table(entries: Vec<(&str, Item)>) -> Item {
    Item::Table(entries.into_iter().map(|(k, v)| (k.to_string(), v)).collect())
}

fn document(entries: Vec<(&str, Item)>) -> Vec<(String, Item)> {
    entries.into_iter().map(|(k, v)| (k.to_string(), v)).collect()
}

fn demo_package_table() -> Item {
    table(vec![("name", text("demo")), ("version", text("1.0")), ("main", text("com.x.Main"))])
}

#[test]
fn reads_a_table_built_by_hand() {
    let mut package = toml::Table::new();
    package.insert("name".into(), toml::Value::String("demo".into()));
    package.insert("version".into(), toml::Value::String("1.0".into()));
    package.insert("main".into(), toml::Value::String("com.x.Main".into()));
    let mut doc = toml::Table::new();
    doc.insert("package".into(), toml::Value::Table(package));
    let manifest = manifest_from_document(&items_of_table(&doc)).unwrap();
    assert_eq!(manifest, JargoToml { package: demo_package(), dependencies: vec![] });
}

#[test]
fn tables_are_copied_entry_by_entry() {
    let mut inner = toml::Table::new();
    inner.insert("value".into(), toml::Value::String("g:a:1".into()));
    inner.insert("count".into(), toml::Value::Integer(3));
    inner.insert("list".into(), toml::Value::Array(vec![toml::Value::Boolean(true)]));
    let mut doc = toml::Table::new();
    doc.insert("b".into(), toml::Value::Table(inner));
    doc.insert("a".into(), toml::Value::String("x".into()));
    let items = items_of_table(&doc);
    let mut sorted: Vec<&(String, Item)> = items.iter().collect();
    sorted.sort_by(|l, r| l.0.cmp(&r.0));
    assert_eq!(sorted.len(), 2);
    assert_eq!(*sorted[0], ("a".to_string(), text("x")));
    assert_eq!(sorted[1].0, "b");
    match &sorted[1].1 {
        Item::Table(entries) => {
            assert_eq!(entries.len(), 3);
            assert_eq!(find_item(entries, "value"), Some(&text("g:a:1")));
            assert_eq!(find_item(entries, "count"), Some(&Item::Other));
            assert_eq!(find_item(entries, "list"), Some(&Item::Other));
            assert_eq!(find_item(entries, "none"), None);
        }
        other => panic!("expected a table, got {:?}", other),
    }
}

#[test]
fn values_become_items() {
    assert_eq!(item_of_value(&toml::Value::String("s".into())), text("s"));
    assert_eq!(item_of_value(&toml::Value::Integer(1)), Item::Other);
    assert_eq!(item_of_value(&toml::Value::Boolean(false)), Item::Other);
    assert_eq!(item_of_value(&toml::Value::Array(vec![])), Item::Other);
    assert_eq!(item_of_value(&toml::Value::Table(toml::Table::new())), Item::Table(vec![]));
}

#[test]
fn reads_a_document_written_by_hand() {
    let doc = document(vec![
        ("package", demo_package_table()),
        (
            "dependencies",
            table(vec![
                ("b", table(vec![("value", text("org:lib2:2.0")), ("scope", text("Runtime"))])),
                ("a", text("org:lib:1.0")),
            ]),
        ),
    ]);
    let manifest = manifest_from_document(&doc).unwrap();
    assert_eq!(manifest.package, demo_package());
    assert_eq!(
        manifest.dependencies,
        vec![
            Dependency {
                name: "b".into(),
                def: DependencyDef::Full {
                    value: "org:lib2:2.0".into(),
                    scope: Some(DependencyType::Runtime)
                }
            },
            Dependency { name: "a".into(), def: DependencyDef::Simple("org:lib:1.0".into()) },
        ]
    );
}

#[test]
fn an_empty_document_lacks_the_package() {
    assert_eq!(
        manifest_from_document(&Vec::new()),
        Err(ManifestParseError::MissingField("package".into()))
    );
}

#[test]
fn duplicate_keys_in_a_document_are_rejected() {
    let twice = document(vec![("package", demo_package_table()), ("package", demo_package_table())]);
    assert_eq!(manifest_from_document(&twice), Err(ManifestParseError::DuplicateKey("package".into())));
    let field = document(vec![(
        "package",
        table(vec![("name", text("a")), ("version", text("1")), ("main", text("M")), ("name", text("b"))]),
    )]);
    assert_eq!(
        manifest_from_document(&field),
        Err(ManifestParseError::DuplicateKey("package.name".into()))
    );
    let names = document(vec![
        ("package", demo_package_table()),
        ("dependencies", table(vec![("x", text("g:a:1")), ("y", text("g:b:1")), ("x", text("g:a:2"))])),
    ]);
    assert_eq!(
        manifest_from_document(&names),
        Err(ManifestParseError::DuplicateKey("dependencies.x".into()))
    );
    let inner = document(vec![
        ("package", demo_package_table()),
        ("dependencies", table(vec![("x", table(vec![("value", text("a")), ("value", text("b"))]))])),
    ]);
    assert_eq!(
        manifest_from_document(&inner),
        Err(ManifestParseError::DuplicateKey("dependencies.x.value".into()))
    );
}

#[test]
fn the_first_repeated_key_is_found() {
    let items = document(vec![("a", Item::Other), ("b", Item::Other), ("b", Item::Other), ("a", Item::Other)]);
    assert_eq!(duplicate_key(&items), Some(2));
    assert_eq!(duplicate_key(&document(vec![("a", Item::Other), ("b", Item::Other)])), None);
    assert_eq!(duplicate_key(&Vec::new()), None);
}

#[test]
fn lookup_finds_the_first_entry() {
    let items = document(vec![("a", text("1")), ("b", text("2")), ("a", text("3"))]);
    assert_eq!(find_item(&items, "a"), Some(&text("1")));
    assert_eq!(find_item(&items, "b"), Some(&text("2")));
    assert_eq!(find_item(&items, "c"), None);
}

#[test]
fn unknown_fields_are_ignored() {
    let text = "title = \"x\"\n[package]\nname=\"n\"\nversion=\"1\"\nmain=\"M\"\nlicense=\"MIT\"\n";
    assert!(parse_manifest(text).is_ok());
}
