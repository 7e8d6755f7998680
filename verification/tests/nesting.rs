use pkg_manifest::error::ManifestError;
use pkg_manifest::nesting::within_nesting;
use pkg_manifest::syntax::parse;

fn nested(n: usize) -> String {
    format!("a = {}{}\n", "[".repeat(n), "]".repeat(n))
}

fn dotted(n: usize) -> String {
    format!("[{}]\nx = 1\n", vec!["a"; n + 1].join("."))
}

#[test]
fn ordinary_manifests_are_within_nesting() {
    let text = "[package]\nname = \"foo\" # a [comment [\nversion = \"0.1.0\"\n\n[features]\n";
    let mut text = text.to_string();
    for i in 0..2000 {
        text.push_str(&format!("f{} = [\"dep{}/x.y.z\", 'lit]]]', \"esc\\\"[[[\"]\n", i, i));
    }
    text.push_str("[target.'cfg(all(unix, not(x)))'.dependencies.foo]\nversion = \"1.2.3\"\n");
    text.push_str("description = \"\"\"\nseveral [[[ lines {{{\n\"\"\"\n");
    text.push_str("[[bin]]\nname = 'x'\n");
    assert!(within_nesting(&text));
    assert!(parse(&text, "Cargo.toml").is_ok());
}

#[test]
fn nesting_counts_open_brackets_and_dots() {
    assert!(within_nesting(""));
    assert!(within_nesting(&nested(128)));
    assert!(!within_nesting(&nested(129)));
    assert!(within_nesting(&dotted(63)));
    assert!(!within_nesting(&dotted(64)));
    assert!(within_nesting(&format!("{}{}", dotted(32), nested(64))));
    assert!(!within_nesting(&format!("{}{}", dotted(32), nested(65))));
}

#[test]
fn strings_and_comments_hide_brackets() {
    let many = "[".repeat(500);
    assert!(within_nesting(&format!("a = \"{}\"\n", many)));
    assert!(within_nesting(&format!("a = '{}'\n", many)));
    assert!(within_nesting(&format!("a = 1 # {}\n", many)));
    assert!(within_nesting(&format!("a = \"\"\"\n{}\n\"\"\"\n", many)));
    assert!(within_nesting(&format!("a = '''\n{}\n'''\n", many)));
    assert!(within_nesting(&format!("a = \"x\\\"{}\"\n", many)));
    assert!(within_nesting(&format!("a = \"\"\"\\\"\"\"{}\"\"\"\n", many)));
    assert!(!within_nesting(&format!("a = \"\"{}\n", many)));
    assert!(!within_nesting(&format!("a = 'x'{}\n", many)));
    assert!(!within_nesting(&format!("a = \"x\\\\\"{}\n", many)));
    assert!(!within_nesting(&format!("# c\n{}\n", many)));
    assert!(!within_nesting(&format!("a = '''x'''''{}\n", many)));
    assert!(within_nesting(&format!("a = '''x''''''{}\n", many)));
}

#[test]
fn deeply_nested_text_is_not_parsed() {
    assert!(matches!(parse(&nested(100_000), "Cargo.toml"), Err(ManifestError::TooDeeplyNested)));
    assert!(matches!(parse(&dotted(100_000), "Cargo.toml"), Err(ManifestError::TooDeeplyNested)));
    let err = parse(&nested(129), "Cargo.toml").unwrap_err();
    assert_eq!(err.message(), "could not parse input as TOML: tables or values are nested too deeply");
}

#[test]
fn text_at_the_bound_is_parsed() {
    let (value, _) = parse(&nested(128), "Cargo.toml").unwrap();
    assert!(value["a"].is_array());
    let (value, _) = parse(&dotted(63), "Cargo.toml").unwrap();
    assert!(value["a"].is_table());
    assert!(parse(&format!("{}{}", dotted(32), nested(64)), "Cargo.toml").is_ok());
}
