use articuelate::theme::{font_weight_from_name, hex_to_color, weight_of_lowercase_name};

#[test]
fn hex_colours_with_or_without_hash() {
    assert_eq!(hex_to_color("#18192a"), Ok((0x18, 0x19, 0x2a)));
    assert_eq!(hex_to_color("18192A"), Ok((0x18, 0x19, 0x2a)));
    assert_eq!(hex_to_color("  ##ffFFff \n"), Ok((255, 255, 255)));
    assert_eq!(hex_to_color("000000"), Ok((0, 0, 0)));
}

#[test]
fn hex_fields_take_a_plus_sign() {
    assert_eq!(hex_to_color("+f+f+f"), Ok((15, 15, 15)));
}

#[test]
fn hex_colours_of_the_wrong_length_are_refused() {
    assert_eq!(hex_to_color("12345"), Err("invalid hex colour `12345`".to_string()));
    assert_eq!(hex_to_color("#1234567"), Err("invalid hex colour `1234567`".to_string()));
    assert_eq!(hex_to_color("   "), Err("invalid hex colour ``".to_string()));
}

#[test]
fn hex_colours_with_bad_digits_are_refused() {
    assert_eq!(hex_to_color("gg0000"), Err("invalid hex colour `gg0000`".to_string()));
    assert_eq!(hex_to_color("# 12345"), Err("invalid hex colour ` 12345`".to_string()));
    assert_eq!(hex_to_color("-f0000"), Err("invalid hex colour `-f0000`".to_string()));
}

#[test]
fn weights_of_lowercase_names() {
    assert_eq!(weight_of_lowercase_name("semi bold"), Some(600));
    assert_eq!(weight_of_lowercase_name("extra bold"), Some(800));
    assert_eq!(weight_of_lowercase_name("Bold"), None);
    assert_eq!(weight_of_lowercase_name(""), None);
}

#[test]
fn weights_by_name_ignore_case() {
    assert_eq!(font_weight_from_name("Thin"), Some(100));
    assert_eq!(font_weight_from_name("extra light"), Some(200));
    assert_eq!(font_weight_from_name("ExtraLight"), Some(200));
    assert_eq!(font_weight_from_name("light"), Some(300));
    assert_eq!(font_weight_from_name("Regular"), Some(400));
    assert_eq!(font_weight_from_name("NORMAL"), Some(400));
    assert_eq!(font_weight_from_name("medium"), Some(500));
    assert_eq!(font_weight_from_name("SEMI BOLD"), Some(600));
    assert_eq!(font_weight_from_name("Bold"), Some(700));
    assert_eq!(font_weight_from_name("extrabold"), Some(800));
    assert_eq!(font_weight_from_name("Black"), Some(900));
    assert_eq!(font_weight_from_name("heavy"), None);
    assert_eq!(font_weight_from_name(" bold"), None);
}

use articuelate::theme::{is_well_formed, merge_tables, merge_theme_files, ThemeTable, ThemeValue};

fn leaf(key: &str, v: i64) -> (String, ThemeValue<i64>) {
    (key.to_string(), ThemeValue::Other(v))
}

fn table(key: &str, entries: Vec<(String, ThemeValue<i64>)>) -> (String, ThemeValue<i64>) {
    (key.to_string(), ThemeValue::Table(ThemeTable { entries }))
}

fn get<'a>(t: &'a ThemeTable<i64>, key: &str) -> Option<&'a ThemeValue<i64>> {
    t.entries.iter().find(|(k, _)| k == key).map(|(_, v)| v)
}

fn nested<'a>(t: &'a ThemeTable<i64>, key: &str) -> &'a ThemeTable<i64> {
    match get(t, key) {
        Some(ThemeValue::Table(s)) => s,
        other => panic!("expected a table under {key}, found {other:?}"),
    }
}

#[test]
fn merge_overwrites_values_and_merges_tables() {
    let mut base = ThemeTable {
        entries: vec![
            table("color", vec![leaf("bg", 1), leaf("fg", 2)]),
            leaf("size", 3),
            leaf("kept", 4),
        ],
    };
    let overlay = ThemeTable {
        entries: vec![
            table("color", vec![leaf("fg", 5), leaf("accent", 6)]),
            table("size", vec![leaf("x", 7)]),
            leaf("new", 8),
        ],
    };
    merge_tables(&mut base, overlay);
    let color = nested(&base, "color");
    assert_eq!(get(color, "bg"), Some(&ThemeValue::Other(1)));
    assert_eq!(get(color, "fg"), Some(&ThemeValue::Other(5)));
    assert_eq!(get(color, "accent"), Some(&ThemeValue::Other(6)));
    assert_eq!(get(nested(&base, "size"), "x"), Some(&ThemeValue::Other(7)));
    assert_eq!(get(&base, "kept"), Some(&ThemeValue::Other(4)));
    assert_eq!(get(&base, "new"), Some(&ThemeValue::Other(8)));
    assert_eq!(base.entries.len(), 4);
}

#[test]
fn a_value_replaces_a_table() {
    let mut base = ThemeTable { entries: vec![table("font", vec![leaf("size", 12)])] };
    merge_tables(&mut base, ThemeTable { entries: vec![leaf("font", 9)] });
    assert_eq!(base.entries, vec![leaf("font", 9)]);
}

#[test]
fn later_theme_files_override_earlier_ones() {
    let files = vec![
        ThemeTable { entries: vec![table("color", vec![leaf("bg", 1), leaf("fg", 2)]), leaf("dim", 10)] },
        ThemeTable { entries: vec![table("color", vec![leaf("bg", 3)])] },
        ThemeTable { entries: vec![leaf("dim", 20)] },
    ];
    let merged = merge_theme_files(files);
    let color = nested(&merged, "color");
    assert_eq!(get(color, "bg"), Some(&ThemeValue::Other(3)));
    assert_eq!(get(color, "fg"), Some(&ThemeValue::Other(2)));
    assert_eq!(get(&merged, "dim"), Some(&ThemeValue::Other(20)));
    assert_eq!(merge_theme_files::<i64>(vec![]).entries, vec![]);
}

#[test]
fn duplicate_keys_are_detected_at_any_depth() {
    let good = ThemeTable { entries: vec![table("a", vec![leaf("x", 1)]), leaf("b", 2)] };
    assert!(is_well_formed(&good));
    let top = ThemeTable { entries: vec![leaf("a", 1), leaf("a", 2)] };
    assert!(!is_well_formed(&top));
    let deep = ThemeTable { entries: vec![table("a", vec![leaf("x", 1), leaf("x", 2)])] };
    assert!(!is_well_formed(&deep));
}

use articuelate::theme::{merge_theme_texts, merged_theme_text};

fn texts(parts: &[&str]) -> Vec<String> {
    parts.iter().map(|p| p.to_string()).collect()
}

#[test]
fn theme_texts_merge_section_by_section() {
    let files = texts(&[
        "[color]\nbg_app = \"#181926\"\ntext_primary = \"#cad3f5\"\n\n[dim]\nspace_xs = 4.0\n",
        "[color]\nbg_app = \"#000000\"\n",
    ]);
    let merged = merged_theme_text(files).expect("both files are TOML");
    let table: toml::Table = toml::from_str(&merged).expect("merged text is TOML");
    let color = table["color"].as_table().unwrap();
    assert_eq!(color["bg_app"].as_str(), Some("#000000"));
    assert_eq!(color["text_primary"].as_str(), Some("#cad3f5"));
    assert_eq!(table["dim"].as_table().unwrap()["space_xs"].as_float(), Some(4.0));
}

#[test]
fn an_unreadable_theme_text_fails_the_merge() {
    assert!(merge_theme_texts(texts(&["[color]\nbg = 1\n", "this is = = not toml"])).is_none());
    assert!(merged_theme_text(texts(&["[[["])).is_none());
    let merged = merge_theme_texts(texts(&["a = 1\n", "b = 2\n"])).unwrap();
    assert_eq!(merged.entries.len(), 2);
    assert_eq!(merge_theme_texts(vec![]).unwrap().entries.len(), 0);
}
