use factorio_server::instance::{BaseMods, InstanceSettings};
use factorio_server::mod_list::{build_mod_list, build_mod_list_json, ModList, ModListMod};
use factorio_server::platform::Platform;
use factorio_server::version::Version;

fn entry(name: &str, enabled: bool) -> ModListMod {
    ModListMod { name: name.to_string(), enabled }
}

fn settings(version: [u16; 3]) -> InstanceSettings {
    InstanceSettings::new("test3".to_string(), Version::from(version), Platform::Linux).unwrap()
}

fn old_engine_with_two_mods() -> InstanceSettings {
    let mut settings = settings([1, 1, 110]);
    settings.add_mod("AutoDeconstruct", Version::from([0, 4, 4]));
    settings.add_mod("RateCalculator", Version::from([3, 2, 7]));
    settings
}

#[test]
fn an_old_engine_lists_the_base_game_and_the_mods() {
    let list = build_mod_list(&old_engine_with_two_mods());
    assert_eq!(
        list.mods,
        vec![entry("base", true), entry("AutoDeconstruct", true), entry("RateCalculator", true)]
    );
}

#[test]
fn an_old_engine_lists_no_shipped_mods_whatever_the_flags() {
    for version in [[0, 17, 79], [1, 0, 0], [1, 1, 110], [1, 65535, 65535]] {
        let mut settings = settings(version);
        settings.with_space_age();
        assert_eq!(build_mod_list(&settings).mods, vec![entry("base", true)]);
    }
}

#[test]
fn a_new_engine_lists_the_shipped_mods_with_their_flags() {
    let mut settings = settings([2, 0, 0]);
    settings.base_mods(BaseMods {
        base: true,
        elevated_rails: false,
        quality: true,
        space_age: true,
    });
    settings.add_mod("flib", Version::from([0, 15, 0]));
    assert_eq!(
        build_mod_list(&settings).mods,
        vec![
            entry("base", true),
            entry("elevated-rails", false),
            entry("quality", true),
            entry("space-age", true),
            entry("flib", true),
        ]
    );
}

#[test]
fn space_age_follows_its_own_flag() {
    let mut settings = settings([2, 0, 28]);
    settings.base_mods(BaseMods {
        base: true,
        elevated_rails: true,
        quality: true,
        space_age: false,
    });
    assert_eq!(
        build_mod_list(&settings).mods,
        vec![
            entry("base", true),
            entry("elevated-rails", true),
            entry("quality", true),
            entry("space-age", false),
        ]
    );
    settings.base_mods(BaseMods {
        base: true,
        elevated_rails: false,
        quality: false,
        space_age: true,
    });
    assert_eq!(build_mod_list(&settings).mods[3], entry("space-age", true));
    assert_eq!(build_mod_list(&settings).mods[2], entry("quality", false));
}

#[test]
fn the_base_game_is_enabled_even_if_the_flag_says_no() {
    for version in [[1, 1, 110], [2, 0, 0]] {
        let mut settings = settings(version);
        settings.base_mods(BaseMods {
            base: false,
            elevated_rails: false,
            quality: false,
            space_age: false,
        });
        assert_eq!(build_mod_list(&settings).mods[0], entry("base", true));
    }
}

#[test]
fn the_file_is_compact_json() {
    assert_eq!(
        build_mod_list_json(&old_engine_with_two_mods()).unwrap(),
        "{\"mods\":[{\"name\":\"base\",\"enabled\":true},{\"name\":\"AutoDeconstruct\",\"enabled\":true},{\"name\":\"RateCalculator\",\"enabled\":true}]}"
    );
}

#[test]
fn render_frames_the_given_literals() {
    let list = ModList { mods: vec![entry("a", true), entry("b", false)] };
    assert_eq!(
        list.render(&vec!["\"a\"".to_string(), "\"b\"".to_string()]),
        "{\"mods\":[{\"name\":\"a\",\"enabled\":true},{\"name\":\"b\",\"enabled\":false}]}"
    );
    assert_eq!(ModList { mods: vec![] }.render(&vec![]), "{\"mods\":[]}");
}

#[test]
fn names_are_escaped_as_json_wants() {
    let list = ModList { mods: vec![entry("a\"b\\c\n", true), entry("grüße", false)] };
    assert_eq!(
        list.to_json().unwrap(),
        "{\"mods\":[{\"name\":\"a\\\"b\\\\c\\n\",\"enabled\":true},{\"name\":\"grüße\",\"enabled\":false}]}"
    );
}

#[test]
fn the_file_reads_back_through_a_json_parser() {
    let mut settings = settings([2, 0, 0]);
    settings.base_mods(BaseMods {
        base: true,
        elevated_rails: false,
        quality: true,
        space_age: true,
    });
    settings.add_mod("we\"ird \\ name", Version::from([1, 0, 0]));
    let list = build_mod_list(&settings);
    let text = build_mod_list_json(&settings).unwrap();
    let value: serde_json::Value = serde_json::from_str(&text).unwrap();
    let object = value.as_object().unwrap();
    assert_eq!(object.len(), 1);
    let mods = object["mods"].as_array().unwrap();
    assert_eq!(mods.len(), list.mods.len());
    for (read, written) in mods.iter().zip(list.mods.iter()) {
        let read = read.as_object().unwrap();
        assert_eq!(read.len(), 2);
        assert_eq!(read["name"].as_str().unwrap(), written.name);
        assert_eq!(read["enabled"].as_bool().unwrap(), written.enabled);
    }
    assert_eq!(mods[0]["name"].as_str(), Some("base"));
    assert_eq!(mods[0]["enabled"].as_bool(), Some(true));
}

#[test]
fn the_same_settings_give_the_same_file() {
    let settings = old_engine_with_two_mods();
    assert_eq!(build_mod_list_json(&settings), build_mod_list_json(&settings));
    assert_eq!(build_mod_list(&settings), build_mod_list(&settings));
}

fn expected_literal(text: &str) -> String {
    let mut literal = String::from("\"");
    for c in text.chars() {
        match c {
            '"' => literal.push_str("\\\""),
            '\\' => literal.push_str("\\\\"),
            '\u{8}' => literal.push_str("\\b"),
            '\t' => literal.push_str("\\t"),
            '\n' => literal.push_str("\\n"),
            '\u{c}' => literal.push_str("\\f"),
            '\r' => literal.push_str("\\r"),
            c if (c as u32) < 0x20 => literal.push_str(&format!("\\u00{:02x}", c as u32)),
            c => literal.push(c),
        }
    }
    literal.push('"');
    literal
}

#[test]
fn every_character_is_written_as_json_wants() {
    let mut names: Vec<String> = (0u32..0x250).filter_map(char::from_u32).map(String::from).collect();
    names.push("\u{1f}\u{20}\u{7f}\u{80}".to_string());
    names.push("a\u{0}b\u{b}c\u{1b}\u{e}\u{1a}".to_string());
    names.push("grüße 日本語 \u{1F600}".to_string());
    names.push(String::new());
    for name in names {
        let list = ModList { mods: vec![entry(&name, true)] };
        assert_eq!(
            list.to_json().unwrap(),
            format!("{{\"mods\":[{{\"name\":{},\"enabled\":true}}]}}", expected_literal(&name)),
            "{name:?}"
        );
    }
}

#[test]
fn control_characters_are_written_with_lowercase_hex() {
    let list = ModList { mods: vec![entry("\u{1}\u{b}\u{1f}\u{8}\u{c}", false)] };
    assert_eq!(
        list.to_json().unwrap(),
        "{\"mods\":[{\"name\":\"\\u0001\\u000b\\u001f\\b\\f\",\"enabled\":false}]}"
    );
}

#[test]
fn the_mod_list_file_is_always_there() {
    for version in [[0, 0, 0], [1, 1, 110], [2, 0, 0], [65535, 65535, 65535]] {
        let mut settings = settings(version);
        settings.add_mod("", Version::from([0, 0, 0]));
        settings.add_mod("\u{0}\"\\", Version::from([0, 0, 0]));
        assert!(build_mod_list_json(&settings).is_ok());
        assert!(build_mod_list(&settings).to_json().is_ok());
    }
}
