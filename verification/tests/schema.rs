use modconfig::config::{CustomRpp, ModConfig};
use modconfig::schema::{
    decode_config, decode_rpp, decode_rpps, encode_config, encode_rpp, encode_rpps, parse_config,
    render_config, FormatError,
};
use serde_json::Value;

const FULL: &str = r#"{
    "Nohurtcam": false,
    "Nofog": true,
    "particles_disabler": true,
    "java_clouds": false,
    "java_cubemap": true,
    "classic_skins": false,
    "custom_rpp": [
        { "apk": "assets/skin_packs", "rp": "/sdcard/packs/skins" },
        { "apk": "assets/ui", "rp": "/sdcard/packs/ui" }
    ]
}"#;

fn rpp(apk: &str, rp: &str) -> CustomRpp {
    CustomRpp { apk: apk.to_string(), rp: rp.to_string() }
}

fn sample() -> ModConfig {
    ModConfig {
        no_hurt_cam: false,
        no_fog: true,
        particles_disabler: true,
        java_clouds: false,
        java_cubemap: true,
        classic_skins: false,
        custom_rpp: vec![
            rpp("assets/skin_packs", "/sdcard/packs/skins"),
            rpp("assets/ui", "/sdcard/packs/ui"),
        ],
    }
}

fn without(key: &str) -> String {
    let mut doc: Value = serde_json::from_str(FULL).unwrap();
    doc.as_object_mut().unwrap().remove(key).unwrap();
    doc.to_string()
}

fn with(key: &str, member: Value) -> String {
    let mut doc: Value = serde_json::from_str(FULL).unwrap();
    doc.as_object_mut().unwrap().insert(key.to_string(), member);
    doc.to_string()
}

const KEYS: [&str; 7] = [
    "Nohurtcam",
    "Nofog",
    "particles_disabler",
    "java_clouds",
    "java_cubemap",
    "classic_skins",
    "custom_rpp",
];

#[test]
fn default_switches_off_only_the_hurt_camera() {
    let config = ModConfig::default();
    assert!(config.no_hurt_cam);
    assert!(!config.no_fog);
    assert!(!config.particles_disabler);
    assert!(!config.java_clouds);
    assert!(!config.java_cubemap);
    assert!(!config.classic_skins);
    assert!(config.custom_rpp.is_empty());
}

#[test]
fn parse_reads_every_member() {
    assert_eq!(parse_config(FULL), Ok(sample()));
}

#[test]
fn parse_keeps_the_order_of_the_overrides() {
    let config = parse_config(FULL).unwrap();
    assert_eq!(config.custom_rpp.len(), 2);
    assert_eq!(config.custom_rpp[0].apk, "assets/skin_packs");
    assert_eq!(config.custom_rpp[0].rp, "/sdcard/packs/skins");
    assert_eq!(config.custom_rpp[1].apk, "assets/ui");
    assert_eq!(config.custom_rpp[1].rp, "/sdcard/packs/ui");
}

#[test]
fn parse_reads_a_file_that_differs_from_the_defaults() {
    let text = r#"{"Nohurtcam": false, "particles_disabler": true, "Nofog": false,
        "java_clouds": false, "java_cubemap": false, "classic_skins": false, "custom_rpp": []}"#;
    let config = parse_config(text).unwrap();
    assert!(!config.no_hurt_cam);
    assert!(config.particles_disabler);
    assert!(config.custom_rpp.is_empty());
}

#[test]
fn parse_ignores_members_under_other_keys() {
    let text = with("render_distance", Value::from(12));
    assert_eq!(parse_config(&text), Ok(sample()));
}

#[test]
fn parse_rejects_text_that_is_not_json() {
    assert_eq!(parse_config("{not json"), Err(FormatError::Malformed));
    assert_eq!(parse_config(""), Err(FormatError::Malformed));
    assert_eq!(parse_config("{\"Nohurtcam\": tru"), Err(FormatError::Malformed));
}

#[test]
fn parse_rejects_text_after_the_document() {
    let text = format!("{} x", FULL);
    assert_eq!(parse_config(&text), Err(FormatError::Malformed));
}

#[test]
fn parse_rejects_a_file_that_lacks_a_member() {
    for key in KEYS {
        assert_eq!(parse_config(&without(key)), Err(FormatError::Mismatch), "{}", key);
    }
}

#[test]
fn parse_rejects_the_two_member_format() {
    let text = r#"{"Nohurtcam": true, "particles_disabler": false}"#;
    assert_eq!(parse_config(text), Err(FormatError::Mismatch));
}

#[test]
fn parse_rejects_a_toggle_that_is_no_boolean() {
    for key in &KEYS[..6] {
        for wrong in [Value::from("true"), Value::from(1), Value::Null, Value::Array(vec![])] {
            assert_eq!(parse_config(&with(key, wrong)), Err(FormatError::Mismatch), "{}", key);
        }
    }
}

#[test]
fn parse_rejects_overrides_that_are_no_array() {
    for wrong in [Value::from(false), Value::from("[]"), Value::Null, Value::Object(serde_json::Map::new())] {
        assert_eq!(parse_config(&with("custom_rpp", wrong)), Err(FormatError::Mismatch));
    }
}

#[test]
fn parse_rejects_an_override_that_lacks_a_string() {
    let bad = [
        r#"[{"apk": "a"}]"#,
        r#"[{"rp": "b"}]"#,
        r#"[{"apk": "a", "rp": 7}]"#,
        r#"[{"apk": null, "rp": "b"}]"#,
        r#"[["a", "b"]]"#,
        r#"["a"]"#,
        r#"[{"apk": "a", "rp": "b"}, {}]"#,
    ];
    for items in bad {
        let member: Value = serde_json::from_str(items).unwrap();
        assert_eq!(parse_config(&with("custom_rpp", member)), Err(FormatError::Mismatch), "{}", items);
    }
}

#[test]
fn parse_rejects_a_document_that_is_no_object() {
    for text in ["[]", "true", "null", "3", "\"Nohurtcam\"", "[true, false]"] {
        assert_eq!(parse_config(text), Err(FormatError::Mismatch), "{}", text);
    }
}

#[test]
fn render_writes_the_defaults_as_indented_json() {
    let expected = "{\n  \"Nofog\": false,\n  \"Nohurtcam\": true,\n  \"classic_skins\": false,\n  \"custom_rpp\": [],\n  \"java_clouds\": false,\n  \"java_cubemap\": false,\n  \"particles_disabler\": false\n}";
    assert_eq!(render_config(&ModConfig::default()).unwrap(), expected);
}

#[test]
fn render_writes_the_overrides_in_order() {
    let expected = "{\n  \"Nofog\": true,\n  \"Nohurtcam\": false,\n  \"classic_skins\": false,\n  \"custom_rpp\": [\n    {\n      \"apk\": \"assets/skin_packs\",\n      \"rp\": \"/sdcard/packs/skins\"\n    },\n    {\n      \"apk\": \"assets/ui\",\n      \"rp\": \"/sdcard/packs/ui\"\n    }\n  ],\n  \"java_clouds\": false,\n  \"java_cubemap\": true,\n  \"particles_disabler\": true\n}";
    assert_eq!(render_config(&sample()).unwrap(), expected);
}

#[test]
fn rendered_text_is_read_back_unchanged() {
    let mut odd = sample();
    odd.custom_rpp.push(rpp("quote\" backslash\\ newline\n tab\t", "caf\u{e9} \u{1F600} \u{0}"));
    odd.custom_rpp.push(rpp("", ""));
    for config in [ModConfig::default(), sample(), odd] {
        let text = render_config(&config).unwrap();
        assert_eq!(parse_config(&text), Ok(config));
    }
}

#[test]
fn rendered_text_is_read_back_for_every_choice_of_toggles() {
    for bits in 0u32..64 {
        let config = ModConfig {
            no_hurt_cam: bits & 1 != 0,
            no_fog: bits & 2 != 0,
            particles_disabler: bits & 4 != 0,
            java_clouds: bits & 8 != 0,
            java_cubemap: bits & 16 != 0,
            classic_skins: bits & 32 != 0,
            custom_rpp: vec![],
        };
        let text = render_config(&config).unwrap();
        assert_eq!(parse_config(&text), Ok(config));
    }
}

#[test]
fn read_then_written_then_read_is_the_same() {
    let first = parse_config(FULL).unwrap();
    let second = parse_config(&render_config(&first).unwrap()).unwrap();
    assert_eq!(first, second);
}

#[test]
fn encode_gives_an_object_with_the_seven_members() {
    let doc = encode_config(&sample());
    let members = doc.as_object().unwrap();
    assert_eq!(members.len(), 7);
    assert_eq!(members["Nohurtcam"], Value::Bool(false));
    assert_eq!(members["Nofog"], Value::Bool(true));
    assert_eq!(members["particles_disabler"], Value::Bool(true));
    assert_eq!(members["java_clouds"], Value::Bool(false));
    assert_eq!(members["java_cubemap"], Value::Bool(true));
    assert_eq!(members["classic_skins"], Value::Bool(false));
    let items = members["custom_rpp"].as_array().unwrap();
    assert_eq!(items.len(), 2);
    assert_eq!(items[0]["apk"], Value::String("assets/skin_packs".to_string()));
    assert_eq!(items[1]["rp"], Value::String("/sdcard/packs/ui".to_string()));
}

#[test]
fn encode_agrees_with_the_reader() {
    let expected: Value = serde_json::from_str(FULL).unwrap();
    assert_eq!(encode_config(&sample()), expected);
}

#[test]
fn encode_rpp_gives_an_object_with_two_strings() {
    let doc = encode_rpp(&rpp("a", "b"));
    let members = doc.as_object().unwrap();
    assert_eq!(members.len(), 2);
    assert_eq!(members["apk"], Value::String("a".to_string()));
    assert_eq!(members["rp"], Value::String("b".to_string()));
}

#[test]
fn encode_rpps_keeps_length_and_order() {
    assert!(encode_rpps(&vec![]).is_empty());
    let items = encode_rpps(&vec![rpp("a", "b"), rpp("c", "d")]);
    assert_eq!(items.len(), 2);
    assert_eq!(items[0]["apk"], Value::String("a".to_string()));
    assert_eq!(items[1]["apk"], Value::String("c".to_string()));
}

#[test]
fn decode_reads_a_value_built_by_hand() {
    let mut item = serde_json::Map::new();
    item.insert("apk".to_string(), Value::String("a".to_string()));
    item.insert("rp".to_string(), Value::String("b".to_string()));
    let mut members = serde_json::Map::new();
    for key in &KEYS[..6] {
        members.insert(key.to_string(), Value::Bool(*key == "Nofog"));
    }
    members.insert("custom_rpp".to_string(), Value::Array(vec![Value::Object(item)]));
    let config = decode_config(&Value::Object(members)).unwrap();
    assert!(config.no_fog);
    assert!(!config.no_hurt_cam);
    assert!(!config.particles_disabler);
    assert!(!config.java_clouds);
    assert!(!config.java_cubemap);
    assert!(!config.classic_skins);
    assert_eq!(config.custom_rpp, vec![rpp("a", "b")]);
}

#[test]
fn decode_tells_the_toggles_apart() {
    for on in KEYS[..6].iter() {
        let mut members = serde_json::Map::new();
        for key in &KEYS[..6] {
            members.insert(key.to_string(), Value::Bool(key == on));
        }
        members.insert("custom_rpp".to_string(), Value::Array(vec![]));
        let config = decode_config(&Value::Object(members)).unwrap();
        let got = [
            config.no_hurt_cam,
            config.no_fog,
            config.particles_disabler,
            config.java_clouds,
            config.java_cubemap,
            config.classic_skins,
        ];
        for (i, key) in KEYS[..6].iter().enumerate() {
            assert_eq!(got[i], key == on, "{} {}", on, key);
        }
    }
}

#[test]
fn decode_rejects_what_is_no_settings_document() {
    assert_eq!(decode_config(&Value::Null), None);
    assert_eq!(decode_config(&Value::Object(serde_json::Map::new())), None);
    assert_eq!(decode_config(&Value::Array(vec![Value::Bool(true)])), None);
}

#[test]
fn decode_rpp_needs_both_strings() {
    let good: Value = serde_json::from_str(r#"{"apk": "a", "rp": "b", "note": 1}"#).unwrap();
    assert_eq!(decode_rpp(&good), Some(rpp("a", "b")));
    for text in [r#"{"apk": "a"}"#, r#"{"rp": "b"}"#, r#"{"apk": 1, "rp": "b"}"#, "[]", "\"a\""] {
        let bad: Value = serde_json::from_str(text).unwrap();
        assert_eq!(decode_rpp(&bad), None, "{}", text);
    }
}

#[test]
fn decode_rpps_is_all_or_nothing() {
    let good: Value = serde_json::from_str(r#"{"apk": "a", "rp": "b"}"#).unwrap();
    let other: Value = serde_json::from_str(r#"{"apk": "c", "rp": "d"}"#).unwrap();
    assert_eq!(decode_rpps(&vec![]), Some(vec![]));
    assert_eq!(
        decode_rpps(&vec![good.clone(), other.clone()]),
        Some(vec![rpp("a", "b"), rpp("c", "d")])
    );
    assert_eq!(decode_rpps(&vec![good, Value::Null, other]), None);
}
