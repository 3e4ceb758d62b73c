//! The file format: which JSON document stands for which settings.
//!
//! A settings file is one JSON object. Its members `Nohurtcam`, `Nofog`,
//! `particles_disabler`, `java_clouds`, `java_cubemap` and `classic_skins`
//! are booleans; `custom_rpp` is an array of objects with the string members
//! `apk` and `rp`. Every one of them must be there; members under other keys
//! are ignored.

use vstd::prelude::*;
use serde_json::Value;
use crate::config::{rpp_models, ConfigModel, CustomRpp, ModConfig, RppModel};
use crate::json::{
    array_value, bool_value, distinct_keys, item_trees, json_parse, json_pretty, member,
    member_trees, object_value, parse_value, pretty_text, text_value, value_tree, JsonTree,
};

verus! {

/// Why a text is no settings file.
#[derive(Debug, Clone, Copy, PartialEq, Eq)]
pub enum FormatError {
    /// The text is not a JSON document.
    Malformed,
    /// The document is no object, lacks a member, or has a member of the
    /// wrong kind.
    Mismatch,
}

/// The boolean under `key` of an object.
pub open spec fn flag_of(tree: JsonTree, key: Seq<char>) -> Option<bool> {
    match tree {
        JsonTree::Object(members) => if members.contains_key(key) {
            match members[key] {
                JsonTree::Bool(b) => Some(b),
                _ => None,
            }
        } else {
            None
        },
        _ => None,
    }
}

/// The string under `key` of an object.
pub open spec fn text_of(tree: JsonTree, key: Seq<char>) -> Option<Seq<char>> {
    match tree {
        JsonTree::Object(members) => if members.contains_key(key) {
            match members[key] {
                JsonTree::Text(chars) => Some(chars),
                _ => None,
            }
        } else {
            None
        },
        _ => None,
    }
}

/// The items of the array under `key` of an object.
pub open spec fn list_of(tree: JsonTree, key: Seq<char>) -> Option<Seq<JsonTree>> {
    match tree {
        JsonTree::Object(members) => if members.contains_key(key) {
            match members[key] {
                JsonTree::Array(items) => Some(items),
                _ => None,
            }
        } else {
            None
        },
        _ => None,
    }
}

/// The override that a document stands for, if it stands for one.
pub open spec fn rpp_of(tree: JsonTree) -> Option<RppModel> {
    if text_of(tree, "apk"@) is Some && text_of(tree, "rp"@) is Some {
        Some(RppModel { apk: text_of(tree, "apk"@).unwrap(), rp: text_of(tree, "rp"@).unwrap() })
    } else {
        None
    }
}

/// The overrides that a list of documents stands for, if each stands for one.
pub open spec fn rpps_of(items: Seq<JsonTree>) -> Option<Seq<RppModel>> {
    if forall|i: int| 0 <= i < items.len() ==> (#[trigger] rpp_of(items[i])) is Some {
        Some(items.map_values(|t: JsonTree| rpp_of(t).unwrap()))
    } else {
        None
    }
}

/// The settings that a document stands for, if it stands for any.
pub open spec fn config_of(tree: JsonTree) -> Option<ConfigModel> {
    if flag_of(tree, "Nohurtcam"@) is Some
        && flag_of(tree, "Nofog"@) is Some
        && flag_of(tree, "particles_disabler"@) is Some
        && flag_of(tree, "java_clouds"@) is Some
        && flag_of(tree, "java_cubemap"@) is Some
        && flag_of(tree, "classic_skins"@) is Some
        && list_of(tree, "custom_rpp"@) is Some
        && rpps_of(list_of(tree, "custom_rpp"@).unwrap()) is Some
    {
        Some(
            ConfigModel {
                no_hurt_cam: flag_of(tree, "Nohurtcam"@).unwrap(),
                no_fog: flag_of(tree, "Nofog"@).unwrap(),
                particles_disabler: flag_of(tree, "particles_disabler"@).unwrap(),
                java_clouds: flag_of(tree, "java_clouds"@).unwrap(),
                java_cubemap: flag_of(tree, "java_cubemap"@).unwrap(),
                classic_skins: flag_of(tree, "classic_skins"@).unwrap(),
                custom_rpp: rpps_of(list_of(tree, "custom_rpp"@).unwrap()).unwrap(),
            },
        )
    } else {
        None
    }
}

/// The document written for an override.
pub open spec fn rpp_tree(rpp: RppModel) -> JsonTree {
    JsonTree::Object(
        Map::empty().insert("apk"@, JsonTree::Text(rpp.apk)).insert("rp"@, JsonTree::Text(rpp.rp)),
    )
}

/// The documents written for a list of overrides, in order.
pub open spec fn rpp_trees(rpps: Seq<RppModel>) -> Seq<JsonTree> {
    rpps.map_values(|rpp: RppModel| rpp_tree(rpp))
}

/// The document written for the settings.
pub open spec fn config_tree(config: ConfigModel) -> JsonTree {
    JsonTree::Object(
        Map::empty().insert("Nohurtcam"@, JsonTree::Bool(config.no_hurt_cam)).insert(
            "Nofog"@,
            JsonTree::Bool(config.no_fog),
        ).insert("particles_disabler"@, JsonTree::Bool(config.particles_disabler)).insert(
            "java_clouds"@,
            JsonTree::Bool(config.java_clouds),
        ).insert("java_cubemap"@, JsonTree::Bool(config.java_cubemap)).insert(
            "classic_skins"@,
            JsonTree::Bool(config.classic_skins),
        ).insert(
            "custom_rpp"@,
            JsonTree::Array(rpp_trees(config.custom_rpp)),
        ),
    )
}

/// What reading a text as a settings file gives.
pub open spec fn config_of_text(text: Seq<char>) -> Result<ConfigModel, FormatError> {
    match json_parse(text) {
        None => Err(FormatError::Malformed),
        Some(tree) => match config_of(tree) {
            None => Err(FormatError::Mismatch),
            Some(config) => Ok(config),
        },
    }
}

/// The text of the settings file written for the settings, where the JSON
/// writer produces one.
pub open spec fn text_of_config(config: ConfigModel) -> Option<Seq<char>> {
    json_pretty(config_tree(config))
}

/// The keys of a settings file differ from each other, and so do the two keys
/// of an override: no two have the same length.
proof fn keys_differ()
    ensures
        "Nohurtcam"@.len() == 9,
        "Nofog"@.len() == 5,
        "particles_disabler"@.len() == 18,
        "java_clouds"@.len() == 11,
        "java_cubemap"@.len() == 12,
        "classic_skins"@.len() == 13,
        "custom_rpp"@.len() == 10,
        "apk"@.len() == 3,
        "rp"@.len() == 2,
{
    reveal_strlit("Nohurtcam");
    reveal_strlit("Nofog");
    reveal_strlit("particles_disabler");
    reveal_strlit("java_clouds");
    reveal_strlit("java_cubemap");
    reveal_strlit("classic_skins");
    reveal_strlit("custom_rpp");
    reveal_strlit("apk");
    reveal_strlit("rp");
}

/// Adding a member at the end of a list adds it to the object.
proof fn member_added(before: Seq<(String, Value)>, after: Seq<(String, Value)>)
    requires
        after.len() > 0,
        after.drop_last() =~= before,
    ensures
        member_trees(after) == member_trees(before).insert(
            after.last().0@,
            value_tree(after.last().1),
        ),
{
}

fn flag(v: &Value, key: &str) -> (found: Option<bool>)
    ensures
        found == flag_of(value_tree(*v), key@),
{
    match member(v, key) {
        Some(inner) => inner.as_bool(),
        None => None,
    }
}

fn text(v: &Value, key: &str) -> (found: Option<String>)
    ensures
        match found {
            Some(s) => text_of(value_tree(*v), key@) == Some(s@),
            None => text_of(value_tree(*v), key@) is None,
        },
{
    match member(v, key) {
        Some(inner) => match inner.as_str() {
            Some(s) => Some(s.to_owned()),
            None => None,
        },
        None => None,
    }
}

/// Reads one override from a JSON value.
pub fn decode_rpp(v: &Value) -> (decoded: Option<CustomRpp>)
    ensures
        match decoded {
            Some(rpp) => rpp_of(value_tree(*v)) == Some(rpp@),
            None => rpp_of(value_tree(*v)) is None,
        },
{
    let apk = match text(v, "apk") {
        Some(s) => s,
        None => { return None; },
    };
    let rp = match text(v, "rp") {
        Some(s) => s,
        None => { return None; },
    };
    Some(CustomRpp { apk, rp })
}

/// Reads the overrides from the items of a JSON array: all of them, or none
/// where one item is no override.
pub fn decode_rpps(items: &Vec<Value>) -> (decoded: Option<Vec<CustomRpp>>)
    ensures
        match decoded {
            Some(rpps) => rpps_of(item_trees(items@)) == Some(rpp_models(rpps@)),
            None => rpps_of(item_trees(items@)) is None,
        },
{
    let ghost trees = item_trees(items@);
    let mut rpps: Vec<CustomRpp> = Vec::new();
    let mut i: usize = 0;
    while i < items.len()
        invariant
            i <= items.len(),
            trees == item_trees(items@),
            rpps@.len() == i,
            forall|k: int| 0 <= k < i ==> rpp_of(trees[k]) == Some(#[trigger] rpps@[k]@),
        decreases items.len() - i,
    {
        match decode_rpp(&items[i]) {
            Some(rpp) => {
                rpps.push(rpp);
            },
            None => {
                assert(rpp_of(trees[i as int]) is None);
                return None;
            },
        }
        i = i + 1;
    }
    assert forall|k: int| 0 <= k < trees.len() implies (#[trigger] rpp_of(trees[k])) is Some by {
        assert(rpp_of(trees[k]) == Some(rpps@[k]@));
    }
    assert(rpp_models(rpps@) =~= trees.map_values(|t: JsonTree| rpp_of(t).unwrap()));
    Some(rpps)
}

/// Reads the settings from a JSON value: `Some` exactly where the document is
/// a settings file, and then with the values that the document gives.
pub fn decode_config(v: &Value) -> (decoded: Option<ModConfig>)
    ensures
        match decoded {
            Some(config) => config_of(value_tree(*v)) == Some(config@),
            None => config_of(value_tree(*v)) is None,
        },
{
    let no_hurt_cam = match flag(v, "Nohurtcam") {
        Some(b) => b,
        None => { return None; },
    };
    let no_fog = match flag(v, "Nofog") {
        Some(b) => b,
        None => { return None; },
    };
    let particles_disabler = match flag(v, "particles_disabler") {
        Some(b) => b,
        None => { return None; },
    };
    let java_clouds = match flag(v, "java_clouds") {
        Some(b) => b,
        None => { return None; },
    };
    let java_cubemap = match flag(v, "java_cubemap") {
        Some(b) => b,
        None => { return None; },
    };
    let classic_skins = match flag(v, "classic_skins") {
        Some(b) => b,
        None => { return None; },
    };
    let items = match member(v, "custom_rpp") {
        Some(inner) => match inner.as_array() {
            Some(items) => items,
            None => { return None; },
        },
        None => { return None; },
    };
    let custom_rpp = match decode_rpps(items) {
        Some(rpps) => rpps,
        None => { return None; },
    };
    Some(
        ModConfig {
            no_hurt_cam,
            no_fog,
            particles_disabler,
            java_clouds,
            java_cubemap,
            classic_skins,
            custom_rpp,
        },
    )
}

/// Reads a settings file from its text.
pub fn parse_config(text: &str) -> (parsed: Result<ModConfig, FormatError>)
    ensures
        match parsed {
            Ok(config) => config_of_text(text@) matches Ok(model) && model == config@,
            Err(e) => config_of_text(text@) matches Err(why) && why == e,
        },
{
    match parse_value(text) {
        Ok(v) => match decode_config(&v) {
            Some(config) => Ok(config),
            None => Err(FormatError::Mismatch),
        },
        Err(_) => Err(FormatError::Malformed),
    }
}

/// Writes one override as a JSON value.
pub fn encode_rpp(rpp: &CustomRpp) -> (v: Value)
    ensures
        value_tree(v) == rpp_tree(rpp@),
{
    let mut members: Vec<(String, Value)> = Vec::new();
    let ghost m0 = members@;
    members.push(("apk".to_owned(), text_value(rpp.apk.clone())));
    let ghost m1 = members@;
    members.push(("rp".to_owned(), text_value(rpp.rp.clone())));
    proof {
        keys_differ();
        member_added(m0, m1);
        member_added(m1, members@);
    }
    object_value(members)
}

/// Writes the overrides as JSON values, in order.
pub fn encode_rpps(rpps: &Vec<CustomRpp>) -> (items: Vec<Value>)
    ensures
        item_trees(items@) == rpp_trees(rpp_models(rpps@)),
{
    let mut items: Vec<Value> = Vec::new();
    let mut i: usize = 0;
    while i < rpps.len()
        invariant
            i <= rpps.len(),
            items@.len() == i,
            forall|k: int| 0 <= k < i ==> value_tree(#[trigger] items@[k]) == rpp_tree(rpps@[k]@),
        decreases rpps.len() - i,
    {
        items.push(encode_rpp(&rpps[i]));
        i = i + 1;
    }
    assert(item_trees(items@) =~= rpp_trees(rpp_models(rpps@)));
    items
}

/// Writes the settings as a JSON value.
pub fn encode_config(config: &ModConfig) -> (v: Value)
    ensures
        value_tree(v) == config_tree(config@),
{
    let list = array_value(encode_rpps(&config.custom_rpp));
    let mut members: Vec<(String, Value)> = Vec::new();
    let ghost m0 = members@;
    members.push(("Nohurtcam".to_owned(), bool_value(config.no_hurt_cam)));
    let ghost m1 = members@;
    members.push(("Nofog".to_owned(), bool_value(config.no_fog)));
    let ghost m2 = members@;
    members.push(("particles_disabler".to_owned(), bool_value(config.particles_disabler)));
    let ghost m3 = members@;
    members.push(("java_clouds".to_owned(), bool_value(config.java_clouds)));
    let ghost m4 = members@;
    members.push(("java_cubemap".to_owned(), bool_value(config.java_cubemap)));
    let ghost m5 = members@;
    members.push(("classic_skins".to_owned(), bool_value(config.classic_skins)));
    let ghost m6 = members@;
    members.push(("custom_rpp".to_owned(), list));
    proof {
        keys_differ();
        member_added(m0, m1);
        member_added(m1, m2);
        member_added(m2, m3);
        member_added(m3, m4);
        member_added(m4, m5);
        member_added(m5, m6);
        member_added(m6, members@);
    }
    object_value(members)
}

/// Writes the settings file for the settings: its text, or `None` where the
/// JSON writer reports an error.
pub fn render_config(config: &ModConfig) -> (text: Option<String>)
    ensures
        match text {
            Some(s) => text_of_config(config@) == Some(s@),
            None => text_of_config(config@) is None,
        },
{
    let v = encode_config(config);
    match pretty_text(&v) {
        Ok(s) => Some(s),
        Err(_) => None,
    }
}

/// An override is read back from the document written for it.
pub proof fn rpp_round_trip(rpp: RppModel)
    ensures
        rpp_of(rpp_tree(rpp)) == Some(rpp),
{
    keys_differ();
}

/// Settings are read back unchanged from the document written for them.
pub proof fn config_round_trip(config: ConfigModel)
    ensures
        config_of(config_tree(config)) == Some(config),
{
    keys_differ();
    let tree = config_tree(config);
    let items = rpp_trees(config.custom_rpp);
    assert(list_of(tree, "custom_rpp"@) == Some(items));
    assert forall|i: int| 0 <= i < items.len() implies (#[trigger] rpp_of(items[i])) == Some(
        config.custom_rpp[i],
    ) by {
        rpp_round_trip(config.custom_rpp[i]);
    }
    assert(rpps_of(items).unwrap() =~= config.custom_rpp);
}

/// Where the JSON reader gives back the document that was written, the text
/// written for the settings is read back as the same settings.
pub proof fn written_text_reads_back(config: ConfigModel, text: Seq<char>)
    requires
        text_of_config(config) == Some(text),
        json_parse(text) == Some(config_tree(config)),
    ensures
        config_of_text(text) matches Ok(model) && model == config,
{
    config_round_trip(config);
}

/// The keys of the six toggles.
pub open spec fn is_flag_key(key: Seq<char>) -> bool {
    ||| key == "Nohurtcam"@
    ||| key == "Nofog"@
    ||| key == "particles_disabler"@
    ||| key == "java_clouds"@
    ||| key == "java_cubemap"@
    ||| key == "classic_skins"@
}

/// A text that is not JSON is rejected as malformed.
pub proof fn malformed_text_is_rejected(text: Seq<char>)
    requires
        json_parse(text) is None,
    ensures
        config_of_text(text) == Err::<ConfigModel, FormatError>(FormatError::Malformed),
{
}

/// A document that is no object, or in which a toggle is missing or is no
/// boolean, is rejected as a mismatch.
pub proof fn toggle_mismatch_is_rejected(text: Seq<char>, tree: JsonTree, key: Seq<char>)
    requires
        json_parse(text) == Some(tree),
        is_flag_key(key),
        flag_of(tree, key) is None,
    ensures
        config_of_text(text) == Err::<ConfigModel, FormatError>(FormatError::Mismatch),
{
}

/// A document without an array under `custom_rpp`, or with an item there
/// that is no override, is rejected as a mismatch.
pub proof fn override_mismatch_is_rejected(text: Seq<char>, tree: JsonTree, i: int)
    requires
        json_parse(text) == Some(tree),
        list_of(tree, "custom_rpp"@) matches Some(items) ==> 0 <= i < items.len() && rpp_of(
            items[i],
        ) is None,
    ensures
        config_of_text(text) == Err::<ConfigModel, FormatError>(FormatError::Mismatch),
{
}

} // verus!
