use arcanaeum::sktypes::skui_value::{
    convert_plugins_to_skui, plugin_type_from_name, PluginType, SkUIValue, UIValueType,
};

#[test]
fn given_known_native_file_should_return_native_type() {
    let input = "Skyrim.esm".to_string();
    let t = plugin_type_from_name(input);
    assert_eq!(t, PluginType::Native);
}

#[test]
fn given_known_creation_club_file_should_return_creation_club_type() {
    let input = "cceejsse001-hstead.esm".to_string();
    let t = plugin_type_from_name(input);
    assert_eq!(t, PluginType::CreationClub);
}

#[test]
fn given_known_mod_file_should_return_native_type() {
    let input = "TrueStormsSE.esp".to_string();
    let t = plugin_type_from_name(input);
    assert_eq!(t, PluginType::Mod);
}

#[test]
fn every_native_file_is_native() {
    for name in [
        "Skyrim.esm",
        "Update.esm",
        "Dragonborn.esm",
        "HearthFires.esm",
        "Dawnguard.esm",
    ] {
        assert_eq!(plugin_type_from_name(name.to_string()), PluginType::Native);
    }
}

#[test]
fn plugin_names_are_matched_exactly() {
    assert_eq!(plugin_type_from_name("skyrim.esm".to_string()), PluginType::Mod);
    assert_eq!(plugin_type_from_name("Skyrim.esm ".to_string()), PluginType::Mod);
    assert_eq!(plugin_type_from_name("Skyrim.es".to_string()), PluginType::Mod);
    assert_eq!(plugin_type_from_name("".to_string()), PluginType::Mod);
    assert_eq!(plugin_type_from_name("c".to_string()), PluginType::Mod);
    assert_eq!(plugin_type_from_name("Cc.esp".to_string()), PluginType::Mod);
    assert_eq!(plugin_type_from_name("cc".to_string()), PluginType::CreationClub);
    assert_eq!(plugin_type_from_name("ccé.esl".to_string()), PluginType::CreationClub);
    assert_eq!(plugin_type_from_name("écc.esl".to_string()), PluginType::Mod);
}

#[test]
fn new_value_is_sorted_by_its_value() {
    let v = SkUIValue::new("label", "Update.esm".to_string(), UIValueType::Header);
    assert_eq!(v.get_name(), "label");
    assert_eq!(v.get_value_string(), "Update.esm");
    assert_eq!(v.value_type, UIValueType::Header);
    assert_eq!(v.get_value_type(), UIValueType::Header);
    assert_eq!(v.plugin_type, PluginType::Native);
    assert_eq!(v.get_plugin_type(), PluginType::Native);
}

#[test]
fn plugins_are_listed_in_order() {
    let plugins = vec![
        "Skyrim.esm".to_string(),
        "ccbgssse001-fish.esm".to_string(),
        "SkyUI_SE.esp".to_string(),
    ];
    let listed = convert_plugins_to_skui(&plugins);
    assert_eq!(listed.len(), 3);
    let expected = [PluginType::Native, PluginType::CreationClub, PluginType::Mod];
    for i in 0..3 {
        assert_eq!(listed[i].get_name(), plugins[i]);
        assert_eq!(listed[i].get_value_string(), plugins[i]);
        assert_eq!(listed[i].value_type, UIValueType::Plugin);
        assert_eq!(listed[i].plugin_type, expected[i]);
    }
    assert!(convert_plugins_to_skui(&Vec::new()).is_empty());
}
