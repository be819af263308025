use arcanaeum::mod_search::get_url_for_search;
use arcanaeum::mod_search::vortex_scanner::{
    enabled_plugin, enabled_plugins, is_listed, mod_status, parse_plugin, ModStatus, Plugin,
    PluginFileType, UrlItem, UrlValue,
};

#[test]
fn get_search_result_url() {
    let url = get_url_for_search("cheese grater");
    assert_eq!(url, "https://search.nexusmods.com/mods?terms=cheese%20grater&game_id=1704&blocked_tags=1069&blocked_authors=&include_adult=1".to_string());
}

#[test]
fn search_url_keeps_unreserved_characters() {
    let url = get_url_for_search("SkyUI_SE-5.2~beta.esp");
    assert_eq!(url, "https://search.nexusmods.com/mods?terms=SkyUI_SE-5.2~beta.esp&game_id=1704&blocked_tags=1069&blocked_authors=&include_adult=1");
}

#[test]
fn search_url_encodes_every_other_byte() {
    let url = get_url_for_search("a&b=c/d?é+%");
    assert_eq!(url, "https://search.nexusmods.com/mods?terms=a%26b%3Dc%2Fd%3F%C3%A9%2B%25&game_id=1704&blocked_tags=1069&blocked_authors=&include_adult=1");
    let url = get_url_for_search("");
    assert_eq!(url, "https://search.nexusmods.com/mods?terms=&game_id=1704&blocked_tags=1069&blocked_authors=&include_adult=1");
}

#[test]
fn parse_plugin_keeps_the_plain_addresses_in_order() {
    let entry = PluginFileType {
        name: "Unofficial Skyrim Special Edition Patch.esp".to_string(),
        url: Some(UrlValue::Sequence(vec![
            UrlItem::Text("https://www.nexusmods.com/skyrimspecialedition/mods/266".to_string()),
            UrlItem::Other,
            UrlItem::Text("https://afkmods.com/".to_string()),
            UrlItem::Other,
        ])),
    };
    let plugin = parse_plugin(&entry);
    assert_eq!(plugin.name, "Unofficial Skyrim Special Edition Patch.esp");
    assert_eq!(
        plugin.urls,
        vec![
            "https://www.nexusmods.com/skyrimspecialedition/mods/266",
            "https://afkmods.com/"
        ]
    );
    let copy = plugin.clone();
    assert_eq!(copy.name, plugin.name);
    assert_eq!(copy.urls, plugin.urls);
}

#[test]
fn parse_plugin_without_a_list_has_no_address() {
    let no_url = PluginFileType { name: "a.esp".to_string(), url: None };
    assert!(parse_plugin(&no_url).urls.is_empty());
    assert_eq!(parse_plugin(&no_url).name, "a.esp");
    let other = PluginFileType { name: "b.esp".to_string(), url: Some(UrlValue::Other) };
    assert!(parse_plugin(&other).urls.is_empty());
    let empty = PluginFileType { name: "c.esp".to_string(), url: Some(UrlValue::Sequence(vec![])) };
    assert!(parse_plugin(&empty).urls.is_empty());
    let none_plain = PluginFileType {
        name: "d.esp".to_string(),
        url: Some(UrlValue::Sequence(vec![UrlItem::Other, UrlItem::Other])),
    };
    assert!(parse_plugin(&none_plain).urls.is_empty());
}

#[test]
fn enabled_plugin_is_what_follows_the_star() {
    assert_eq!(enabled_plugin("*SkyUI_SE.esp"), Some("SkyUI_SE.esp".to_string()));
    assert_eq!(enabled_plugin("*"), Some(String::new()));
    assert_eq!(enabled_plugin("**a"), Some("*a".to_string()));
    assert_eq!(enabled_plugin("*é€.esp"), Some("é€.esp".to_string()));
    assert_eq!(enabled_plugin("SkyUI_SE.esp"), None);
    assert_eq!(enabled_plugin(" *SkyUI_SE.esp"), None);
    assert_eq!(enabled_plugin("# comment"), None);
    assert_eq!(enabled_plugin(""), None);
}

#[test]
fn enabled_plugins_keeps_the_order_of_the_lines() {
    let lines: Vec<String> = "# plugins of this profile\n*Unofficial Skyrim Special Edition Patch.esp\nDisabled.esp\n*SkyUI_SE.esp\n\n*RaceMenu.esp"
        .lines()
        .map(|l| l.to_string())
        .collect();
    assert_eq!(
        enabled_plugins(&lines),
        vec!["Unofficial Skyrim Special Edition Patch.esp", "SkyUI_SE.esp", "RaceMenu.esp"]
    );
    assert!(enabled_plugins(&Vec::new()).is_empty());
    assert!(enabled_plugins(&vec!["a".to_string(), "b".to_string()]).is_empty());
}

fn plugin(name: &str, url: &str) -> Plugin {
    Plugin { name: name.to_string(), urls: vec![url.to_string()] }
}

#[test]
fn is_listed_compares_whole_names() {
    let texts = vec!["SkyUI_SE.esp".to_string(), "".to_string()];
    assert!(is_listed(&texts, "SkyUI_SE.esp"));
    assert!(is_listed(&texts, ""));
    assert!(!is_listed(&texts, "SkyUI_SE"));
    assert!(!is_listed(&texts, "skyui_se.esp"));
    assert!(!is_listed(&Vec::new(), ""));
}

#[test]
fn enabled_mod_is_installed_whatever_the_master_list_says() {
    let installed = vec!["RaceMenu.esp".to_string(), "SkyUI_SE.esp".to_string()];
    let master_list = vec![plugin("SkyUI_SE.esp", "https://example.org/skyui")];
    assert_eq!(mod_status("SkyUI_SE.esp", &installed, &master_list), ModStatus::Installed);
    assert_eq!(mod_status("RaceMenu.esp", &installed, &master_list), ModStatus::Installed);
    assert_eq!(mod_status("RaceMenu.esp", &installed, &Vec::new()), ModStatus::Installed);
}

#[test]
fn mod_that_is_not_enabled_is_looked_up_in_the_master_list() {
    let installed = vec!["RaceMenu.esp".to_string()];
    let master_list = vec![
        plugin("SkyUI_SE.esp", "https://example.org/old"),
        plugin("Frostfall.esp", "https://example.org/frostfall"),
        plugin("SkyUI_SE.esp", "https://example.org/new"),
    ];
    // The last entry of a name counts.
    assert_eq!(mod_status("SkyUI_SE.esp", &installed, &master_list), ModStatus::Listed(2));
    assert_eq!(mod_status("Frostfall.esp", &installed, &master_list), ModStatus::Listed(1));
    assert_eq!(mod_status("frostfall.esp", &installed, &master_list), ModStatus::NotFound);
    assert_eq!(mod_status("Unknown.esp", &installed, &master_list), ModStatus::NotFound);
    assert_eq!(mod_status("Unknown.esp", &Vec::new(), &Vec::new()), ModStatus::NotFound);
}
