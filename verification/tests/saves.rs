use arcanaeum::parser::header::{FileTime, Header, Sex};
use arcanaeum::saves::{
    copy_saves, find_character, group_saves_by_character, save_file_to_selectable_item,
    saves_for_selected_char, Character, SaveFile,
};

fn header(player: &str, save_number: u32) -> Header {
    Header {
        version: 12,
        save_number,
        player_name: player.to_string(),
        player_level: 1,
        player_location: "Old Hroldan Inn".to_string(),
        game_date: "000.11.05".to_string(),
        player_race_editor_id: "RedguardRace".to_string(),
        player_sex: Sex::Female,
        player_current_xp: 0,
        player_level_up_xp: 0,
        filetime: FileTime { dw_low: 0, dw_high: 0 },
        screenshot_width: 0,
        screenshot_height: 0,
        compression_type: 2,
    }
}

fn save(file_name: &str, player: Option<&str>) -> SaveFile {
    SaveFile {
        path: format!("C:/Saves/{}", file_name),
        file_name: file_name.to_string(),
        header: player.map(|p| header(p, 1)),
    }
}

fn names(saves: &[SaveFile]) -> Vec<&str> {
    saves.iter().map(|s| s.file_name.as_str()).collect()
}

#[test]
fn header_is_copied_field_for_field() {
    let mut h = header("Aluna Messana", 3);
    h.player_current_xp = 12.5f32.to_bits();
    h.filetime = FileTime { dw_low: 7, dw_high: 9 };
    let copy = h.clone();
    assert_eq!(format!("{:?}", copy), format!("{:?}", h));
}

#[test]
fn saves_are_copied_in_order() {
    let saves = vec![save("a.ess", Some("Aluna")), save("b.ess", None)];
    let copy = copy_saves(&saves);
    assert_eq!(format!("{:?}", copy), format!("{:?}", saves));
    assert!(copy_saves(&Vec::new()).is_empty());
}

#[test]
fn saves_are_grouped_by_player_in_order_of_first_save() {
    let saves = vec![
        save("1.ess", Some("Lydia")),
        save("2.ess", Some("Aluna")),
        save("3.ess", Some("Lydia")),
        save("4.ess", Some("Brynjolf")),
        save("5.ess", Some("Aluna")),
        save("6.ess", Some("Lydia")),
    ];
    let characters = group_saves_by_character(&saves);
    assert_eq!(characters.len(), 3);
    assert_eq!(characters[0].name, "Lydia");
    assert_eq!(names(&characters[0].saves), vec!["1.ess", "3.ess", "6.ess"]);
    assert_eq!(characters[1].name, "Aluna");
    assert_eq!(names(&characters[1].saves), vec!["2.ess", "5.ess"]);
    assert_eq!(characters[2].name, "Brynjolf");
    assert_eq!(names(&characters[2].saves), vec!["4.ess"]);
    assert_eq!(characters[1].saves[1].path, "C:/Saves/5.ess");
    assert_eq!(characters[1].saves[1].header.as_ref().unwrap().player_name, "Aluna");
}

#[test]
fn saves_without_a_header_belong_to_no_one() {
    let saves = vec![save("1.ess", None), save("2.ess", Some("Aluna")), save("3.ess", None)];
    let characters = group_saves_by_character(&saves);
    assert_eq!(characters.len(), 1);
    assert_eq!(characters[0].name, "Aluna");
    assert_eq!(names(&characters[0].saves), vec!["2.ess"]);
    assert!(group_saves_by_character(&vec![save("1.ess", None)]).is_empty());
    assert!(group_saves_by_character(&Vec::new()).is_empty());
}

#[test]
fn player_names_are_told_apart_exactly() {
    let saves = vec![save("1.ess", Some("Aluna")), save("2.ess", Some("aluna")), save("3.ess", Some(""))];
    let characters = group_saves_by_character(&saves);
    assert_eq!(characters.len(), 3);
    assert_eq!(characters[2].name, "");
}

#[test]
fn find_character_gives_the_first_of_that_name() {
    let characters = vec![
        Character { name: "Lydia".to_string(), saves: vec![] },
        Character { name: "Aluna".to_string(), saves: vec![] },
        Character { name: "Lydia".to_string(), saves: vec![] },
    ];
    assert_eq!(find_character(&characters, "Lydia"), Some(0));
    assert_eq!(find_character(&characters, "Aluna"), Some(1));
    assert_eq!(find_character(&characters, "lydia"), None);
    assert_eq!(find_character(&Vec::new(), "Lydia"), None);
}

#[test]
fn saves_of_the_selected_character() {
    let saves = vec![
        save("1.ess", Some("Lydia")),
        save("2.ess", Some("Aluna")),
        save("3.ess", Some("Lydia")),
    ];
    let characters = group_saves_by_character(&saves);
    let picked = saves_for_selected_char(&Some("Lydia".to_string()), &characters);
    assert_eq!(names(&picked), vec!["1.ess", "3.ess"]);
    let picked = saves_for_selected_char(&Some("Aluna".to_string()), &characters);
    assert_eq!(names(&picked), vec!["2.ess"]);
    assert!(saves_for_selected_char(&None, &characters).is_empty());
    assert!(saves_for_selected_char(&Some("Nobody".to_string()), &characters).is_empty());
    let copy = characters[0].clone();
    assert_eq!(copy.name, "Lydia");
    assert_eq!(names(&copy.saves), vec!["1.ess", "3.ess"]);
}

#[test]
fn list_entry_of_a_save() {
    let item = save_file_to_selectable_item(save("quick.ess", Some("Aluna Messana")));
    assert_eq!(item.title, "quick.ess");
    assert_eq!(item.description, "Aluna Messana");
    assert_eq!(item.value.file_name, "quick.ess");
    assert_eq!(item.value.path, "C:/Saves/quick.ess");
    let item = save_file_to_selectable_item(save("broken.ess", None));
    assert_eq!(item.title, "broken.ess");
    assert_eq!(item.description, "");
    assert!(item.value.header.is_none());
}
