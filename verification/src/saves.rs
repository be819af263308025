//! The save files of a folder, and the characters they belong to.

use vstd::prelude::*;
use crate::parser::header::{Header, HeaderView};
use crate::text::same_text;

verus! {

/// A save file of the folder, with its header if it could be decoded.
#[derive(Debug)]
pub struct SaveFile {
    pub path: String,
    pub file_name: String,
    pub header: Option<Header>,
}

/// A [`SaveFile`] as a mathematical value.
pub struct SaveFileView {
    pub path: Seq<char>,
    pub file_name: Seq<char>,
    pub header: Option<HeaderView>,
}

impl View for SaveFile {
    type V = SaveFileView;

    open spec fn view(&self) -> SaveFileView {
        SaveFileView {
            path: self.path@,
            file_name: self.file_name@,
            header: match self.header {
                Some(header) => Some(header@),
                None => None,
            },
        }
    }
}

impl Clone for SaveFile {
    fn clone(&self) -> (copy: SaveFile)
        ensures
            copy@ == self@,
    {
        SaveFile {
            path: self.path.clone(),
            file_name: self.file_name.clone(),
            header: match &self.header {
                Some(header) => Some(header.clone()),
                None => None,
            },
        }
    }
}

/// The save files as mathematical values.
pub open spec fn views_of(saves: Seq<SaveFile>) -> Seq<SaveFileView> {
    Seq::new(saves.len(), |i: int| saves[i]@)
}

/// A player character, with the save files that are theirs.
#[derive(Debug)]
pub struct Character {
    pub name: String,
    pub saves: Vec<SaveFile>,
}

/// A [`Character`] as a mathematical value.
pub struct CharacterView {
    pub name: Seq<char>,
    pub saves: Seq<SaveFileView>,
}

impl View for Character {
    type V = CharacterView;

    open spec fn view(&self) -> CharacterView {
        CharacterView { name: self.name@, saves: views_of(self.saves@) }
    }
}

/// Copies a list of save files.
pub fn copy_saves(saves: &Vec<SaveFile>) -> (copy: Vec<SaveFile>)
    ensures
        views_of(copy@) == views_of(saves@),
{
    let mut copy: Vec<SaveFile> = Vec::new();
    let mut i: usize = 0;
    while i < saves.len()
        invariant
            i <= saves@.len(),
            views_of(copy@) == views_of(saves@).take(i as int),
        decreases saves@.len() - i,
    {
        let ghost before = copy@;
        let save = saves[i].clone();
        assert(save@ == saves@[i as int]@);
        copy.push(save);
        assert(views_of(copy@) =~= views_of(before).push(save@));
        assert(views_of(copy@) =~= views_of(saves@).take(i + 1));
        i = i + 1;
    }
    assert(views_of(saves@).take(i as int) =~= views_of(saves@));
    copy
}

impl Clone for Character {
    fn clone(&self) -> (copy: Character)
        ensures
            copy@ == self@,
    {
        Character { name: self.name.clone(), saves: copy_saves(&self.saves) }
    }
}

/// The characters as mathematical values.
pub open spec fn characters_of(characters: Seq<Character>) -> Seq<CharacterView> {
    Seq::new(characters.len(), |i: int| characters[i]@)
}

/// The name of the player of a save, which its header tells. A save without
/// a header has no known player.
pub open spec fn player_of(save: SaveFileView) -> Option<Seq<char>> {
    match save.header {
        Some(header) => Some(header.player_name),
        None => None,
    }
}

/// The players of the given saves: each name once, in the order in which the
/// names first occur.
pub open spec fn players(saves: Seq<SaveFileView>) -> Seq<Seq<char>>
    decreases saves.len(),
{
    if saves.len() == 0 {
        Seq::empty()
    } else {
        let before = players(saves.drop_last());
        match player_of(saves.last()) {
            Some(name) => if before.contains(name) {
                before
            } else {
                before.push(name)
            },
            None => before,
        }
    }
}

/// The saves of the player called `name`, in the order of the list.
pub open spec fn saves_of(saves: Seq<SaveFileView>, name: Seq<char>) -> Seq<SaveFileView>
    decreases saves.len(),
{
    if saves.len() == 0 {
        Seq::empty()
    } else if player_of(saves.last()) == Some(name) {
        saves_of(saves.drop_last(), name).push(saves.last())
    } else {
        saves_of(saves.drop_last(), name)
    }
}

/// Whether `characters` are the players of `saves` with their saves: every
/// player once, in the order in which they first occur, and each with all of
/// their saves, in the order of the list.
pub open spec fn grouped(saves: Seq<SaveFileView>, characters: Seq<CharacterView>) -> bool {
    &&& characters.len() == players(saves).len()
    &&& forall|i: int|
        0 <= i < characters.len() ==> (#[trigger] characters[i]).name == players(saves)[i]
    &&& forall|i: int|
        0 <= i < characters.len() ==> (#[trigger] characters[i]).saves == saves_of(
            saves,
            characters[i].name,
        )
}

/// No player is listed twice.
pub proof fn lemma_players_distinct(saves: Seq<SaveFileView>)
    ensures
        forall|i: int, j: int|
            0 <= i < j < players(saves).len() ==> players(saves)[i] != players(saves)[j],
    decreases saves.len(),
{
    if saves.len() > 0 {
        let before = players(saves.drop_last());
        lemma_players_distinct(saves.drop_last());
        assert forall|i: int, j: int| 0 <= i < j < players(saves).len() implies players(saves)[i]
            != players(saves)[j] by {
            if j == before.len() {
                assert(!before.contains(players(saves)[j]));
                assert(before[i] == players(saves)[i]);
            }
        }
    }
}

/// Who is not among the players has no save.
pub proof fn lemma_no_player_no_saves(saves: Seq<SaveFileView>, name: Seq<char>)
    requires
        !players(saves).contains(name),
    ensures
        saves_of(saves, name) == Seq::<SaveFileView>::empty(),
    decreases saves.len(),
{
    if saves.len() > 0 {
        let before = players(saves.drop_last());
        assert(!before.contains(name)) by {
            if before.contains(name) {
                let i = choose|i: int| 0 <= i < before.len() && before[i] == name;
                assert(players(saves)[i] == name);
            }
        }
        assert(player_of(saves.last()) != Some(name)) by {
            if player_of(saves.last()) == Some(name) {
                assert(players(saves) == before.push(name));
                assert(players(saves)[before.len() as int] == name);
            }
        }
        lemma_no_player_no_saves(saves.drop_last(), name);
    }
}

/// The index of the first character called `name`, from `from` on.
pub open spec fn index_of_name(characters: Seq<CharacterView>, name: Seq<char>, from: int) -> Option<
    int,
>
    decreases characters.len() - from,
{
    if from < 0 || from >= characters.len() {
        None
    } else if characters[from].name == name {
        Some(from)
    } else {
        index_of_name(characters, name, from + 1)
    }
}

/// Finds the first character called `name`.
pub fn find_character(characters: &Vec<Character>, name: &str) -> (r: Option<usize>)
    ensures
        match r {
            Some(i) => index_of_name(characters_of(characters@), name@, 0) == Some(i as int) && i
                < characters@.len() && characters@[i as int].name@ == name@,
            None => index_of_name(characters_of(characters@), name@, 0) is None,
        },
        r is None ==> forall|i: int|
            0 <= i < characters@.len() ==> (#[trigger] characters@[i]).name@ != name@,
{
    let mut i: usize = 0;
    while i < characters.len()
        invariant
            i <= characters@.len(),
            index_of_name(characters_of(characters@), name@, 0) == index_of_name(
                characters_of(characters@),
                name@,
                i as int,
            ),
            forall|k: int| 0 <= k < i ==> (#[trigger] characters@[k]).name@ != name@,
        decreases characters@.len() - i,
    {
        if same_text(characters[i].name.as_str(), name) {
            return Some(i);
        }
        i = i + 1;
    }
    None
}

/// A save without a header changes nothing in the grouping.
pub proof fn lemma_save_of_no_one(
    seen: Seq<SaveFileView>,
    save: SaveFileView,
    characters: Seq<CharacterView>,
)
    requires
        grouped(seen, characters),
        player_of(save) is None,
    ensures
        grouped(seen.push(save), characters),
{
    assert(seen.push(save).drop_last() =~= seen);
}

/// A save of a player who is listed joins the saves of that player, and
/// changes nothing else in the grouping.
pub proof fn lemma_save_joins(
    seen: Seq<SaveFileView>,
    save: SaveFileView,
    before: Seq<CharacterView>,
    after: Seq<CharacterView>,
    j: int,
)
    requires
        grouped(seen, before),
        0 <= j < before.len(),
        player_of(save) == Some(before[j].name),
        after.len() == before.len(),
        after[j].name == before[j].name,
        after[j].saves == before[j].saves.push(save),
        forall|i: int| 0 <= i < before.len() && i != j ==> after[i] == before[i],
    ensures
        grouped(seen.push(save), after),
{
    let next = seen.push(save);
    assert(next.drop_last() =~= seen);
    lemma_players_distinct(seen);
    assert(players(seen)[j] == before[j].name);
    assert(players(next) == players(seen));
    assert forall|i: int| 0 <= i < after.len() implies (#[trigger] after[i]).name == players(next)[i]
        && after[i].saves == saves_of(next, after[i].name) by {
        assert(before[i].name == players(seen)[i]);
    }
}

/// A save of a player who is not listed yet puts that player last in the
/// grouping, with this one save.
pub proof fn lemma_save_of_new_player(
    seen: Seq<SaveFileView>,
    save: SaveFileView,
    before: Seq<CharacterView>,
    name: Seq<char>,
)
    requires
        grouped(seen, before),
        player_of(save) == Some(name),
        forall|i: int| 0 <= i < before.len() ==> (#[trigger] before[i]).name != name,
    ensures
        grouped(seen.push(save), before.push(CharacterView { name, saves: seq![save] })),
{
    let next = seen.push(save);
    let after = before.push(CharacterView { name, saves: seq![save] });
    assert(next.drop_last() =~= seen);
    assert(!players(seen).contains(name)) by {
        if players(seen).contains(name) {
            let i = choose|i: int| 0 <= i < players(seen).len() && players(seen)[i] == name;
            assert(before[i].name == name);
        }
    }
    lemma_no_player_no_saves(seen, name);
    assert(seq![save] =~= Seq::<SaveFileView>::empty().push(save));
    assert forall|i: int| 0 <= i < after.len() implies (#[trigger] after[i]).name == players(next)[i]
        && after[i].saves == saves_of(next, after[i].name) by {
        if i < before.len() {
            assert(before[i].name == players(seen)[i]);
        }
    }
}

/// Sorts the saves of a folder by the character who made them.
///
/// Every player is listed once, in the order in which they first occur among
/// the saves, and has all of their saves, in the order of the folder. A save
/// without a header belongs to no one and is left out.
pub fn group_saves_by_character(saves: &Vec<SaveFile>) -> (characters: Vec<Character>)
    ensures
        grouped(views_of(saves@), characters_of(characters@)),
{
    let mut characters: Vec<Character> = Vec::new();
    let mut k: usize = 0;
    while k < saves.len()
        invariant
            k <= saves@.len(),
            grouped(views_of(saves@).take(k as int), characters_of(characters@)),
        decreases saves@.len() - k,
    {
        let ghost seen = views_of(saves@).take(k as int);
        let ghost before = characters_of(characters@);
        let save = &saves[k];
        assert(views_of(saves@).take(k + 1) =~= seen.push(save@));
        match &save.header {
            Some(header) => {
                match find_character(&characters, header.player_name.as_str()) {
                    Some(j) => {
                        let ghost joined = characters@[j as int].saves@;
                        characters[j].saves.push(save.clone());
                        proof {
                            assert(views_of(characters@[j as int].saves@) =~= views_of(joined).push(
                                save@,
                            ));
                            lemma_save_joins(
                                seen,
                                save@,
                                before,
                                characters_of(characters@),
                                j as int,
                            );
                        }
                    },
                    None => {
                        let mut own: Vec<SaveFile> = Vec::new();
                        own.push(save.clone());
                        characters.push(Character { name: header.player_name.clone(), saves: own });
                        proof {
                            assert(views_of(own@) =~= seq![save@]);
                            assert(characters_of(characters@) =~= before.push(
                                CharacterView { name: header.player_name@, saves: seq![save@] },
                            ));
                            lemma_save_of_new_player(seen, save@, before, header.player_name@);
                        }
                    },
                }
            },
            None => {
                proof {
                    lemma_save_of_no_one(seen, save@, before);
                }
            },
        }
        k = k + 1;
    }
    assert(views_of(saves@).take(k as int) =~= views_of(saves@));
    characters
}

/// Gives the saves of the selected character: a copy of the saves of the
/// first character of that name. Without a selection, or with a name that no
/// character has, there are none.
pub fn saves_for_selected_char(selected_char: &Option<String>, characters: &Vec<Character>) -> (saves:
    Vec<SaveFile>)
    ensures
        views_of(saves@) == match *selected_char {
            Some(name) => match index_of_name(characters_of(characters@), name@, 0) {
                Some(i) => characters@[i]@.saves,
                None => Seq::empty(),
            },
            None => Seq::empty(),
        },
{
    match selected_char {
        Some(char_name) => match find_character(characters, char_name.as_str()) {
            Some(i) => copy_saves(&characters[i].saves),
            None => {
                let none: Vec<SaveFile> = Vec::new();
                assert(views_of(none@) =~= Seq::<SaveFileView>::empty());
                none
            },
        },
        None => {
            let none: Vec<SaveFile> = Vec::new();
            assert(views_of(none@) =~= Seq::<SaveFileView>::empty());
            none
        },
    }
}

/// An entry of a list from which one is picked: what it shows, and what
/// picking it gives.
pub struct SelectableItem<T> {
    pub title: String,
    pub description: String,
    pub value: T,
}

/// Makes the list entry of a save file: titled with the file's name and
/// described by its player's name, or by nothing where the save has no
/// header.
pub fn save_file_to_selectable_item(save_file: SaveFile) -> (item: SelectableItem<SaveFile>)
    ensures
        item.title@ == save_file.file_name@,
        item.description@ == match player_of(save_file@) {
            Some(name) => name,
            None => Seq::empty(),
        },
        item.value == save_file,
{
    let title = save_file.file_name.clone();
    let description = match &save_file.header {
        Some(header) => header.player_name.clone(),
        None => String::new(),
    };
    SelectableItem { title, description, value: save_file }
}

} // verus!
