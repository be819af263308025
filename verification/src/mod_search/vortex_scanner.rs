//! What the Vortex mod manager records about plugins: its master list, and
//! the plugins that a profile enables.

use vstd::prelude::*;
use crate::text::{same_text, texts_of};

verus! {

/// A plugin of the master list, and where it can be had.
#[derive(Debug)]
pub struct Plugin {
    pub name: String,
    pub urls: Vec<String>,
}

impl Clone for Plugin {
    fn clone(&self) -> (copy: Plugin)
        ensures
            copy.name@ == self.name@,
            texts_of(copy.urls@) == texts_of(self.urls@),
    {
        let urls = self.urls.clone();
        assert(texts_of(urls@) =~= texts_of(self.urls@));
        Plugin { name: self.name.clone(), urls }
    }
}

/// One item of a plugin's `url` list in the master list.
#[derive(Debug)]
pub enum UrlItem {
    /// A plain address.
    Text(String),
    /// Anything else, such as an address with a display name.
    Other,
}

/// The `url` entry of a plugin in the master list.
#[derive(Debug)]
pub enum UrlValue {
    Sequence(Vec<UrlItem>),
    /// Anything but a list.
    Other,
}

/// A plugin as the master list stores it.
#[derive(Debug)]
pub struct PluginFileType {
    pub name: String,
    pub url: Option<UrlValue>,
}

/// The plain addresses among `items`, in order.
pub open spec fn plain_urls(items: Seq<UrlItem>) -> Seq<Seq<char>>
    decreases items.len(),
{
    if items.len() == 0 {
        Seq::empty()
    } else {
        match items.last() {
            UrlItem::Text(s) => plain_urls(items.drop_last()).push(s@),
            UrlItem::Other => plain_urls(items.drop_last()),
        }
    }
}

/// The addresses of a plugin: the plain addresses of its `url` list, and none
/// where it has no such list.
pub open spec fn urls_of(url: Option<UrlValue>) -> Seq<Seq<char>> {
    match url {
        Some(UrlValue::Sequence(items)) => plain_urls(items@),
        _ => Seq::empty(),
    }
}

/// Turns a plugin of the master list into a plugin with its addresses.
pub fn parse_plugin(plugin_file_type: &PluginFileType) -> (plugin: Plugin)
    ensures
        plugin.name@ == plugin_file_type.name@,
        texts_of(plugin.urls@) == urls_of(plugin_file_type.url),
{
    let name = plugin_file_type.name.clone();
    let mut urls: Vec<String> = Vec::new();
    if let Some(v) = &plugin_file_type.url {
        if let UrlValue::Sequence(seq) = v {
            let mut i: usize = 0;
            while i < seq.len()
                invariant
                    i <= seq@.len(),
                    texts_of(urls@) == plain_urls(seq@.take(i as int)),
                decreases seq@.len() - i,
            {
                let ghost before = urls@;
                assert(seq@.take(i + 1).drop_last() =~= seq@.take(i as int));
                if let UrlItem::Text(s) = &seq[i] {
                    urls.push(s.clone());
                    assert(texts_of(urls@) =~= texts_of(before).push(s@));
                }
                i = i + 1;
            }
            assert(seq@.take(i as int) =~= seq@);
        }
    }
    Plugin { name, urls }
}

/// The plugin that a line of a profile's plugin list enables: the rest of the
/// line, if the line begins with `*`.
pub open spec fn enabled_in_line(line: Seq<char>) -> Option<Seq<char>> {
    if line.len() > 0 && line[0] == '*' {
        Some(line.subrange(1, line.len() as int))
    } else {
        None
    }
}

/// Gives the plugin that a line of a profile's plugin list enables, if it
/// enables one.
pub fn enabled_plugin(line: &str) -> (r: Option<String>)
    ensures
        match r {
            Some(name) => enabled_in_line(line@) == Some(name@),
            None => enabled_in_line(line@) is None,
        },
{
    let n = line.unicode_len();
    if n > 0 && line.get_char(0) == '*' {
        Some(line.substring_char(1, n).to_owned())
    } else {
        None
    }
}

/// The plugins that the lines of a profile's plugin list enable, in order.
pub open spec fn enabled_in_lines(lines: Seq<Seq<char>>) -> Seq<Seq<char>>
    decreases lines.len(),
{
    if lines.len() == 0 {
        Seq::empty()
    } else {
        match enabled_in_line(lines.last()) {
            Some(name) => enabled_in_lines(lines.drop_last()).push(name),
            None => enabled_in_lines(lines.drop_last()),
        }
    }
}

/// Gives the plugins that a profile enables, from the lines of its plugin
/// list: the lines that begin with `*`, without the `*`, in order.
pub fn enabled_plugins(lines: &Vec<String>) -> (plugins: Vec<String>)
    ensures
        texts_of(plugins@) == enabled_in_lines(texts_of(lines@)),
{
    let mut plugins: Vec<String> = Vec::new();
    let mut i: usize = 0;
    while i < lines.len()
        invariant
            i <= lines@.len(),
            texts_of(plugins@) == enabled_in_lines(texts_of(lines@).take(i as int)),
        decreases lines@.len() - i,
    {
        let ghost before = plugins@;
        assert(texts_of(lines@).take(i + 1).drop_last() =~= texts_of(lines@).take(i as int));
        if let Some(name) = enabled_plugin(lines[i].as_str()) {
            plugins.push(name);
            assert(texts_of(plugins@) =~= texts_of(before).push(name@));
        }
        i = i + 1;
    }
    assert(texts_of(lines@).take(i as int) =~= texts_of(lines@));
    plugins
}

/// What is known on this machine about a mod that a save names.
#[derive(Debug, Clone, Copy, PartialEq, Eq, Structural)]
pub enum ModStatus {
    /// A profile of the mod manager enables it.
    Installed,
    /// No profile enables it, and the master list has it, at this index.
    Listed(usize),
    NotFound,
}

/// The index of the last plugin called `name`, if there is one. Where the
/// master list names a plugin more than once, the last entry counts.
pub open spec fn last_named(plugins: Seq<Plugin>, name: Seq<char>) -> Option<int>
    decreases plugins.len(),
{
    if plugins.len() == 0 {
        None
    } else if plugins.last().name@ == name {
        Some(plugins.len() - 1)
    } else {
        last_named(plugins.drop_last(), name)
    }
}

/// What is known about the mod called `name`, given the plugins that the
/// profiles enable and the master list.
pub open spec fn status_of(name: Seq<char>, installed: Seq<Seq<char>>, master_list: Seq<Plugin>) -> ModStatus {
    if installed.contains(name) {
        ModStatus::Installed
    } else {
        match last_named(master_list, name) {
            Some(i) => ModStatus::Listed(i as usize),
            None => ModStatus::NotFound,
        }
    }
}

/// Tells whether `name` is among `texts`.
pub fn is_listed(texts: &Vec<String>, name: &str) -> (b: bool)
    ensures
        b == texts_of(texts@).contains(name@),
{
    let mut i: usize = 0;
    while i < texts.len()
        invariant
            i <= texts@.len(),
            forall|k: int| 0 <= k < i ==> texts_of(texts@)[k] != name@,
        decreases texts@.len() - i,
    {
        if same_text(texts[i].as_str(), name) {
            assert(texts_of(texts@)[i as int] == name@);
            return true;
        }
        i = i + 1;
    }
    false
}

/// Tells what is known about the mod called `name`: whether a profile
/// enables it, and if none does, where the master list has it.
pub fn mod_status(name: &str, installed: &Vec<String>, master_list: &Vec<Plugin>) -> (status:
    ModStatus)
    ensures
        status == status_of(name@, texts_of(installed@), master_list@),
        status matches ModStatus::Listed(i) ==> i < master_list@.len() && master_list@[i as int].name@
            == name@,
{
    if is_listed(installed, name) {
        return ModStatus::Installed;
    }
    let mut left: usize = master_list.len();
    assert(master_list@.take(left as int) =~= master_list@);
    while left > 0
        invariant
            left <= master_list@.len(),
            !texts_of(installed@).contains(name@),
            last_named(master_list@, name@) == last_named(master_list@.take(left as int), name@),
        decreases left,
    {
        assert(master_list@.take(left as int).drop_last() =~= master_list@.take(left - 1));
        assert(master_list@.take(left as int).last() == master_list@[left - 1]);
        left = left - 1;
        if same_text(master_list[left].name.as_str(), name) {
            return ModStatus::Listed(left);
        }
    }
    ModStatus::NotFound
}

} // verus!
