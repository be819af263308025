//! The plugin section: the list of plugin files that were loaded when the
//! game was saved, in load order.

use vstd::prelude::*;
use crate::parser::error::{DecodeError, DecodeWarning};
use crate::parser::utils::{
    fits,
    le_u32,
    read_u32,
    read_u8,
    read_w_string,
    w_string_end,
    w_string_fits,
    w_string_text,
    w_string_warnings,
};
use crate::text::texts_of;

verus! {

/// The plugins of a save, in load order.
#[derive(Debug)]
pub struct PluginInfo {
    /// The number of plugins that the file announces.
    pub plugin_count: u8,
    /// The plugins' file names, in the order in which the file lists them.
    pub plugins: Vec<String>,
}

/// A [`PluginInfo`] as a mathematical value.
pub struct PluginInfoView {
    pub plugin_count: u8,
    pub plugins: Seq<Seq<char>>,
}

impl View for PluginInfo {
    type V = PluginInfoView;

    open spec fn view(&self) -> PluginInfoView {
        PluginInfoView { plugin_count: self.plugin_count, plugins: texts_of(self.plugins@) }
    }
}

impl Clone for PluginInfo {
    fn clone(&self) -> (copy: PluginInfo)
        ensures
            copy@ == self@,
    {
        let plugins = self.plugins.clone();
        assert(texts_of(plugins@) =~= texts_of(self.plugins@));
        PluginInfo { plugin_count: self.plugin_count, plugins }
    }
}

impl PluginInfo {
    /// Whether the list holds as many names as `plugin_count` says. Every
    /// `PluginInfo` that a decoder of this crate returns is consistent.
    pub open spec fn consistent(&self) -> bool {
        self.plugins@.len() == self.plugin_count
    }

    /// Tells whether the list holds as many names as `plugin_count` says.
    pub fn is_consistent(&self) -> (b: bool)
        ensures
            b == self.consistent(),
    {
        self.plugins.len() == self.plugin_count as usize
    }
}

/// The offset just past `count` length-prefixed texts, the first of which
/// starts at `at`.
pub open spec fn w_strings_end(buf: Seq<u8>, at: int, count: nat) -> int
    decreases count,
{
    if count == 0 {
        at
    } else {
        w_strings_end(buf, w_string_end(buf, at), (count - 1) as nat)
    }
}

/// Whether `count` length-prefixed texts, the first of which starts at `at`,
/// lie inside `buf`.
pub open spec fn w_strings_fit(buf: Seq<u8>, at: int, count: nat) -> bool
    decreases count,
{
    if count == 0 {
        0 <= at <= buf.len()
    } else {
        w_string_fits(buf, at) && w_strings_fit(buf, w_string_end(buf, at), (count - 1) as nat)
    }
}

/// The `count` length-prefixed texts, the first of which starts at `at`.
pub open spec fn w_strings_text(buf: Seq<u8>, at: int, count: nat) -> Seq<Seq<char>>
    decreases count,
{
    if count == 0 {
        Seq::empty()
    } else {
        seq![w_string_text(buf, at)] + w_strings_text(
            buf,
            w_string_end(buf, at),
            (count - 1) as nat,
        )
    }
}

/// What decoding `count` length-prefixed texts adds to the log: the anomalies
/// of each, in order.
pub open spec fn w_strings_warnings(buf: Seq<u8>, at: int, count: nat) -> Seq<DecodeWarning>
    decreases count,
{
    if count == 0 {
        Seq::empty()
    } else {
        w_string_warnings(buf, at) + w_strings_warnings(
            buf,
            w_string_end(buf, at),
            (count - 1) as nat,
        )
    }
}

/// Whether a plugin list starting at `start` lies inside `buf`: its count
/// byte, and as many file names as that byte says.
pub open spec fn plugin_info_fits(buf: Seq<u8>, start: int) -> bool {
    fits(buf, start, 1) && w_strings_fit(buf, start + 1, buf[start] as nat)
}

/// The plugin list that starts at `start`, where [`plugin_info_fits`] holds.
pub open spec fn plugin_info_at(buf: Seq<u8>, start: int) -> PluginInfoView {
    PluginInfoView {
        plugin_count: buf[start],
        plugins: w_strings_text(buf, start + 1, buf[start] as nat),
    }
}

/// The offset just past the plugin list that starts at `start`.
pub open spec fn plugin_info_end(buf: Seq<u8>, start: int) -> int {
    w_strings_end(buf, start + 1, buf[start] as nat)
}

/// What decoding the plugin list at `start` adds to the log.
pub open spec fn plugin_info_warnings(buf: Seq<u8>, start: int) -> Seq<DecodeWarning> {
    w_strings_warnings(buf, start + 1, buf[start] as nat)
}

/// Decodes the plugin list that starts at `start`: a count byte, then that
/// many length-prefixed file names.
///
/// The names come out in the order of the file, and there are exactly as many
/// as the count byte says. The only failure is a list that does not fit in
/// the buffer, and then `log` is left as it was.
pub fn read_plugin_info(buf: &[u8], start: usize, log: &mut Vec<DecodeWarning>) -> (r: Result<
    (PluginInfo, usize),
    DecodeError,
>)
    ensures
        match r {
            Ok((info, next)) => {
                &&& plugin_info_fits(buf@, start as int)
                &&& info@ == plugin_info_at(buf@, start as int)
                &&& info.consistent()
                &&& next == plugin_info_end(buf@, start as int)
                &&& final(log)@ == old(log)@ + plugin_info_warnings(buf@, start as int)
            },
            Err(e) => {
                &&& !plugin_info_fits(buf@, start as int)
                &&& e == DecodeError::TruncatedInput
                &&& final(log)@ == old(log)@
            },
        },
{
    let (plugin_count, first) = read_u8(buf, start)?;

    let mut noted: Vec<DecodeWarning> = Vec::new();
    let mut plugins: Vec<String> = Vec::new();
    let mut index_cursor: usize = first;
    let mut read: u8 = 0;
    while read < plugin_count
        invariant
            read <= plugin_count,
            first == start + 1,
            fits(buf@, start as int, 1),
            plugin_count == buf@[start as int],
            first <= index_cursor <= buf@.len(),
            log@ == old(log)@,
            plugins@.len() == read,
            w_strings_fit(buf@, first as int, plugin_count as nat) <==> w_strings_fit(
                buf@,
                index_cursor as int,
                (plugin_count - read) as nat,
            ),
            w_strings_end(buf@, first as int, plugin_count as nat) == w_strings_end(
                buf@,
                index_cursor as int,
                (plugin_count - read) as nat,
            ),
            w_strings_text(buf@, first as int, plugin_count as nat) == texts_of(plugins@)
                + w_strings_text(buf@, index_cursor as int, (plugin_count - read) as nat),
            w_strings_warnings(buf@, first as int, plugin_count as nat) == noted@
                + w_strings_warnings(buf@, index_cursor as int, (plugin_count - read) as nat),
        decreases plugin_count - read,
    {
        let ghost before = plugins@;
        let (name, cursor) = read_w_string(buf, index_cursor, &mut noted)?;
        plugins.push(name);
        proof {
            assert(texts_of(plugins@) =~= texts_of(before) + seq![
                w_string_text(buf@, index_cursor as int),
            ]);
        }
        index_cursor = cursor;
        read = read + 1;
    }
    proof {
        assert(texts_of(plugins@) + Seq::<Seq<char>>::empty() =~= texts_of(plugins@));
    }
    log.append(&mut noted);
    Ok((PluginInfo { plugin_count, plugins }, index_cursor))
}

/// The plugin section of a save: what stands at the start of the body once
/// the body has been resolved.
#[derive(Debug)]
pub struct PluginSection {
    /// The revision of the record format used in the rest of the body.
    pub form_version: u8,
    /// The size in bytes that the file announces for the plugin list. It is
    /// advisory: nothing is skipped or bounded by it.
    pub plugin_info_size: u32,
    pub plugin_info: PluginInfo,
}

/// A [`PluginSection`] as a mathematical value.
pub struct PluginSectionView {
    pub form_version: u8,
    pub plugin_info_size: u32,
    pub plugin_info: PluginInfoView,
}

impl View for PluginSection {
    type V = PluginSectionView;

    open spec fn view(&self) -> PluginSectionView {
        PluginSectionView {
            form_version: self.form_version,
            plugin_info_size: self.plugin_info_size,
            plugin_info: self.plugin_info@,
        }
    }
}

impl Clone for PluginSection {
    fn clone(&self) -> (copy: PluginSection)
        ensures
            copy@ == self@,
    {
        PluginSection {
            form_version: self.form_version,
            plugin_info_size: self.plugin_info_size,
            plugin_info: self.plugin_info.clone(),
        }
    }
}

/// The size of the two fields that precede the plugin list: the form version
/// and the announced size.
pub const PLUGIN_LIST_OFFSET: usize = 5;

/// Whether a plugin section lies inside `buf`, from offset 0.
pub open spec fn plugin_section_fits(buf: Seq<u8>) -> bool {
    fits(buf, 0, PLUGIN_LIST_OFFSET as int) && plugin_info_fits(buf, PLUGIN_LIST_OFFSET as int)
}

/// The plugin section at the start of `buf`, where [`plugin_section_fits`]
/// holds.
pub open spec fn plugin_section_at(buf: Seq<u8>) -> PluginSectionView {
    PluginSectionView {
        form_version: buf[0],
        plugin_info_size: le_u32(buf, 1),
        plugin_info: plugin_info_at(buf, PLUGIN_LIST_OFFSET as int),
    }
}

/// The offset just past the plugin section at the start of `buf`.
pub open spec fn plugin_section_end(buf: Seq<u8>) -> int {
    plugin_info_end(buf, PLUGIN_LIST_OFFSET as int)
}

/// What comparing the announced size of a plugin list with the bytes it took
/// adds to the log: nothing if they agree, one
/// [`DecodeWarning::SizeMismatch`] if not.
pub open spec fn size_warnings(declared: u32, consumed: int) -> Seq<DecodeWarning> {
    if consumed == declared {
        Seq::empty()
    } else {
        seq![(DecodeWarning::SizeMismatch { declared, consumed: consumed as usize })]
    }
}

/// What decoding the plugin section at the start of `buf` adds to the log:
/// the anomalies of the file names, then that of the size.
pub open spec fn plugin_section_warnings(buf: Seq<u8>) -> Seq<DecodeWarning> {
    plugin_info_warnings(buf, PLUGIN_LIST_OFFSET as int) + size_warnings(
        le_u32(buf, 1),
        plugin_section_end(buf) - PLUGIN_LIST_OFFSET,
    )
}

/// Decodes the plugin section, which starts at offset 0 of the resolved body:
/// the form version, the announced size of the plugin list, and the list.
///
/// The bytes that the list took, its count byte included, are then compared
/// with the announced size. A difference does not fail the decoding; it is
/// noted in `log`.
pub fn read_plugin_section(buf: &[u8], log: &mut Vec<DecodeWarning>) -> (r: Result<
    (PluginSection, usize),
    DecodeError,
>)
    ensures
        match r {
            Ok((section, next)) => {
                &&& plugin_section_fits(buf@)
                &&& section@ == plugin_section_at(buf@)
                &&& section.plugin_info.consistent()
                &&& next == plugin_section_end(buf@)
                &&& final(log)@ == old(log)@ + plugin_section_warnings(buf@)
            },
            Err(e) => {
                &&& !plugin_section_fits(buf@)
                &&& e == DecodeError::TruncatedInput
                &&& final(log)@ == old(log)@
            },
        },
{
    let mut noted: Vec<DecodeWarning> = Vec::new();
    let (form_version, cursor) = read_u8(buf, 0)?;
    let (plugin_info_size, cursor) = read_u32(buf, cursor)?;
    let (plugin_info, cursor) = read_plugin_info(buf, cursor, &mut noted)?;
    proof {
        lemma_w_strings_end_bounds(
            buf@,
            PLUGIN_LIST_OFFSET as int + 1,
            buf@[PLUGIN_LIST_OFFSET as int] as nat,
        );
    }
    let consumed: usize = cursor - PLUGIN_LIST_OFFSET;
    if plugin_info_size as usize != consumed {
        noted.push(DecodeWarning::SizeMismatch { declared: plugin_info_size, consumed });
    }
    log.append(&mut noted);
    Ok((PluginSection { form_version, plugin_info_size, plugin_info }, cursor))
}

/// Texts that fit end at or after the offset at which they start, and inside
/// the buffer.
pub proof fn lemma_w_strings_end_bounds(buf: Seq<u8>, at: int, count: nat)
    requires
        w_strings_fit(buf, at, count),
    ensures
        at <= w_strings_end(buf, at, count) <= buf.len(),
    decreases count,
{
    if count > 0 {
        lemma_w_strings_end_bounds(buf, w_string_end(buf, at), (count - 1) as nat);
    }
}

} // verus!
