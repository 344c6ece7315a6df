//! The file intent: what the file system says of a `file://` path.

use vstd::prelude::*;
use crate::config::opt_view;
use crate::format::{format_size, size_text};
use crate::model::{
    is_node, strings_view, children_of, Align, DataType, Element, ElementBuilder, Orientation,
    PluginResponse,
};
use crate::response::{
    is_box, is_section, is_text_section, respond, section, section_body, section_title,
    text_section,
};
use crate::text::{cat, tail};

verus! {

/// What the file system says of a path. Times are Unix seconds.
#[derive(Debug)]
pub enum FileInfo {
    /// Nothing is there.
    Missing,
    Directory { size: u64, modified: i64 },
    File { name: String, size: u64, kind: String, modified: i64 },
    Symlink { name: String, size: u64, kind: String, modified: i64 },
    /// Something is there, but its metadata cannot be read.
    Unreadable,
}

/// The calendar date, in UTC, of Unix time `secs`, as `YYYY-MM-DD`.
pub uninterp spec fn date_text(secs: int) -> Seq<char>;

/// The Unix times of `time`'s representable dates, years -9999 to 9999.
pub open spec fn has_date(secs: int) -> bool {
    -377705116800 <= secs <= 253402300799
}

/// Relies on `time::OffsetDateTime::from_unix_timestamp`, which fails
/// exactly outside `Date::MIN..=Date::MAX`, and on the `Display` of
/// `time::Date`: the UTC calendar date of a Unix time.
#[verifier::external_body]
fn date_of(secs: i64) -> (r: Option<String>)
    ensures
        has_date(secs as int) == (r is Some),
        r matches Some(d) ==> d@ == date_text(secs as int),
{
    match time::OffsetDateTime::from_unix_timestamp(secs) {
        Ok(t) => Some(t.date().to_string()),
        Err(_) => None,
    }
}

/// `p` with a leading `~` replaced by the home directory, where one is known.
pub open spec fn expanded(p: Seq<char>, home: Option<Seq<char>>) -> Seq<char> {
    if p.len() > 0 && p[0] == '~' && home is Some {
        home->0 + p.skip(1)
    } else {
        p
    }
}

/// The facts shown for `path`, with `date` as the modification date.
pub open spec fn file_row(path: Seq<char>, info: FileInfo, date: Seq<char>) -> Seq<Seq<char>> {
    match info {
        FileInfo::Directory { size, .. } => seq![path, size_text(size as nat), date],
        FileInfo::File { name, size, kind, .. } => seq![
            name@,
            size_text(size as nat),
            kind@,
            date,
        ],
        FileInfo::Symlink { name, size, kind, .. } => seq![
            name@,
            size_text(size as nat),
            kind@,
            date,
        ],
        _ => Seq::empty(),
    }
}

/// The names of the labels of those facts.
pub open spec fn file_row_ids(info: FileInfo) -> Seq<Seq<char>> {
    match info {
        FileInfo::Directory { .. } => seq![
            "DirectoryName"@,
            "DirectorySize"@,
            "DirectoryLastModified"@,
        ],
        FileInfo::File { .. } => seq!["FileName"@, "FileSize"@, "FileType"@, "LastModified"@],
        FileInfo::Symlink { .. } => seq![
            "SymlinkName"@,
            "SymlinkSize"@,
            "SymlinkType"@,
            "LastModified"@,
        ],
        _ => Seq::empty(),
    }
}

/// A label named `id` showing one fact.
pub open spec fn is_fact_label(e: Element, id: Seq<char>, text: Seq<char>) -> bool {
    &&& is_node(
        e,
        DataType::Label,
        id,
        Some(true),
        None,
        None,
        None,
        Some(Align::Start),
        None,
        seq!["fileElement"@],
        Some(text),
    )
    &&& e.children is None
}

/// A horizontal row holding the labels of `texts`, named by `ids`.
pub open spec fn is_fact_row(e: Element, ids: Seq<Seq<char>>, texts: Seq<Seq<char>>) -> bool {
    &&& is_box(e, "BoxContentElement"@, Orientation::Horizontal, seq!["fileContainer"@])
    &&& children_of(e).len() == texts.len()
    &&& forall|i: int|
        0 <= i < texts.len() ==> is_fact_label(#[trigger] children_of(e)[i], ids[i], texts[i])
}

/// The response for `path`, where `date` is the modification date shown.
pub open spec fn is_file_response(
    r: PluginResponse,
    path: Seq<char>,
    info: FileInfo,
    date: Seq<char>,
) -> bool {
    &&& r.elements@.len() == 1
    &&& r.action is None
    &&& r.title is None
    &&& r.error is None
    &&& r.set_icon is None
    &&& match info {
        FileInfo::Missing => is_text_section(
            r.elements@[0],
            "File"@,
            path + " does not exist."@,
            "file"@,
        ),
        FileInfo::Unreadable => is_text_section(
            r.elements@[0],
            "File"@,
            "Cannot get metadata of "@ + path,
            "file"@,
        ),
        _ => {
            &&& is_section(r.elements@[0])
            &&& section_title(r.elements@[0]) == Some("File"@)
            &&& section_body(r.elements@[0]).len() == 1
            &&& is_fact_row(
                section_body(r.elements@[0])[0],
                file_row_ids(info),
                file_row(path, info, date),
            )
        },
    }
}

/// The date shown for a modification time: the calendar date, or "unknown"
/// where there is none.
pub open spec fn shown_date(date: Option<String>) -> Seq<char> {
    match date {
        Some(d) => d@,
        None => "unknown"@,
    }
}

/// Replaces a leading `~` of `path` by `home`.
pub fn expand_home(path: &str, home: &Option<String>) -> (r: String)
    ensures
        r@ == expanded(path@, opt_view(*home)),
{
    if path.unicode_len() > 0 && path.get_char(0) == '~' {
        match home {
            Some(h) => {
                let rest = tail(path, 1);
                return cat(h.as_str(), rest.as_str());
            },
            None => {},
        }
    }
    path.to_string()
}

fn fact_label(id: &str, text: &str) -> (e: Element)
    ensures
        is_fact_label(e, id@, text@),
{
    let classes = vec!["fileElement".to_string()];
    let e = ElementBuilder::new(DataType::Label).id(id).classes(classes).hexpand(true).halign(
        Align::Start,
    ).text(text).build();
    assert(strings_view(e.classes@) =~= seq!["fileElement"@]);
    e
}

fn fact_row(labels: Vec<Element>) -> (e: Element)
    ensures
        is_box(e, "BoxContentElement"@, Orientation::Horizontal, seq!["fileContainer"@]),
        children_of(e) == labels@,
{
    let classes = vec!["fileContainer".to_string()];
    let e = ElementBuilder::new(DataType::Box).id("BoxContentElement").classes(
        classes,
    ).orientation(Orientation::Horizontal).children(labels).build();
    assert(strings_view(e.classes@) =~= seq!["fileContainer"@]);
    e
}

/// The response for `path` given what the file system says of it, where
/// `date` is the calendar date of its modification time, if known.
pub fn describe_file(path: &str, info: &FileInfo, date: Option<String>) -> (r: PluginResponse)
    ensures
        is_file_response(r, path@, *info, shown_date(date)),
{
    let shown = match date {
        Some(d) => d,
        None => "unknown".to_string(),
    };
    let row = match info {
        FileInfo::Missing => {
            let text = cat(path, " does not exist.");
            return respond(vec![text_section("File", text.as_str(), "file")], None);
        },
        FileInfo::Unreadable => {
            let text = cat("Cannot get metadata of ", path);
            return respond(vec![text_section("File", text.as_str(), "file")], None);
        },
        FileInfo::Directory { size, .. } => {
            let size = format_size(*size);
            vec![
                fact_label("DirectoryName", path),
                fact_label("DirectorySize", size.as_str()),
                fact_label("DirectoryLastModified", shown.as_str()),
            ]
        },
        FileInfo::File { name, size, kind, .. } => {
            let size = format_size(*size);
            vec![
                fact_label("FileName", name.as_str()),
                fact_label("FileSize", size.as_str()),
                fact_label("FileType", kind.as_str()),
                fact_label("LastModified", shown.as_str()),
            ]
        },
        FileInfo::Symlink { name, size, kind, .. } => {
            let size = format_size(*size);
            vec![
                fact_label("SymlinkName", name.as_str()),
                fact_label("SymlinkSize", size.as_str()),
                fact_label("SymlinkType", kind.as_str()),
                fact_label("LastModified", shown.as_str()),
            ]
        },
    };
    assert(row@.len() == file_row(path@, *info, shown_date(date)).len());
    assert forall|i: int| 0 <= i < row@.len() implies is_fact_label(
        row@[i],
        file_row_ids(*info)[i],
        file_row(path@, *info, shown_date(date))[i],
    ) by {}
    let sec = section("File", vec![fact_row(row)]);
    respond(vec![sec], None)
}

/// The modification time that `info` records, if any.
pub open spec fn modified_of(info: FileInfo) -> Option<i64> {
    match info {
        FileInfo::Directory { modified, .. } => Some(modified),
        FileInfo::File { modified, .. } => Some(modified),
        FileInfo::Symlink { modified, .. } => Some(modified),
        _ => None,
    }
}

/// The modification date shown for `info`: the calendar date of its time
/// where there is one, else "unknown".
pub open spec fn modified_text(info: FileInfo) -> Seq<char> {
    match modified_of(info) {
        Some(m) => if has_date(m as int) {
            date_text(m as int)
        } else {
            "unknown"@
        },
        None => "unknown"@,
    }
}

/// The response for `path` given what the file system says of it.
pub fn file_response(path: &str, info: &FileInfo) -> (r: PluginResponse)
    ensures
        is_file_response(r, path@, *info, modified_text(*info)),
{
    let date = match info {
        FileInfo::Directory { modified, .. } => date_of(*modified),
        FileInfo::File { modified, .. } => date_of(*modified),
        FileInfo::Symlink { modified, .. } => date_of(*modified),
        _ => None,
    };
    let r = describe_file(path, info, date);
    assert(is_file_response(r, path@, *info, shown_date(date)));
    r
}

} // verus!
