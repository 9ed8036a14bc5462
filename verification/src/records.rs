//! Repository records: what a document holds of each repository, and what
//! of it can be shown.

use vstd::prelude::*;
use vstd::string::*;
use crate::document::{
    content, int32_member, int32_of, is_array, lookup, members, text_member, text_of, JsonModel,
};

verus! {

/// The number of characters of a timestamp that make up its date.
pub const DATE_LENGTH: usize = 10;

/// A field that a repository must have.
#[derive(Clone, Copy, Debug, PartialEq, Eq, Structural)]
pub enum Field {
    Name,
    CreatedAt,
    PushedAt,
    UpdatedAt,
    ForksCount,
    StargazersCount,
}

/// The key of the field in a member of the document.
pub open spec fn key_of(field: Field) -> Seq<char> {
    match field {
        Field::Name => "name"@,
        Field::CreatedAt => "created_at"@,
        Field::PushedAt => "pushed_at"@,
        Field::UpdatedAt => "updated_at"@,
        Field::ForksCount => "forks_count"@,
        Field::StargazersCount => "stargazers_count"@,
    }
}

impl Field {
    /// The key of the field in a member of the document.
    pub fn key(self) -> (key: &'static str)
        ensures
            key@ == key_of(self),
    {
        match self {
            Field::Name => "name",
            Field::CreatedAt => "created_at",
            Field::PushedAt => "pushed_at",
            Field::UpdatedAt => "updated_at",
            Field::ForksCount => "forks_count",
            Field::StargazersCount => "stargazers_count",
        }
    }
}

/// Why a repository cannot be shown.
#[derive(Clone, Copy, Debug, PartialEq, Eq, Structural)]
pub enum Fault {
    /// The field is absent, or holds a value of another type.
    Missing(Field),
    /// The timestamp is shorter than a date.
    ShortDate(Field),
}

/// One member of the document's array, field by field. A field is `None`
/// where the member lacks it or holds a value of another type under its key.
#[derive(Debug)]
pub struct Entry {
    pub name: Option<String>,
    pub language: Option<String>,
    pub created_at: Option<String>,
    pub pushed_at: Option<String>,
    pub updated_at: Option<String>,
    pub forks_count: Option<i32>,
    pub stargazers_count: Option<i32>,
}

pub ghost struct EntryView {
    pub name: Option<Seq<char>>,
    pub language: Option<Seq<char>>,
    pub created_at: Option<Seq<char>>,
    pub pushed_at: Option<Seq<char>>,
    pub updated_at: Option<Seq<char>>,
    pub forks_count: Option<i32>,
    pub stargazers_count: Option<i32>,
}

pub open spec fn text_view(text: Option<String>) -> Option<Seq<char>> {
    match text {
        Some(s) => Some(s@),
        None => None,
    }
}

impl View for Entry {
    type V = EntryView;

    open spec fn view(&self) -> EntryView {
        EntryView {
            name: text_view(self.name),
            language: text_view(self.language),
            created_at: text_view(self.created_at),
            pushed_at: text_view(self.pushed_at),
            updated_at: text_view(self.updated_at),
            forks_count: self.forks_count,
            stargazers_count: self.stargazers_count,
        }
    }
}

/// A repository that can be shown: every field is there, and of each
/// timestamp the date is kept.
#[derive(Debug)]
pub struct Repository {
    pub name: String,
    pub language: Option<String>,
    pub created: String,
    pub pushed: String,
    pub updated: String,
    pub forks: i32,
    pub stars: i32,
}

pub ghost struct RepositoryView {
    pub name: Seq<char>,
    pub language: Option<Seq<char>>,
    pub created: Seq<char>,
    pub pushed: Seq<char>,
    pub updated: Seq<char>,
    pub forks: i32,
    pub stars: i32,
}

impl View for Repository {
    type V = RepositoryView;

    open spec fn view(&self) -> RepositoryView {
        RepositoryView {
            name: self.name@,
            language: text_view(self.language),
            created: self.created@,
            pushed: self.pushed@,
            updated: self.updated@,
            forks: self.forks,
            stars: self.stars,
        }
    }
}

/// The views of the entries, in their order.
pub open spec fn entry_views(entries: Seq<Entry>) -> Seq<EntryView> {
    Seq::new(entries.len(), |i: int| entries[i]@)
}

/// What the member `value` of the document's array gives for each field:
/// the text or the number under the field's key. The language, which a
/// repository may lack, stands under the key `language`.
pub open spec fn entry_of(value: JsonModel) -> EntryView {
    EntryView {
        name: text_of(lookup(value, key_of(Field::Name))),
        language: text_of(lookup(value, "language"@)),
        created_at: text_of(lookup(value, key_of(Field::CreatedAt))),
        pushed_at: text_of(lookup(value, key_of(Field::PushedAt))),
        updated_at: text_of(lookup(value, key_of(Field::UpdatedAt))),
        forks_count: int32_of(lookup(value, key_of(Field::ForksCount))),
        stargazers_count: int32_of(lookup(value, key_of(Field::StargazersCount))),
    }
}

/// The entries of a document: one for each member of the array, in the
/// array's order. A document that is no array has none to give.
pub open spec fn entries_of(document: JsonModel) -> Option<Seq<EntryView>> {
    match document {
        JsonModel::Array(items) => Some(Seq::new(items.len(), |i: int| entry_of(items[i]))),
        _ => None,
    }
}

/// The date of a timestamp: its first characters.
pub open spec fn date_of(timestamp: Seq<char>) -> Seq<char> {
    timestamp.take(DATE_LENGTH as int)
}

/// The first thing that is wrong with a timestamp of the entry.
pub open spec fn date_fault(timestamp: Option<Seq<char>>, field: Field) -> Option<Fault> {
    match timestamp {
        None => Some(Fault::Missing(field)),
        Some(s) => if s.len() < DATE_LENGTH {
            Some(Fault::ShortDate(field))
        } else {
            None
        },
    }
}

/// The first thing that is wrong with the entry, going through the fields in
/// the order of the table's columns.
pub open spec fn fault_of(entry: EntryView) -> Option<Fault> {
    if entry.name is None {
        Some(Fault::Missing(Field::Name))
    } else if date_fault(entry.created_at, Field::CreatedAt) is Some {
        date_fault(entry.created_at, Field::CreatedAt)
    } else if date_fault(entry.pushed_at, Field::PushedAt) is Some {
        date_fault(entry.pushed_at, Field::PushedAt)
    } else if date_fault(entry.updated_at, Field::UpdatedAt) is Some {
        date_fault(entry.updated_at, Field::UpdatedAt)
    } else if entry.forks_count is None {
        Some(Fault::Missing(Field::ForksCount))
    } else if entry.stargazers_count is None {
        Some(Fault::Missing(Field::StargazersCount))
    } else {
        None
    }
}

/// The repository that an entry without a fault describes.
pub open spec fn repository_of(entry: EntryView) -> RepositoryView {
    RepositoryView {
        name: entry.name->0,
        language: entry.language,
        created: date_of(entry.created_at->0),
        pushed: date_of(entry.pushed_at->0),
        updated: date_of(entry.updated_at->0),
        forks: entry.forks_count->0,
        stars: entry.stargazers_count->0,
    }
}

/// The date of the timestamp of `field`.
fn date(timestamp: &Option<String>, field: Field) -> (r: Result<String, Fault>)
    ensures
        match r {
            Ok(d) => date_fault(text_view(*timestamp), field) is None && d@ == date_of(
                timestamp->0@,
            ),
            Err(fault) => date_fault(text_view(*timestamp), field) == Some(fault),
        },
{
    match timestamp {
        None => Err(Fault::Missing(field)),
        Some(s) => {
            let text = s.as_str();
            if text.unicode_len() < DATE_LENGTH {
                Err(Fault::ShortDate(field))
            } else {
                Ok(text.substring_char(0, DATE_LENGTH).to_owned())
            }
        },
    }
}

impl Repository {
    /// Checks that the entry has every field that a row needs, and keeps the
    /// date of each timestamp. The error is the first fault in the order of
    /// the table's columns.
    pub fn from_entry(entry: &Entry) -> (r: Result<Repository, Fault>)
        ensures
            match r {
                Ok(repository) => fault_of(entry@) is None && repository@ == repository_of(
                    entry@,
                ),
                Err(fault) => fault_of(entry@) == Some(fault),
            },
    {
        let name = match &entry.name {
            Some(s) => s.clone(),
            None => {
                return Err(Fault::Missing(Field::Name));
            },
        };
        let language = match &entry.language {
            Some(s) => Some(s.clone()),
            None => None,
        };
        let created = date(&entry.created_at, Field::CreatedAt)?;
        let pushed = date(&entry.pushed_at, Field::PushedAt)?;
        let updated = date(&entry.updated_at, Field::UpdatedAt)?;
        let forks = match entry.forks_count {
            Some(n) => n,
            None => {
                return Err(Fault::Missing(Field::ForksCount));
            },
        };
        let stars = match entry.stargazers_count {
            Some(n) => n,
            None => {
                return Err(Fault::Missing(Field::StargazersCount));
            },
        };
        Ok(Repository { name, language, created, pushed, updated, forks, stars })
    }
}

/// What `value` gives for each field of a repository.
pub(crate) fn entry_in(value: &json::JsonValue) -> (entry: Entry)
    ensures
        entry@ == entry_of(content(*value)),
{
    Entry {
        name: text_member(value, Field::Name.key()),
        language: text_member(value, "language"),
        created_at: text_member(value, Field::CreatedAt.key()),
        pushed_at: text_member(value, Field::PushedAt.key()),
        updated_at: text_member(value, Field::UpdatedAt.key()),
        forks_count: int32_member(value, Field::ForksCount.key()),
        stargazers_count: int32_member(value, Field::StargazersCount.key()),
    }
}

/// The entries of `document`, and `None` where it is no array.
pub(crate) fn entries_in(document: &json::JsonValue) -> (r: Option<Vec<Entry>>)
    ensures
        match r {
            Some(entries) => entries_of(content(*document)) == Some(entry_views(entries@)),
            None => entries_of(content(*document)) is None,
        },
{
    if !is_array(document) {
        return None;
    }
    let items = members(document);
    let mut entries: Vec<Entry> = Vec::new();
    let mut i: usize = 0;
    while i < items.len()
        invariant
            i <= items.len(),
            entries.len() == i,
            content(*document) is Array,
            items@.len() == content(*document)->Array_0.len(),
            forall|k: int|
                0 <= k < items@.len() ==> content(*#[trigger] items@[k]) == content(
                    *document,
                )->Array_0[k],
            forall|k: int| 0 <= k < i ==> (#[trigger] entries@[k])@ == entry_of(content(*items@[k])),
        decreases items.len() - i,
    {
        let entry = entry_in(items[i]);
        entries.push(entry);
        i = i + 1;
    }
    Some(entries)
}

} // verus!
