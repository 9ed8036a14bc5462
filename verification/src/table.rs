//! The table: a header, a separator and one row for each repository, in
//! seven columns of fixed width.

use vstd::prelude::*;
use vstd::string::*;
use crate::document::{document_of, lookup, read_document, JsonModel};
use crate::failure::{status_of, Failure};
use crate::records::{
    entries_in, entries_of, entry_of, entry_views, fault_of, key_of, repository_of, Entry,
    EntryView, Fault, Field, Repository, RepositoryView,
};
use crate::text::{
    dashes, decimal, decimal_text, lemma_padded_len, pad, padded, run, texts, Align,
};

verus! {

/// The width of the column of names.
pub const NAME_WIDTH: usize = 30;

/// The width of the column of languages and of each column of dates.
pub const TEXT_WIDTH: usize = 12;

/// The width of each column of counts.
pub const COUNT_WIDTH: usize = 6;

/// The width of a line whose texts fit their columns.
pub const LINE_WIDTH: usize = 110;

/// What stands between two cells of a line.
pub open spec fn bar() -> Seq<char> {
    seq![' ', '|', ' ']
}

/// What stands after the last cell of a line.
pub open spec fn line_end() -> Seq<char> {
    seq![' ', '|']
}

/// The line made of seven cells.
pub open spec fn joined(
    c0: Seq<char>,
    c1: Seq<char>,
    c2: Seq<char>,
    c3: Seq<char>,
    c4: Seq<char>,
    c5: Seq<char>,
    c6: Seq<char>,
) -> Seq<char> {
    c0 + bar() + c1 + bar() + c2 + bar() + c3 + bar() + c4 + bar() + c5 + bar() + c6 + line_end()
}

/// The line that shows seven texts, each in its column: the name on the
/// left, the language centered, the three dates on the right, and the two
/// counts centered.
pub open spec fn cells(
    name: Seq<char>,
    language: Seq<char>,
    created: Seq<char>,
    pushed: Seq<char>,
    updated: Seq<char>,
    forks: Seq<char>,
    stars: Seq<char>,
) -> Seq<char> {
    joined(
        padded(name, NAME_WIDTH as nat, Align::Left),
        padded(language, TEXT_WIDTH as nat, Align::Center),
        padded(created, TEXT_WIDTH as nat, Align::Right),
        padded(pushed, TEXT_WIDTH as nat, Align::Right),
        padded(updated, TEXT_WIDTH as nat, Align::Right),
        padded(forks, COUNT_WIDTH as nat, Align::Center),
        padded(stars, COUNT_WIDTH as nat, Align::Center),
    )
}

/// Whether each of the seven texts fits its column.
pub open spec fn fit(
    name: Seq<char>,
    language: Seq<char>,
    created: Seq<char>,
    pushed: Seq<char>,
    updated: Seq<char>,
    forks: Seq<char>,
    stars: Seq<char>,
) -> bool {
    &&& name.len() <= NAME_WIDTH
    &&& language.len() <= TEXT_WIDTH
    &&& created.len() <= TEXT_WIDTH
    &&& pushed.len() <= TEXT_WIDTH
    &&& updated.len() <= TEXT_WIDTH
    &&& forks.len() <= COUNT_WIDTH
    &&& stars.len() <= COUNT_WIDTH
}

/// The line that stands above the table.
pub open spec fn title(username: Seq<char>) -> Seq<char> {
    "Public repo statistics for user "@ + username + ":"@
}

/// The line that names the columns.
pub open spec fn header() -> Seq<char> {
    cells(
        "Repo Name"@,
        "Language"@,
        "Created at"@,
        "Last push"@,
        "Last update"@,
        "Forks"@,
        "Stars"@,
    )
}

/// The line of dashes under the header.
pub open spec fn separator() -> Seq<char> {
    joined(
        run('-', NAME_WIDTH as nat),
        run('-', TEXT_WIDTH as nat),
        run('-', TEXT_WIDTH as nat),
        run('-', TEXT_WIDTH as nat),
        run('-', TEXT_WIDTH as nat),
        run('-', COUNT_WIDTH as nat),
        run('-', COUNT_WIDTH as nat),
    )
}

/// What the column of languages shows.
pub open spec fn language_text(language: Option<Seq<char>>) -> Seq<char> {
    match language {
        Some(text) => text,
        None => "Unknown"@,
    }
}

/// The row of a repository.
pub open spec fn row(repository: RepositoryView) -> Seq<char> {
    cells(
        repository.name,
        language_text(repository.language),
        repository.created,
        repository.pushed,
        repository.updated,
        decimal(repository.forks as int),
        decimal(repository.stars as int),
    )
}

/// The number of entries that stand before the first one with a fault: all
/// of them where none has a fault.
pub open spec fn shown(entries: Seq<EntryView>) -> nat
    decreases entries.len(),
{
    if entries.len() == 0 || fault_of(entries.first()) is Some {
        0
    } else {
        1 + shown(entries.drop_first())
    }
}

/// The rows of the entries that are shown.
pub open spec fn rows_of(entries: Seq<EntryView>) -> Seq<Seq<char>> {
    Seq::new(shown(entries), |i: int| row(repository_of(entries[i])))
}

/// The failure on the first entry with a fault.
pub open spec fn failure_of(entries: Seq<EntryView>) -> Option<Failure> {
    let n = shown(entries);
    if n < entries.len() {
        Some(Failure::Row { index: n as usize, fault: fault_of(entries[n as int])->0 })
    } else {
        None
    }
}

/// What is written, line by line, and why it ended early, if it did.
#[derive(Debug)]
pub struct Output {
    pub lines: Vec<String>,
    pub failure: Option<Failure>,
}

pub ghost struct OutputView {
    pub lines: Seq<Seq<char>>,
    pub failure: Option<Failure>,
}

impl View for Output {
    type V = OutputView;

    open spec fn view(&self) -> OutputView {
        OutputView { lines: texts(self.lines@), failure: self.failure }
    }
}

/// The table of the entries: the header, the separator, and the rows of the
/// entries in their order, up to the first entry with a fault.
pub open spec fn table_of(entries: Seq<EntryView>) -> OutputView {
    OutputView { lines: seq![header(), separator()] + rows_of(entries), failure: failure_of(entries) }
}

/// The title, and under it the table of the entries.
pub open spec fn titled_table_of(username: Seq<char>, entries: Seq<EntryView>) -> OutputView {
    OutputView {
        lines: seq![title(username)] + table_of(entries).lines,
        failure: table_of(entries).failure,
    }
}

/// What is written for a response. Nothing is written for one that is not
/// read as a document, and nothing for a document that is no array; for an
/// array, the title and the table of its members.
pub open spec fn presentable_output(
    username: Seq<char>,
    document: Result<JsonModel, Failure>,
) -> OutputView {
    match document {
        Err(failure) => OutputView { lines: Seq::empty(), failure: Some(failure) },
        Ok(value) => match entries_of(value) {
            None => OutputView { lines: Seq::empty(), failure: Some(Failure::BodyNotArray) },
            Some(entries) => titled_table_of(username, entries),
        },
    }
}

/// Joins seven cells to one line.
fn join_cells(c0: &str, c1: &str, c2: &str, c3: &str, c4: &str, c5: &str, c6: &str) -> (out:
    String)
    ensures
        out@ == joined(c0@, c1@, c2@, c3@, c4@, c5@, c6@),
{
    proof {
        reveal_strlit(" | ");
        reveal_strlit(" |");
    }
    let mut out = String::from_str(c0);
    out.append(" | ");
    out.append(c1);
    out.append(" | ");
    out.append(c2);
    out.append(" | ");
    out.append(c3);
    out.append(" | ");
    out.append(c4);
    out.append(" | ");
    out.append(c5);
    out.append(" | ");
    out.append(c6);
    out.append(" |");
    out
}

/// Lays seven texts out as one line of the table. A text that is wider than
/// its column is not cut: it pushes the rest of its line to the right.
pub fn format_cells(
    name: &str,
    language: &str,
    created: &str,
    pushed: &str,
    updated: &str,
    forks: &str,
    stars: &str,
) -> (out: String)
    ensures
        out@ == cells(name@, language@, created@, pushed@, updated@, forks@, stars@),
{
    let c0 = pad(name, NAME_WIDTH, Align::Left);
    let c1 = pad(language, TEXT_WIDTH, Align::Center);
    let c2 = pad(created, TEXT_WIDTH, Align::Right);
    let c3 = pad(pushed, TEXT_WIDTH, Align::Right);
    let c4 = pad(updated, TEXT_WIDTH, Align::Right);
    let c5 = pad(forks, COUNT_WIDTH, Align::Center);
    let c6 = pad(stars, COUNT_WIDTH, Align::Center);
    join_cells(
        c0.as_str(),
        c1.as_str(),
        c2.as_str(),
        c3.as_str(),
        c4.as_str(),
        c5.as_str(),
        c6.as_str(),
    )
}

/// The line that stands above the table.
pub fn title_line(username: &str) -> (out: String)
    ensures
        out@ == title(username@),
{
    let mut out = String::from_str("Public repo statistics for user ");
    out.append(username);
    out.append(":");
    out
}

/// The line that names the columns.
pub fn header_line() -> (out: String)
    ensures
        out@ == header(),
{
    format_cells(
        "Repo Name",
        "Language",
        "Created at",
        "Last push",
        "Last update",
        "Forks",
        "Stars",
    )
}

/// The line of dashes under the header.
pub fn separator_line() -> (out: String)
    ensures
        out@ == separator(),
{
    let name = dashes(NAME_WIDTH);
    let text = dashes(TEXT_WIDTH);
    let count = dashes(COUNT_WIDTH);
    join_cells(
        name.as_str(),
        text.as_str(),
        text.as_str(),
        text.as_str(),
        text.as_str(),
        count.as_str(),
        count.as_str(),
    )
}

/// The row of a repository. A repository without a language shows
/// `Unknown`.
pub fn row_line(repository: &Repository) -> (out: String)
    ensures
        out@ == row(repository@),
{
    let language = match &repository.language {
        Some(text) => text.as_str(),
        None => "Unknown",
    };
    let forks = decimal_text(repository.forks);
    let stars = decimal_text(repository.stars);
    format_cells(
        repository.name.as_str(),
        language,
        repository.created.as_str(),
        repository.pushed.as_str(),
        repository.updated.as_str(),
        forks.as_str(),
        stars.as_str(),
    )
}

/// Writes the table of the entries after the lines that are there.
fn write_table(lines: &mut Vec<String>, entries: &Vec<Entry>) -> (failure: Option<Failure>)
    ensures
        texts(final(lines)@) == texts(old(lines)@) + table_of(entry_views(entries@)).lines,
        failure == table_of(entry_views(entries@)).failure,
{
    let ghost views = entry_views(entries@);
    let ghost before = texts(lines@);
    let first = lines.len();
    lines.push(header_line());
    lines.push(separator_line());
    let mut failure: Option<Failure> = None;
    let mut i: usize = 0;
    while i < entries.len()
        invariant_except_break
            failure is None,
        invariant
            i <= entries.len(),
            views == entry_views(entries@),
            first == before.len(),
            lines@.len() == first + 2 + i,
            forall|k: int| 0 <= k < first ==> (#[trigger] lines@[k])@ == before[k],
            lines@[first as int]@ == header(),
            lines@[first + 1]@ == separator(),
            forall|k: int| 0 <= k < i ==> fault_of(#[trigger] views[k]) is None,
            forall|k: int|
                first + 2 <= k < first + 2 + i ==> (#[trigger] lines@[k])@ == row(
                    repository_of(views[k - first - 2]),
                ),
        ensures
            i <= entries.len(),
            failure is None ==> i == entries.len(),
            failure is Some ==> i < entries.len() && fault_of(views[i as int]) is Some && failure
                == Some(Failure::Row { index: i, fault: fault_of(views[i as int])->0 }),
        decreases entries.len() - i,
    {
        match Repository::from_entry(&entries[i]) {
            Ok(repository) => {
                lines.push(row_line(&repository));
            },
            Err(fault) => {
                failure = Some(Failure::Row { index: i, fault });
                break;
            },
        }
        i = i + 1;
    }
    proof {
        lemma_shown_skips(views, i as int);
        assert(texts(lines@) =~= before + (seq![header(), separator()] + rows_of(views)));
    }
    failure
}

/// Writes the table of the entries: the header, the separator and one row
/// for each entry, in the order of the entries. The first entry with a fault
/// ends the table: the rows before it stay, and the failure names it.
pub fn render_table(entries: &Vec<Entry>) -> (out: Output)
    ensures
        out@ == table_of(entry_views(entries@)),
{
    let mut lines: Vec<String> = Vec::new();
    let failure = write_table(&mut lines, entries);
    assert(texts(Seq::<String>::empty()) + table_of(entry_views(entries@)).lines =~= table_of(
        entry_views(entries@),
    ).lines);
    Output { lines, failure }
}

/// Writes the title and, under it, the table of the entries.
pub fn present_entries(username: &str, entries: &Vec<Entry>) -> (out: Output)
    ensures
        out@ == titled_table_of(username@, entry_views(entries@)),
{
    let mut lines: Vec<String> = Vec::new();
    lines.push(title_line(username));
    assert(texts(lines@) =~= seq![title(username@)]);
    let failure = write_table(&mut lines, entries);
    Output { lines, failure }
}

/// Reads the response as a JSON array of repositories and writes the title
/// and the table. Nothing is written for a response that is no JSON array.
pub fn get_presentable_output(username: &str, json_string: &str) -> (out: Output)
    ensures
        out@ == presentable_output(username@, document_of(json_string@)),
{
    let document = match read_document(json_string) {
        Ok(value) => value,
        Err(failure) => {
            let out = Output { lines: Vec::new(), failure: Some(failure) };
            assert(out@.lines =~= Seq::empty());
            return out;
        },
    };
    match entries_in(&document) {
        Some(entries) => present_entries(username, &entries),
        None => {
            let out = Output { lines: Vec::new(), failure: Some(Failure::BodyNotArray) };
            assert(out@.lines =~= Seq::empty());
            out
        },
    }
}

/// In a line whose texts fit their columns, each column stands at the same
/// place whatever the texts are, and the line is `LINE_WIDTH` characters
/// wide.
pub proof fn lemma_columns_stand_fixed(
    name: Seq<char>,
    language: Seq<char>,
    created: Seq<char>,
    pushed: Seq<char>,
    updated: Seq<char>,
    forks: Seq<char>,
    stars: Seq<char>,
)
    requires
        fit(name, language, created, pushed, updated, forks, stars),
    ensures
        ({
            let line = cells(name, language, created, pushed, updated, forks, stars);
            &&& line.len() == LINE_WIDTH
            &&& line.subrange(0, 30) == padded(name, NAME_WIDTH as nat, Align::Left)
            &&& line.subrange(33, 45) == padded(language, TEXT_WIDTH as nat, Align::Center)
            &&& line.subrange(48, 60) == padded(created, TEXT_WIDTH as nat, Align::Right)
            &&& line.subrange(63, 75) == padded(pushed, TEXT_WIDTH as nat, Align::Right)
            &&& line.subrange(78, 90) == padded(updated, TEXT_WIDTH as nat, Align::Right)
            &&& line.subrange(93, 99) == padded(forks, COUNT_WIDTH as nat, Align::Center)
            &&& line.subrange(102, 108) == padded(stars, COUNT_WIDTH as nat, Align::Center)
        }),
{
    lemma_padded_len(name, NAME_WIDTH as nat, Align::Left);
    lemma_padded_len(language, TEXT_WIDTH as nat, Align::Center);
    lemma_padded_len(created, TEXT_WIDTH as nat, Align::Right);
    lemma_padded_len(pushed, TEXT_WIDTH as nat, Align::Right);
    lemma_padded_len(updated, TEXT_WIDTH as nat, Align::Right);
    lemma_padded_len(forks, COUNT_WIDTH as nat, Align::Center);
    lemma_padded_len(stars, COUNT_WIDTH as nat, Align::Center);
}

/// The header and the separator are `LINE_WIDTH` characters wide.
pub proof fn lemma_header_and_separator_width()
    ensures
        header().len() == LINE_WIDTH,
        separator().len() == LINE_WIDTH,
{
    reveal_strlit("Repo Name");
    reveal_strlit("Language");
    reveal_strlit("Created at");
    reveal_strlit("Last push");
    reveal_strlit("Last update");
    reveal_strlit("Forks");
    reveal_strlit("Stars");
    lemma_columns_stand_fixed(
        "Repo Name"@,
        "Language"@,
        "Created at"@,
        "Last push"@,
        "Last update"@,
        "Forks"@,
        "Stars"@,
    );
}

/// Where the first `i` entries have no fault, the count of those shown is
/// `i` more than the count for the rest.
pub proof fn lemma_shown_skips(entries: Seq<EntryView>, i: int)
    requires
        0 <= i <= entries.len(),
        forall|k: int| 0 <= k < i ==> fault_of(#[trigger] entries[k]) is None,
    ensures
        shown(entries) == i + shown(entries.skip(i)),
    decreases i,
{
    if i == 0 {
        assert(entries.skip(0) == entries);
    } else {
        lemma_shown_skips(entries, i - 1);
        assert(entries.skip(i - 1).drop_first() == entries.skip(i));
    }
}

/// The entries that are shown are those before the first entry with a
/// fault.
pub proof fn lemma_shown_ends_at_first_fault(entries: Seq<EntryView>)
    ensures
        shown(entries) <= entries.len(),
        forall|i: int| 0 <= i < shown(entries) ==> fault_of(#[trigger] entries[i]) is None,
        shown(entries) < entries.len() ==> fault_of(entries[shown(entries) as int]) is Some,
    decreases entries.len(),
{
    if entries.len() != 0 && fault_of(entries.first()) is None {
        let rest = entries.drop_first();
        lemma_shown_ends_at_first_fault(rest);
        assert forall|i: int| 0 <= i < shown(entries) implies fault_of(
            #[trigger] entries[i],
        ) is None by {
            if i > 0 {
                assert(entries[i] == rest[i - 1]);
            }
        }
    }
}

/// The table of entries without a fault: the header, the separator, and
/// then one row for each entry, in the order of the entries.
pub proof fn lemma_table_of_sound_entries(entries: Seq<EntryView>)
    requires
        forall|i: int| 0 <= i < entries.len() ==> fault_of(#[trigger] entries[i]) is None,
    ensures
        table_of(entries).failure is None,
        table_of(entries).lines.len() == entries.len() + 2,
        table_of(entries).lines[0] == header(),
        table_of(entries).lines[1] == separator(),
        forall|i: int|
            0 <= i < entries.len() ==> #[trigger] table_of(entries).lines[i + 2] == row(
                repository_of(entries[i]),
            ),
{
    lemma_shown_skips(entries, entries.len() as int);
}

/// A document that is an array of repositories without a fault is written
/// as the title, the header, the separator, and then one row for each
/// member of the array, in the order of the array.
pub proof fn lemma_output_of_sound_document(username: Seq<char>, items: Seq<JsonModel>)
    requires
        forall|i: int| 0 <= i < items.len() ==> fault_of(entry_of(#[trigger] items[i])) is None,
    ensures
        ({
            let out = presentable_output(username, Ok(JsonModel::Array(items)));
            &&& out.failure is None
            &&& out.lines.len() == items.len() + 3
            &&& out.lines[0] == title(username)
            &&& out.lines[1] == header()
            &&& out.lines[2] == separator()
            &&& forall|i: int|
                0 <= i < items.len() ==> #[trigger] out.lines[i + 3] == row(
                    repository_of(entry_of(items[i])),
                )
        }),
{
    let entries = entries_of(JsonModel::Array(items))->0;
    lemma_table_of_sound_entries(entries);
    let out = presentable_output(username, Ok(JsonModel::Array(items)));
    assert forall|i: int| 0 <= i < items.len() implies #[trigger] out.lines[i + 3] == row(
        repository_of(entry_of(items[i])),
    ) by {
        assert(out.lines[i + 3] == table_of(entries).lines[i + 2]);
    }
}

/// An entry without a count of forks is never shown. The table ends with a
/// failure at that entry or before it, and the status of the run is not
/// zero. Where nothing else is wrong up to that entry, the failure names it
/// and the field.
pub proof fn lemma_missing_forks_count_is_fatal(entries: Seq<EntryView>, k: int)
    requires
        0 <= k < entries.len(),
        entries[k].forks_count is None,
    ensures
        table_of(entries).failure is Some,
        status_of(table_of(entries).failure) != 0,
        rows_of(entries).len() <= k,
        (forall|i: int| 0 <= i < k ==> fault_of(#[trigger] entries[i]) is None) && fault_of(
            EntryView { forks_count: Some(0), ..entries[k] },
        ) is None ==> table_of(entries).failure == Some(
            Failure::Row { index: k as usize, fault: Fault::Missing(Field::ForksCount) },
        ),
{
    lemma_shown_ends_at_first_fault(entries);
    if forall|i: int| 0 <= i < k ==> fault_of(#[trigger] entries[i]) is None {
        lemma_shown_skips(entries, k);
    }
}

/// A member of the document without a count of forks is never shown,
/// neither blank nor as zero. What is written ends at that member or before
/// it, and the status of the run is not zero.
pub proof fn lemma_document_without_forks_count_is_fatal(
    username: Seq<char>,
    items: Seq<JsonModel>,
    k: int,
)
    requires
        0 <= k < items.len(),
        lookup(items[k], key_of(Field::ForksCount)) == JsonModel::Null,
    ensures
        ({
            let out = presentable_output(username, Ok(JsonModel::Array(items)));
            &&& out.failure is Some
            &&& status_of(out.failure) != 0
            &&& out.lines.len() <= k + 3
        }),
{
    let entries = entries_of(JsonModel::Array(items))->0;
    lemma_missing_forks_count_is_fatal(entries, k);
}

} // verus!
