//! CSV text parsed into a header and rows, and drawn as a bordered table.
//!
//! Parsing is the `csv` crate's and drawing is `comfy_table`'s. What is
//! verified here is everything between the two: which records become the
//! header and the rows, when the whole operation fails, and that the table
//! that is drawn holds exactly the parsed cells.

use vstd::prelude::*;
use crate::error::{Failure, OpError, outcome};
use crate::text::chars_of;

verus! {

#[verifier::external_type_specification]
#[verifier::external_body]
#[verifier::reject_recursive_types(R)]
pub struct ExCsvReader<R>(csv::Reader<R>);

#[verifier::external_type_specification]
#[verifier::external_body]
pub struct ExCsvError(csv::Error);

#[verifier::external_type_specification]
#[verifier::external_body]
pub struct ExGrid(comfy_table::Table);

/// The header record that the CSV parser reads from `text`: its fields, or
/// the parser's message.
pub uninterp spec fn csv_header(text: Seq<char>) -> Result<Seq<Seq<char>>, Seq<char>>;

/// The data records that the CSV parser reads from `text` after the header,
/// in order: for each one its fields, or the parser's message.
pub uninterp spec fn csv_rows(text: Seq<char>) -> Seq<Result<Seq<Seq<char>>, Seq<char>>>;

/// The text that a reader was made over.
pub uninterp spec fn reader_text(r: csv::Reader<&[u8]>) -> Seq<char>;

/// The data records that a reader has yet to give.
pub uninterp spec fn reader_rows(r: csv::Reader<&[u8]>) -> Seq<Result<Seq<Seq<char>>, Seq<char>>>;

/// The text that a parser error displays.
pub uninterp spec fn error_message(e: csv::Error) -> Seq<char>;

/// The header cells that a drawing table holds, if a header was set.
pub uninterp spec fn grid_header(t: comfy_table::Table) -> Option<Seq<Seq<char>>>;

/// The rows of cells that a drawing table holds.
pub uninterp spec fn grid_rows(t: comfy_table::Table) -> Seq<Seq<Seq<char>>>;

/// Whether a drawing table still has the layout it was created with: the
/// default style and arrangement, and one default column for each position
/// of its widest row, the header counted as a row.
pub uninterp spec fn grid_is_plain(t: comfy_table::Table) -> bool;

/// The text that a table in the default layout is drawn as.
pub uninterp spec fn table_text(header: Option<Seq<Seq<char>>>, rows: Seq<Seq<Seq<char>>>) -> Seq<
    char,
>;

/// Whether what a reading call returned is the record `expected`.
pub open spec fn is_record(
    got: Result<Vec<String>, csv::Error>,
    expected: Result<Seq<Seq<char>>, Seq<char>>,
) -> bool {
    match got {
        Ok(fields) => expected == Ok::<Seq<Seq<char>>, Seq<char>>(fields.deep_view()),
        Err(e) => expected == Err::<Seq<Seq<char>>, Seq<char>>(error_message(e)),
    }
}

/// Makes a reader over `input` that treats the first record as the header.
///
/// Trusted: `csv::ReaderBuilder::from_reader`, with `has_headers(true)` and
/// otherwise default settings (comma-delimited, double quotes, records of
/// equal length). The reader holds the data records of `input`, none taken.
#[verifier::external_body]
fn open_reader<'a>(input: &'a str) -> (r: csv::Reader<&'a [u8]>)
    ensures
        reader_text(r) == input@,
        reader_rows(r) == csv_rows(input@),
{
    csv::ReaderBuilder::new().has_headers(true).from_reader(input.as_bytes())
}

/// Reads the header record.
///
/// Trusted: `csv::Reader::headers`. It gives the first record of the text,
/// whatever has been read before, and takes no data record. Of a text
/// without any character it gives a record without fields.
#[verifier::external_body]
fn read_header(r: &mut csv::Reader<&[u8]>) -> (h: Result<Vec<String>, csv::Error>)
    ensures
        is_record(h, csv_header(reader_text(*old(r)))),
        reader_text(*old(r)).len() == 0 ==> h is Ok && h->Ok_0.len() == 0,
        reader_text(*final(r)) == reader_text(*old(r)),
        reader_rows(*final(r)) == reader_rows(*old(r)),
{
    r.headers().map(|rec| rec.iter().map(String::from).collect())
}

/// Takes the next data record, if one is left.
///
/// Trusted: `next` on `csv::Reader::records`. It gives `None` when no record
/// is left, else the first of them, which then leaves the reader.
#[verifier::external_body]
fn next_record(r: &mut csv::Reader<&[u8]>) -> (item: Option<Result<Vec<String>, csv::Error>>)
    ensures
        reader_text(*final(r)) == reader_text(*old(r)),
        match item {
            None => reader_rows(*old(r)).len() == 0 && reader_rows(*final(r)).len() == 0,
            Some(got) => reader_rows(*old(r)).len() > 0 && is_record(got, reader_rows(*old(r))[0])
                && reader_rows(*final(r)) == reader_rows(*old(r)).skip(1),
        },
{
    r.records().next().map(|res| res.map(|rec| rec.iter().map(String::from).collect()))
}

/// The text of a parser error.
///
/// Trusted: `to_string` on `csv::Error`, its `Display` text.
#[verifier::external_body]
fn error_text(e: &csv::Error) -> (s: String)
    ensures
        s@ == error_message(*e),
{
    e.to_string()
}

/// Makes an empty drawing table.
///
/// Trusted: `comfy_table::Table::new`. The table has no header and no rows.
#[verifier::external_body]
fn new_grid() -> (t: comfy_table::Table)
    ensures
        grid_is_plain(t),
        grid_header(t) == None::<Seq<Seq<char>>>,
        grid_rows(t) == Seq::<Seq<Seq<char>>>::empty(),
{
    comfy_table::Table::new()
}

/// Gives a table that has no header yet a header row of one cell per string
/// of `cells`.
///
/// Trusted: `comfy_table::Table::set_header`, given cells made by
/// `comfy_table::Cell::new`. It sets the header and leaves the rows as they
/// are. The table keeps a column for every position it has ever seen and
/// never drops one, so only a first header leaves the layout as that of a
/// table made with this header from the start.
#[verifier::external_body]
fn set_grid_header(t: &mut comfy_table::Table, cells: &Vec<String>)
    requires
        grid_header(*old(t)) is None,
    ensures
        grid_header(*final(t)) == Some(cells.deep_view()),
        grid_rows(*final(t)) == grid_rows(*old(t)),
        grid_is_plain(*final(t)) == grid_is_plain(*old(t)),
{
    t.set_header(cells.iter().map(comfy_table::Cell::new).collect::<Vec<_>>());
}

/// Appends a row of one cell per string of `cells`.
///
/// Trusted: `comfy_table::Table::add_row`, given cells made by
/// `comfy_table::Cell::new`. It adds the row after the rows present and
/// leaves the header and the layout as they are.
#[verifier::external_body]
fn add_grid_row(t: &mut comfy_table::Table, cells: &Vec<String>)
    ensures
        grid_rows(*final(t)) == grid_rows(*old(t)).push(cells.deep_view()),
        grid_header(*final(t)) == grid_header(*old(t)),
        grid_is_plain(*final(t)) == grid_is_plain(*old(t)),
{
    t.add_row(cells.iter().map(comfy_table::Cell::new).collect::<Vec<_>>());
}

/// Draws the table as text.
///
/// Trusted: the `Display` text of `comfy_table::Table`. For a table in the
/// layout that `Table::new` gives, it depends on the header and the rows
/// alone.
#[verifier::external_body]
fn draw_grid(t: &comfy_table::Table) -> (s: String)
    requires
        grid_is_plain(*t),
    ensures
        s@ == table_text(grid_header(*t), grid_rows(*t)),
{
    format!("{}", t)
}

/// A parsed CSV table: a header with at least one column, and rows that each
/// have one field per column.
pub struct CsvTable {
    header: Vec<String>,
    rows: Vec<Vec<String>>,
}

/// What a `CsvTable` holds.
pub ghost struct TableModel {
    pub header: Seq<Seq<char>>,
    pub rows: Seq<Seq<Seq<char>>>,
}

impl TableModel {
    /// At least one column, and every row as wide as the header.
    pub open spec fn rectangular(self) -> bool {
        &&& self.header.len() > 0
        &&& forall|i: int| 0 <= i < self.rows.len() ==> (#[trigger] self.rows[i]).len() == self.header.len()
    }
}

impl View for CsvTable {
    type V = TableModel;

    closed spec fn view(&self) -> TableModel {
        TableModel { header: self.header.deep_view(), rows: self.rows.deep_view() }
    }
}

impl CsvTable {
    /// The invariant of every table that this module hands out.
    pub open spec fn wf(&self) -> bool {
        self@.rectangular()
    }

    /// A table with the given header and no rows. A header without columns
    /// is refused.
    pub fn new(header: Vec<String>) -> (r: Result<CsvTable, OpError>)
        ensures
            header.len() == 0 ==> r is Err && r->Err_0@ == Failure::MissingHeader,
            header.len() > 0 ==> r is Ok && r->Ok_0.wf() && r->Ok_0@ == (TableModel {
                header: header.deep_view(),
                rows: Seq::empty(),
            }),
    {
        if header.len() == 0 {
            return Err(OpError::MissingHeader);
        }
        let table = CsvTable { header, rows: Vec::new() };
        assert(table@.rows =~= Seq::empty());
        Ok(table)
    }

    /// Appends `row`, unless its number of fields differs from the number of
    /// columns: then the table stays as it is and the row is refused.
    pub fn push_row(&mut self, row: Vec<String>) -> (r: Result<(), OpError>)
        requires
            old(self).wf(),
        ensures
            final(self).wf(),
            final(self)@.header == old(self)@.header,
            row.len() == old(self)@.header.len() ==> r is Ok && final(self)@.rows == old(self)@.rows.push(
                row.deep_view(),
            ),
            row.len() != old(self)@.header.len() ==> r is Err && final(self)@ == old(self)@
                && r->Err_0@ == (Failure::RaggedRow {
                expected: old(self)@.header.len(),
                found: row.len() as nat,
            }),
    {
        let expected = self.header.len();
        let found = row.len();
        if found != expected {
            return Err(OpError::RaggedRow { expected, found });
        }
        let ghost before = self.rows.deep_view();
        self.rows.push(row);
        proof {
            assert(self.rows.deep_view() =~= before.push(row.deep_view()));
            assert forall|i: int| 0 <= i < self@.rows.len() implies (#[trigger] self@.rows[i]).len()
                == self@.header.len() by {
                if i < before.len() {
                    assert(self@.rows[i] == old(self)@.rows[i]);
                } else {
                    assert(self@.rows[i] == row.deep_view());
                    assert(row.deep_view().len() == row.len());
                    assert(self@.header.len() == self.header.len());
                }
            }
        }
        Ok(())
    }

    /// The column names.
    pub fn header(&self) -> (h: &Vec<String>)
        ensures
            h.deep_view() == self@.header,
    {
        &self.header
    }

    /// The data rows, in input order.
    pub fn rows(&self) -> (r: &Vec<Vec<String>>)
        ensures
            r.deep_view() == self@.rows,
    {
        &self.rows
    }
}

/// Where a scan of CSV text stands with respect to fields and quotes.
#[derive(Clone, Copy, Debug, PartialEq, Eq, Structural)]
pub enum QuoteState {
    /// At the start of a field.
    FieldStart,
    /// Inside a field that did not open with a quote.
    Plain,
    /// Inside a quoted field, before its closing quote.
    Quoted,
    /// After a quote inside a quoted field: the closing one, or the first of
    /// a doubled pair.
    QuoteSeen,
}

/// Whether `c` ends a field: the delimiter or a line end.
pub open spec fn ends_field(c: char) -> bool {
    c == ',' || c == '\n' || c == '\r'
}

/// The state after reading `c` in `state`.
///
/// A quote opens a quoted field only at the start of a field. Inside one, a
/// quote either closes it or, followed by another, stands for one literal
/// quote. Delimiters and line ends inside quotes are part of the field.
pub open spec fn quote_step(state: QuoteState, c: char) -> QuoteState {
    match state {
        QuoteState::FieldStart => if c == '"' {
            QuoteState::Quoted
        } else if ends_field(c) {
            QuoteState::FieldStart
        } else {
            QuoteState::Plain
        },
        QuoteState::Plain => if ends_field(c) {
            QuoteState::FieldStart
        } else {
            QuoteState::Plain
        },
        QuoteState::Quoted => if c == '"' {
            QuoteState::QuoteSeen
        } else {
            QuoteState::Quoted
        },
        QuoteState::QuoteSeen => if c == '"' {
            QuoteState::Quoted
        } else if ends_field(c) {
            QuoteState::FieldStart
        } else {
            QuoteState::Plain
        },
    }
}

/// The state after reading all of `text` from the start of a field.
pub open spec fn quote_state(text: Seq<char>) -> QuoteState
    decreases text.len(),
{
    if text.len() == 0 {
        QuoteState::FieldStart
    } else {
        quote_step(quote_state(text.drop_last()), text.last())
    }
}

/// `text` without a byte-order mark at its very start. The mark is no part
/// of the first field: a quote right after it opens a quoted field.
pub open spec fn without_mark(text: Seq<char>) -> Seq<char> {
    if text.len() > 0 && text.first() == '\u{feff}' {
        text.drop_first()
    } else {
        text
    }
}

/// Whether `text` ends inside a quoted field: some field, of the header or
/// of a row, opens with a quote that is never closed.
pub open spec fn quote_left_open(text: Seq<char>) -> bool {
    quote_state(without_mark(text)) == QuoteState::Quoted
}

/// The state after reading `c` in `state`.
fn step_quote(state: QuoteState, c: char) -> (next: QuoteState)
    ensures
        next == quote_step(state, c),
{
    let ends = c == ',' || c == '\n' || c == '\r';
    match state {
        QuoteState::FieldStart => if c == '"' {
            QuoteState::Quoted
        } else if ends {
            QuoteState::FieldStart
        } else {
            QuoteState::Plain
        },
        QuoteState::Plain => if ends {
            QuoteState::FieldStart
        } else {
            QuoteState::Plain
        },
        QuoteState::Quoted => if c == '"' {
            QuoteState::QuoteSeen
        } else {
            QuoteState::Quoted
        },
        QuoteState::QuoteSeen => if c == '"' {
            QuoteState::Quoted
        } else if ends {
            QuoteState::FieldStart
        } else {
            QuoteState::Plain
        },
    }
}

/// Whether the CSV text ends inside a quoted field.
pub fn has_open_quote(input: &str) -> (b: bool)
    ensures
        b == quote_left_open(input@),
{
    let chars = chars_of(input);
    let start: usize = if chars.len() > 0 && chars[0] == '\u{feff}' {
        1
    } else {
        0
    };
    assert(without_mark(input@) =~= input@.subrange(start as int, input@.len() as int));
    let mut state = QuoteState::FieldStart;
    let mut i: usize = start;
    while i < chars.len()
        invariant
            start <= i <= chars.len(),
            chars@ == input@,
            state == quote_state(input@.subrange(start as int, i as int)),
        decreases chars.len() - i,
    {
        assert(input@.subrange(start as int, i + 1).drop_last() =~= input@.subrange(
            start as int,
            i as int,
        ));
        state = step_quote(state, chars[i]);
        i += 1;
    }
    state == QuoteState::Quoted
}

/// The rows of a table `width` columns wide, taken from `records` in order:
/// all of them, unless one was rejected by the parser or has another number
/// of fields. The first such record decides the failure.
pub open spec fn gather(width: nat, records: Seq<Result<Seq<Seq<char>>, Seq<char>>>) -> Result<
    Seq<Seq<Seq<char>>>,
    Failure,
>
    decreases records.len(),
{
    if records.len() == 0 {
        Ok(Seq::empty())
    } else {
        match records[0] {
            Err(message) => Err(Failure::Csv { message }),
            Ok(fields) => if fields.len() != width {
                Err(Failure::RaggedRow { expected: width, found: fields.len() })
            } else {
                after(seq![fields], gather(width, records.skip(1)))
            },
        }
    }
}

/// `done` followed by the rows of `rest`, or the failure of `rest`.
pub open spec fn after(done: Seq<Seq<Seq<char>>>, rest: Result<Seq<Seq<Seq<char>>>, Failure>) -> Result<
    Seq<Seq<Seq<char>>>,
    Failure,
> {
    match rest {
        Ok(rows) => Ok(done + rows),
        Err(e) => Err(e),
    }
}

/// The table that a header record and the data records make: the first
/// record is the header and must have a column; every later record is a row.
pub open spec fn assemble(
    header: Result<Seq<Seq<char>>, Seq<char>>,
    records: Seq<Result<Seq<Seq<char>>, Seq<char>>>,
) -> Result<TableModel, Failure> {
    match header {
        Err(message) => Err(Failure::Csv { message }),
        Ok(names) => if names.len() == 0 {
            Err(Failure::MissingHeader)
        } else {
            match gather(names.len(), records) {
                Ok(rows) => Ok(TableModel { header: names, rows }),
                Err(e) => Err(e),
            }
        },
    }
}

/// The table that the CSV text `text` parses to, or why it has none. A text
/// that ends inside a quoted field has none, whatever its records would be.
pub open spec fn parsed(text: Seq<char>) -> Result<TableModel, Failure> {
    if quote_left_open(text) {
        Err(Failure::OpenQuote)
    } else {
        assemble(csv_header(text), csv_rows(text))
    }
}

/// What the CSV operation gives for `text`: the drawn table, or the failure.
pub open spec fn csv_result(text: Seq<char>) -> Result<Seq<char>, Failure> {
    match parsed(text) {
        Ok(table) => Ok(table_text(Some(table.header), table.rows)),
        Err(e) => Err(e),
    }
}

/// Taking one accepted record from the front moves it to the rows done.
proof fn lemma_gather_step(
    width: nat,
    done: Seq<Seq<Seq<char>>>,
    records: Seq<Result<Seq<Seq<char>>, Seq<char>>>,
)
    requires
        records.len() > 0,
        records[0] is Ok,
        records[0]->Ok_0.len() == width,
    ensures
        after(done, gather(width, records)) == after(
            done.push(records[0]->Ok_0),
            gather(width, records.skip(1)),
        ),
{
    let fields = records[0]->Ok_0;
    match gather(width, records.skip(1)) {
        Ok(rest) => {
            assert(done + (seq![fields] + rest) =~= done.push(fields) + rest);
        },
        Err(_) => {},
    }
}

/// Parses CSV text: the first record is the header, each later one a row.
///
/// Nothing is kept of a text that fails: one that ends inside a quoted
/// field, one without a header record, one in which the parser rejects a
/// record, or one with a row whose number of fields differs from the
/// header's.
pub fn parse_csv(input: &str) -> (r: Result<CsvTable, OpError>)
    ensures
        match r {
            Ok(table) => table.wf() && parsed(input@) == Ok::<TableModel, Failure>(table@),
            Err(e) => parsed(input@) == Err::<TableModel, Failure>(e@),
        },
        quote_left_open(input@) ==> r is Err && r->Err_0@ == Failure::OpenQuote,
        input@.len() == 0 ==> r is Err && r->Err_0@ == Failure::MissingHeader,
{
    if has_open_quote(input) {
        return Err(OpError::OpenQuote);
    }
    let mut reader = open_reader(input);
    let names = match read_header(&mut reader) {
        Ok(names) => names,
        Err(e) => {
            return Err(OpError::Csv { message: error_text(&e) });
        },
    };
    let ghost width = names.len() as nat;
    assert(names.deep_view().len() == names.len());
    let mut table = match CsvTable::new(names) {
        Ok(table) => table,
        Err(e) => {
            return Err(e);
        },
    };
    loop
        invariant
            !quote_left_open(input@),
            input@.len() > 0,
            table.wf(),
            table@.header == names.deep_view(),
            width == names.deep_view().len(),
            width > 0,
            csv_header(input@) == Ok::<Seq<Seq<char>>, Seq<char>>(names.deep_view()),
            gather(width, csv_rows(input@)) == after(
                table@.rows,
                gather(width, reader_rows(reader)),
            ),
        decreases reader_rows(reader).len(),
    {
        let ghost pending = reader_rows(reader);
        match next_record(&mut reader) {
            None => {
                assert(table@.rows + Seq::<Seq<Seq<char>>>::empty() =~= table@.rows);
                return Ok(table);
            },
            Some(Err(e)) => {
                return Err(OpError::Csv { message: error_text(&e) });
            },
            Some(Ok(fields)) => {
                assert(fields.deep_view().len() == fields.len());
                proof {
                    if fields.len() == width {
                        lemma_gather_step(width, table@.rows, pending);
                    }
                }
                match table.push_row(fields) {
                    Ok(()) => {},
                    Err(e) => {
                        return Err(e);
                    },
                }
            },
        }
    }
}

/// Draws a table as bordered text: the header, then the rows in order.
pub fn render_table(table: &CsvTable) -> (text: String)
    ensures
        text@ == table_text(Some(table@.header), table@.rows),
{
    let mut grid = new_grid();
    set_grid_header(&mut grid, table.header());
    let rows = table.rows();
    let mut i: usize = 0;
    while i < rows.len()
        invariant
            i <= rows.len(),
            rows.deep_view() == table@.rows,
            grid_is_plain(grid),
            grid_header(grid) == Some(table@.header),
            grid_rows(grid) == table@.rows.take(i as int),
        decreases rows.len() - i,
    {
        add_grid_row(&mut grid, &rows[i]);
        assert(table@.rows.take(i as int).push(rows[i as int].deep_view()) =~= table@.rows.take(
            i + 1,
        ));
        i += 1;
    }
    assert(table@.rows.take(i as int) =~= table@.rows);
    draw_grid(&grid)
}

/// Parses CSV text and draws it as a bordered table; all or nothing.
pub fn csv_operation(input: &str) -> (r: Result<String, OpError>)
    ensures
        outcome(r) == csv_result(input@),
        quote_left_open(input@) ==> r is Err && r->Err_0@ == Failure::OpenQuote,
        input@.len() == 0 ==> r is Err && r->Err_0@ == Failure::MissingHeader,
{
    match parse_csv(input) {
        Ok(table) => Ok(render_table(&table)),
        Err(e) => Err(e),
    }
}

} // verus!
