//! Reading an uploaded spatial layout file: UTF-8 text that is either a JSON array of points or a
//! CSV table with the headers `x,y,z`. This module checks everything but the numbers: it hands
//! back the JSON text, or the CSV rows as trimmed cells up to the first malformed row.

use vstd::prelude::*;
use vstd::slice::slice_to_vec;
use vstd::utf8::{decode_utf8, valid_utf8};
use crate::clipboard::texts;
use crate::document::{LayoutParseError, LayoutParseErrorKind};
use crate::protocol::string_from_utf8;
use crate::text::{decimal_text, push_char, push_decimal, str_equal, trim, trim_text};

verus! {

/// `s` cut at every `sep`, as `str::split` cuts it: the pieces between separators, one more
/// piece than there are separators.
pub open spec fn split_text(s: Seq<char>, sep: char) -> Seq<Seq<char>>
    decreases s.len(),
{
    if s.len() == 0 {
        seq![Seq::<char>::empty()]
    } else {
        let pieces = split_text(s.drop_last(), sep);
        if s.last() == sep {
            pieces.push(Seq::<char>::empty())
        } else {
            pieces.update(pieces.len() - 1, pieces.last().push(s.last()))
        }
    }
}

/// The lines of a text with content: each piece between line breaks, trimmed, empty ones left
/// out (a trailing carriage return is white space and goes with the trimming).
pub open spec fn content_lines(pieces: Seq<Seq<char>>) -> Seq<Seq<char>>
    decreases pieces.len(),
{
    if pieces.len() == 0 {
        Seq::empty()
    } else {
        let earlier = content_lines(pieces.drop_last());
        let line = trim_text(pieces.last());
        if line.len() == 0 {
            earlier
        } else {
            earlier.push(line)
        }
    }
}

/// The trimmed cells of a CSV line.
pub open spec fn cells(line: Seq<char>) -> Seq<Seq<char>> {
    split_text(line, ',').map_values(|cell: Seq<char>| trim_text(cell))
}

/// Whether a header line names exactly the columns `x`, `y`, `z`, in any letter case.
pub open spec fn is_xyz_header(line: Seq<char>) -> bool {
    let c = cells(line);
    &&& c.len() == 3
    &&& (c[0] == "x"@ || c[0] == "X"@)
    &&& (c[1] == "y"@ || c[1] == "Y"@)
    &&& (c[2] == "z"@ || c[2] == "Z"@)
}

/// A CSV data row as its row number (the header is row 1) and its three trimmed cells.
pub type RowView = (nat, Seq<char>, Seq<char>, Seq<char>);

/// The message for data row `row` when it does not have three cells.
pub open spec fn column_count_message(row: nat) -> Seq<char> {
    "uploaded layout CSV row "@ + decimal_text(row) + " must contain exactly 3 columns"@
}

/// The rows of the data lines (the lines after the header) up to the first line that does not
/// have three cells, and the message for that line if there is one.
pub open spec fn csv_rows(lines: Seq<Seq<char>>) -> (Seq<RowView>, Option<Seq<char>>)
    decreases lines.len(),
{
    if lines.len() == 0 {
        (Seq::empty(), None)
    } else {
        let (rows, error) = csv_rows(lines.drop_last());
        let row = (lines.len() + 1) as nat;
        let c = cells(lines.last());
        if error is Some {
            (rows, error)
        } else if c.len() != 3 {
            (rows, Some(column_count_message(row)))
        } else {
            (rows.push((row, c[0], c[1], c[2])), None)
        }
    }
}

/// What an uploaded layout holds, its numbers still as text.
pub enum LayoutSourceView {
    /// The trimmed text, a JSON array.
    Json(Seq<char>),
    /// The CSV rows, at least one, up to the first malformed row, and the error for that row.
    Csv(Seq<RowView>, Option<(LayoutParseErrorKind, Seq<char>)>),
}

/// What an uploaded layout file holds, or why it holds no layout: bytes that are not UTF-8; a
/// text that is blank; a text starting with `[`, handed on as JSON; otherwise CSV whose first
/// line with content must be the header `x,y,z`, followed by data rows of three cells.
pub open spec fn layout_source_spec(bytes: Seq<u8>) -> Result<
    LayoutSourceView,
    (LayoutParseErrorKind, Seq<char>),
> {
    if !valid_utf8(bytes) {
        Err((LayoutParseErrorKind::InvalidUtf8, "decode uploaded layout as UTF-8"@))
    } else {
        let text = trim_text(decode_utf8(bytes));
        if text.len() == 0 {
            Err((LayoutParseErrorKind::Empty, "uploaded layout is empty"@))
        } else if text[0] == '[' {
            Ok(LayoutSourceView::Json(text))
        } else {
            let lines = content_lines(split_text(text, '\n'));
            if lines.len() == 0 {
                Err((LayoutParseErrorKind::Empty, "uploaded layout CSV is empty"@))
            } else if !is_xyz_header(lines[0]) {
                Err(
                    (
                        LayoutParseErrorKind::InvalidCsv,
                        "uploaded layout CSV must use exactly the headers x,y,z"@,
                    ),
                )
            } else {
                let (rows, error) = csv_rows(lines.skip(1));
                if rows.len() > 0 {
                    Ok(
                        LayoutSourceView::Csv(
                            rows,
                            match error {
                                Some(message) => Some((LayoutParseErrorKind::InvalidCsv, message)),
                                None => None,
                            },
                        ),
                    )
                } else {
                    match error {
                        Some(message) => Err((LayoutParseErrorKind::InvalidCsv, message)),
                        None => Err(
                            (LayoutParseErrorKind::Empty, "uploaded layout contains no points"@),
                        ),
                    }
                }
            }
        }
    }
}

/// One CSV data row: its row number (the header is row 1) and its three trimmed cells.
pub struct LayoutRow {
    pub row: usize,
    pub x: String,
    pub y: String,
    pub z: String,
}

/// What an uploaded layout holds, its numbers still as text.
pub enum LayoutSource {
    /// The trimmed text, a JSON array of points.
    Json(String),
    /// The CSV rows, at least one, up to the first malformed row, and the error for that row.
    Csv { rows: Vec<LayoutRow>, error: Option<LayoutParseError> },
}

/// The row as plain values.
pub open spec fn row_view(row: LayoutRow) -> RowView {
    (row.row as nat, row.x@, row.y@, row.z@)
}

/// The error as plain values.
pub open spec fn error_view(error: LayoutParseError) -> (LayoutParseErrorKind, Seq<char>) {
    (error.kind, error.message@)
}

/// The result as plain values.
pub open spec fn layout_source_view(source: Result<LayoutSource, LayoutParseError>) -> Result<
    LayoutSourceView,
    (LayoutParseErrorKind, Seq<char>),
> {
    match source {
        Ok(LayoutSource::Json(text)) => Ok(LayoutSourceView::Json(text@)),
        Ok(LayoutSource::Csv { rows, error }) => Ok(
            LayoutSourceView::Csv(
                rows@.map_values(|row: LayoutRow| row_view(row)),
                match error {
                    Some(e) => Some(error_view(e)),
                    None => None,
                },
            ),
        ),
        Err(e) => Err(error_view(e)),
    }
}

fn parse_error(kind: LayoutParseErrorKind, message: &str) -> (error: LayoutParseError)
    ensures
        error.kind == kind,
        error.message@ == message@,
{
    LayoutParseError { kind, message: String::from_str(message) }
}

/// Cuts `s` at every `sep`.
pub fn split_str(s: &str, sep: char) -> (pieces: Vec<String>)
    ensures
        texts(pieces@) == split_text(s@, sep),
{
    let length = s.unicode_len();
    let mut pieces: Vec<String> = Vec::new();
    let mut current = String::new();
    let mut i: usize = 0;
    assert(s@.take(0) =~= Seq::<char>::empty());
    assert(texts(pieces@).push(current@) =~= split_text(s@.take(0), sep));
    while i < length
        invariant
            length == s@.len(),
            i <= length,
            texts(pieces@).push(current@) == split_text(s@.take(i as int), sep),
        decreases length - i,
    {
        let c = s.get_char(i);
        let ghost before = texts(pieces@).push(current@);
        assert(s@.take(i + 1).drop_last() =~= s@.take(i as int));
        assert(s@.take(i + 1).last() == c);
        if c == sep {
            pieces.push(current);
            current = String::new();
            assert(texts(pieces@).push(current@) =~= before.push(Seq::<char>::empty()));
        } else {
            push_char(&mut current, c);
            assert(texts(pieces@).push(current@) =~= before.update(
                before.len() - 1,
                before.last().push(c),
            ));
        }
        i = i + 1;
    }
    assert(s@.take(i as int) =~= s@);
    pieces.push(current);
    assert(texts(pieces@) =~= split_text(s@, sep));
    pieces
}

fn content_lines_of(pieces: &Vec<String>) -> (lines: Vec<String>)
    ensures
        texts(lines@) == content_lines(texts(pieces@)),
{
    let mut lines: Vec<String> = Vec::new();
    let mut i: usize = 0;
    assert(texts(pieces@).take(0) =~= Seq::<Seq<char>>::empty());
    while i < pieces.len()
        invariant
            i <= pieces@.len(),
            texts(lines@) == content_lines(texts(pieces@).take(i as int)),
        decreases pieces@.len() - i,
    {
        assert(texts(pieces@).take(i + 1).drop_last() =~= texts(pieces@).take(i as int));
        assert(texts(pieces@).take(i + 1).last() == pieces@[i as int]@);
        let line = trim(pieces[i].as_str());
        if line.unicode_len() > 0 {
            let ghost before = texts(lines@);
            lines.push(line.to_owned());
            assert(texts(lines@) =~= before.push(line@));
        }
        i = i + 1;
    }
    assert(texts(pieces@).take(i as int) =~= texts(pieces@));
    lines
}

/// Returns the trimmed cells of a CSV line.
fn cells_of(line: &str) -> (result: Vec<String>)
    ensures
        texts(result@) == cells(line@),
{
    let pieces = split_str(line, ',');
    let mut result: Vec<String> = Vec::new();
    let mut i: usize = 0;
    while i < pieces.len()
        invariant
            i <= pieces@.len(),
            texts(pieces@) == split_text(line@, ','),
            texts(result@) == split_text(line@, ',').take(i as int).map_values(
                |cell: Seq<char>| trim_text(cell),
            ),
        decreases pieces@.len() - i,
    {
        let ghost before = texts(result@);
        let ghost sp = split_text(line@, ',');
        let cell = trim(pieces[i].as_str());
        result.push(cell.to_owned());
        assert(texts(pieces@)[i as int] == pieces@[i as int]@);
        assert(sp[i as int] == pieces@[i as int]@);
        assert(texts(result@) =~= before.push(trim_text(sp[i as int])));
        assert(sp.take(i + 1).map_values(|cell: Seq<char>| trim_text(cell)) =~= sp.take(
            i as int,
        ).map_values(|cell: Seq<char>| trim_text(cell)).push(trim_text(sp[i as int])));
        i = i + 1;
    }
    assert(split_text(line@, ',').take(i as int) =~= split_text(line@, ','));
    result
}

fn is_one_of(cell: &str, lower: &str, upper: &str) -> (found: bool)
    ensures
        found == (cell@ == lower@ || cell@ == upper@),
{
    str_equal(cell, lower) || str_equal(cell, upper)
}

fn xyz_header(line: &str) -> (header: bool)
    ensures
        header == is_xyz_header(line@),
{
    let c = cells_of(line);
    if c.len() != 3 {
        return false;
    }
    assert(texts(c@)[0] == c@[0]@ && texts(c@)[1] == c@[1]@ && texts(c@)[2] == c@[2]@);
    is_one_of(c[0].as_str(), "x", "X") && is_one_of(c[1].as_str(), "y", "Y") && is_one_of(
        c[2].as_str(),
        "z",
        "Z",
    )
}

/// The rows of all lines but the first (the header), up to the first malformed one.
fn data_rows(lines: &Vec<String>) -> (result: (Vec<LayoutRow>, Option<LayoutParseError>))
    requires
        lines@.len() >= 1,
    ensures
        ({
            let (rows, error) = csv_rows(texts(lines@).skip(1));
            &&& result.0@.map_values(|row: LayoutRow| row_view(row)) == rows
            &&& match error {
                Some(message) => result.1 matches Some(e) && error_view(e) == (
                    LayoutParseErrorKind::InvalidCsv,
                    message,
                ),
                None => result.1 is None,
            }
        }),
{
    let ghost all = texts(lines@);
    let mut rows: Vec<LayoutRow> = Vec::new();
    let mut error: Option<LayoutParseError> = None;
    let mut i: usize = 1;
    assert(all.subrange(1, 1) =~= Seq::<Seq<char>>::empty());
    while i < lines.len()
        invariant
            1 <= i <= lines@.len(),
            all == texts(lines@),
            ({
                let (spec_rows, spec_error) = csv_rows(all.subrange(1, i as int));
                &&& rows@.map_values(|row: LayoutRow| row_view(row)) == spec_rows
                &&& match spec_error {
                    Some(message) => error matches Some(e) && error_view(e) == (
                        LayoutParseErrorKind::InvalidCsv,
                        message,
                    ),
                    None => error is None,
                }
            }),
        decreases lines@.len() - i,
    {
        let ghost prefix = all.subrange(1, i as int);
        let ghost next = all.subrange(1, i + 1);
        assert(next.drop_last() =~= prefix);
        assert(next.last() == lines@[i as int]@);
        assert(next.len() + 1 == i + 1);
        if error.is_none() {
            let c = cells_of(lines[i].as_str());
            if c.len() != 3 {
                let mut message = String::from_str("uploaded layout CSV row ");
                push_decimal(&mut message, (i + 1) as u64);
                message.append(" must contain exactly 3 columns");
                error = Some(LayoutParseError { kind: LayoutParseErrorKind::InvalidCsv, message });
            } else {
                assert(texts(c@)[0] == c@[0]@ && texts(c@)[1] == c@[1]@ && texts(c@)[2]
                    == c@[2]@);
                let ghost before = rows@.map_values(|row: LayoutRow| row_view(row));
                let x = c[0].clone();
                let y = c[1].clone();
                let z = c[2].clone();
                let row = LayoutRow { row: i + 1, x, y, z };
                rows.push(row);
                assert(rows@.map_values(|row: LayoutRow| row_view(row)) =~= before.push(
                    row_view(row),
                ));
            }
        }
        i = i + 1;
    }
    assert(all.subrange(1, i as int) =~= all.skip(1));
    (rows, error)
}

/// Reads an uploaded layout file as far as it goes without its numbers: fails when the bytes are
/// not UTF-8, the text is blank, the CSV header is not `x,y,z`, or no data row comes before the
/// first malformed one; otherwise gives the JSON text or the CSV rows (with the error of the
/// first malformed row, if any), whose numbers the caller parses in row order.
pub fn layout_source(bytes: &[u8]) -> (source: Result<LayoutSource, LayoutParseError>)
    ensures
        layout_source_view(source) == layout_source_spec(bytes@),
{
    let decoded = match string_from_utf8(slice_to_vec(bytes)) {
        Ok(text) => text,
        Err(_) => {
            return Err(parse_error(
                LayoutParseErrorKind::InvalidUtf8,
                "decode uploaded layout as UTF-8",
            ));
        },
    };
    let text = trim(decoded.as_str());
    if text.unicode_len() == 0 {
        return Err(parse_error(LayoutParseErrorKind::Empty, "uploaded layout is empty"));
    }
    if text.get_char(0) == '[' {
        return Ok(LayoutSource::Json(text.to_owned()));
    }
    let pieces = split_str(text, '\n');
    let lines = content_lines_of(&pieces);
    if lines.len() == 0 {
        return Err(parse_error(LayoutParseErrorKind::Empty, "uploaded layout CSV is empty"));
    }
    assert(texts(lines@)[0] == lines@[0]@);
    if !xyz_header(lines[0].as_str()) {
        return Err(parse_error(
            LayoutParseErrorKind::InvalidCsv,
            "uploaded layout CSV must use exactly the headers x,y,z",
        ));
    }
    let (rows, error) = data_rows(&lines);
    if rows.len() > 0 {
        Ok(LayoutSource::Csv { rows, error })
    } else {
        match error {
            Some(error) => Err(error),
            None => Err(parse_error(LayoutParseErrorKind::Empty, "uploaded layout contains no points")),
        }
    }
}

} // verus!
