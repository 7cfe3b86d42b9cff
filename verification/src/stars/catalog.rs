//! The star catalogue: a table of comma-separated values with one heading line.

use include_dir::{Dir, File};
use vstd::prelude::*;

verus! {

/// The byte that ends a line.
pub const LINE_FEED: u8 = 10;

/// The byte that may stand before the one that ends a line.
pub const CARRIAGE_RETURN: u8 = 13;

/// The byte between two values.
pub const COMMA: u8 = 44;

/// One star as the catalogue writes it: four decimal numbers.
#[derive(Debug, PartialEq, Eq)]
pub struct CatalogRow {
    /// Right ascension in radians.
    pub right_ascension: Vec<u8>,
    /// Declination in radians.
    pub declination: Vec<u8>,
    /// Apparent magnitude.
    pub magnitude: Vec<u8>,
    /// Colour index B-V.
    pub color_index: Vec<u8>,
}

/// The rows of a catalogue up to the first that does not hold four values.
#[derive(Debug, PartialEq, Eq)]
pub struct CatalogRows {
    pub rows: Vec<CatalogRow>,
    /// The line number, from 1, of the first row that does not hold four values.
    pub invalid_row: Option<usize>,
}

/// Why there is no catalogue.
#[derive(Clone, Copy, Debug, PartialEq, Eq, Structural)]
pub enum CatalogError {
    Missing,
    NotUtf8,
}

impl CatalogError {
    /// The reason in words.
    pub open spec fn spec_message(self) -> Seq<char> {
        match self {
            CatalogError::Missing => "embedded star catalogue missing"@,
            CatalogError::NotUtf8 => "star catalogue is not UTF-8"@,
        }
    }

    /// The reason in words.
    pub fn message(self) -> (message: &'static str)
        ensures
            message@ == self.spec_message(),
    {
        match self {
            CatalogError::Missing => "embedded star catalogue missing",
            CatalogError::NotUtf8 => "star catalogue is not UTF-8",
        }
    }
}

impl CatalogRow {
    /// The four values.
    pub open spec fn values(self) -> Seq<Seq<u8>> {
        seq![
            self.right_ascension@,
            self.declination@,
            self.magnitude@,
            self.color_index@,
        ]
    }
}

/// The place of the first `byte` in `text`, or the length of `text`.
pub open spec fn find(text: Seq<u8>, byte: u8) -> int
    decreases text.len(),
{
    if text.len() == 0 || text[0] == byte {
        0
    } else {
        1 + find(text.drop_first(), byte)
    }
}

/// The parts of `text` between the occurrences of `byte`; there is always at least one.
pub open spec fn split(text: Seq<u8>, byte: u8) -> Seq<Seq<u8>>
    decreases text.len(),
{
    let at = find(text, byte);
    if 0 <= at < text.len() {
        seq![text.take(at)] + split(text.skip(at + 1), byte)
    } else {
        seq![text]
    }
}

/// The text put together again from its parts.
pub open spec fn join(parts: Seq<Seq<u8>>, byte: u8) -> Seq<u8>
    decreases parts.len(),
{
    if parts.len() == 0 {
        Seq::empty()
    } else if parts.len() == 1 {
        parts[0]
    } else {
        parts[0] + seq![byte] + join(parts.drop_first(), byte)
    }
}

/// A line without the carriage return that belongs to its end.
pub open spec fn without_return(line: Seq<u8>) -> Seq<u8> {
    if line.len() > 0 && line.last() == CARRIAGE_RETURN {
        line.drop_last()
    } else {
        line
    }
}

/// The lines of `text`. A line ends in a line feed, or a carriage return and a line feed; the end
/// of the text ends a line too, unless nothing stands before it.
pub open spec fn lines(text: Seq<u8>) -> Seq<Seq<u8>>
    decreases text.len(),
{
    let at = find(text, LINE_FEED);
    if text.len() == 0 {
        Seq::empty()
    } else if 0 <= at < text.len() {
        seq![without_return(text.take(at))] + lines(text.skip(at + 1))
    } else {
        seq![text]
    }
}

/// A line that is a row of the table.
pub open spec fn is_row(line: Seq<u8>) -> bool {
    split(line, COMMA).len() == 4
}

/// The rows are those of `text` after its heading, up to the first line that is none.
pub open spec fn are_rows_of(parsed: CatalogRows, text: Seq<u8>) -> bool {
    let body = lines(text).skip(1);
    let count = parsed.rows@.len();
    &&& lines(text).len() == 0 ==> count == 0 && parsed.invalid_row is None
    &&& lines(text).len() > 0 ==> {
        &&& count <= body.len()
        &&& forall|i: int|
            0 <= i < count ==> (#[trigger] parsed.rows@[i]).values() == split(body[i], COMMA)
        &&& match parsed.invalid_row {
            None => count == body.len(),
            Some(number) => count < body.len() && !is_row(body[count as int]) && number == count
                + 2,
        }
    }
}

/// A part of a byte string, as a string of its own.
fn copy_range(text: &[u8], from: usize, to: usize) -> (part: Vec<u8>)
    requires
        from <= to <= text@.len(),
    ensures
        part@ == text@.subrange(from as int, to as int),
{
    let mut part: Vec<u8> = Vec::new();
    let mut i: usize = from;
    while i < to
        invariant
            from <= i <= to <= text@.len(),
            part@ == text@.subrange(from as int, i as int),
        decreases to - i,
    {
        part.push(text[i]);
        i = i + 1;
        assert(part@ =~= text@.subrange(from as int, i as int));
    }
    part
}

/// The first `byte` at or after a place lies where a search from there finds it.
proof fn lemma_find(text: Seq<u8>, byte: u8, at: int)
    requires
        0 <= at <= text.len(),
        forall|k: int| 0 <= k < at ==> text[k] != byte,
        at < text.len() ==> text[at] == byte,
    ensures
        find(text, byte) == at,
    decreases text.len(),
{
    if text.len() > 0 && text[0] != byte {
        let rest = text.drop_first();
        assert forall|k: int| 0 <= k < at - 1 implies rest[k] != byte by {
            assert(rest[k] == text[k + 1]);
        }
        lemma_find(rest, byte, at - 1);
    }
}

/// What a search finds.
proof fn lemma_found(text: Seq<u8>, byte: u8)
    ensures
        0 <= find(text, byte) <= text.len(),
        forall|k: int| 0 <= k < find(text, byte) ==> text[k] != byte,
        find(text, byte) < text.len() ==> text[find(text, byte)] == byte,
    decreases text.len(),
{
    if text.len() > 0 && text[0] != byte {
        let rest = text.drop_first();
        lemma_found(rest, byte);
        assert forall|k: int| 0 <= k < find(text, byte) implies text[k] != byte by {
            if k > 0 {
                assert(rest[k - 1] == text[k]);
            }
        }
    }
}

/// The place of the first `byte` in `text` from `start` on, or the length of `text`.
fn find_from(text: &[u8], byte: u8, start: usize) -> (at: usize)
    requires
        start <= text@.len(),
    ensures
        start <= at <= text@.len(),
        at - start == find(text@.skip(start as int), byte),
        at < text@.len() ==> text@[at as int] == byte,
{
    let mut at: usize = start;
    while at < text.len() && text[at] != byte
        invariant
            start <= at <= text@.len(),
            forall|k: int| start <= k < at ==> text@[k] != byte,
        decreases text@.len() - at,
    {
        at = at + 1;
    }
    proof {
        let rest = text@.skip(start as int);
        assert forall|k: int| 0 <= k < at - start implies rest[k] != byte by {
            assert(rest[k] == text@[start + k]);
        }
        lemma_find(rest, byte, at - start);
    }
    at
}

/// The values of a line.
fn split_values(line: &[u8]) -> (values: Vec<Vec<u8>>)
    ensures
        values@.map_values(|value: Vec<u8>| value@) == split(line@, COMMA),
{
    let mut values: Vec<Vec<u8>> = Vec::new();
    let mut start: usize = 0;
    assert(line@.skip(0) =~= line@);
    assert(values@.map_values(|value: Vec<u8>| value@) =~= Seq::<Seq<u8>>::empty());
    loop
        invariant
            start <= line@.len(),
            values@.map_values(|value: Vec<u8>| value@) + split(line@.skip(start as int), COMMA)
                == split(line@, COMMA),
        decreases line@.len() - start,
    {
        let ghost before = values@.map_values(|value: Vec<u8>| value@);
        let ghost rest = line@.skip(start as int);
        let at = find_from(line, COMMA, start);
        let value = copy_range(line, start, at);
        values.push(value);
        assert(value@ =~= rest.take(at - start));
        assert(values@.map_values(|value: Vec<u8>| value@) =~= before + seq![value@]);
        if at == line.len() {
            assert(rest =~= value@);
            return values;
        }
        assert(rest.skip(at - start + 1) =~= line@.skip(at + 1));
        assert(before + (seq![value@] + split(line@.skip(at + 1), COMMA)) =~= (before + seq![
            value@,
        ]) + split(line@.skip(at + 1), COMMA));
        start = at + 1;
    }
}

/// The row that a line holds, if it holds four values.
fn parse_row(line: &[u8]) -> (row: Option<CatalogRow>)
    ensures
        row is Some <==> is_row(line@),
        row matches Some(values) ==> values.values() == split(line@, COMMA),
{
    let mut values = split_values(line);
    let ghost parts = split(line@, COMMA);
    assert(parts.len() == values@.len());
    if values.len() != 4 {
        return None;
    }
    assert(forall|i: int| 0 <= i < 4 ==> parts[i] == (#[trigger] values@[i])@);
    let color_index = values.swap_remove(3);
    let magnitude = values.swap_remove(2);
    let declination = values.swap_remove(1);
    let right_ascension = values.swap_remove(0);
    let row = CatalogRow { right_ascension, declination, magnitude, color_index };
    assert(row.values() =~= parts);
    Some(row)
}

/// Cuts the text of a catalogue into rows.
pub fn parse_catalog(text: &str) -> (parsed: CatalogRows)
    ensures
        are_rows_of(parsed, vstd::utf8::encode_utf8(text@)),
{
    let bytes: &[u8] = text.as_bytes();
    let ghost all = lines(bytes@);
    let mut rows: Vec<CatalogRow> = Vec::new();
    if bytes.len() == 0 {
        return CatalogRows { rows, invalid_row: None };
    }
    assert(bytes@.skip(0) =~= bytes@);
    let heading_end = find_from(bytes, LINE_FEED, 0);
    if heading_end == bytes.len() {
        assert(all =~= seq![bytes@]);
        return CatalogRows { rows, invalid_row: None };
    }
    let mut start: usize = heading_end + 1;
    let ghost body = all.skip(1);
    assert(body =~= lines(bytes@.skip(start as int)));
    assert(body.skip(0) =~= body);
    while start < bytes.len()
        invariant
            start <= bytes@.len(),
            bytes@ == vstd::utf8::encode_utf8(text@),
            all == lines(bytes@),
            all.len() > 0,
            body == all.skip(1),
            rows@.len() <= body.len(),
            rows@.len() < start,
            lines(bytes@.skip(start as int)) == body.skip(rows@.len() as int),
            forall|i: int|
                0 <= i < rows@.len() ==> (#[trigger] rows@[i]).values() == split(body[i], COMMA),
        decreases bytes@.len() - start,
    {
        let ghost rest = bytes@.skip(start as int);
        let ghost count = rows@.len() as int;
        let end = find_from(bytes, LINE_FEED, start);
        let mut line_end: usize = end;
        if end < bytes.len() && end > start && bytes[end - 1] == CARRIAGE_RETURN {
            line_end = end - 1;
        }
        let line = copy_range(bytes, start, line_end);
        proof {
            let taken = rest.take(end - start);
            if end < bytes@.len() {
                if line_end < end {
                    assert(taken.last() == bytes@[end - 1]);
                    assert(line@ =~= taken.drop_last());
                } else {
                    if taken.len() > 0 {
                        assert(taken.last() == bytes@[end - 1]);
                    }
                    assert(line@ =~= taken);
                }
            } else {
                assert(line@ =~= rest);
            }
            assert(lines(rest)[0] == line@);
            assert(lines(rest).len() > 0);
            assert(body.skip(count)[0] == body[count]);
        }
        match parse_row(line.as_slice()) {
            None => {
                let row_number: usize = rows.len() + 2;
                return CatalogRows { rows, invalid_row: Some(row_number) };
            },
            Some(row) => {
                rows.push(row);
            },
        }
        proof {
            assert(body.skip(count).skip(1) =~= body.skip(count + 1));
            if end < bytes@.len() {
                assert(rest.skip(end - start + 1) =~= bytes@.skip(end + 1));
                assert(lines(rest).skip(1) =~= lines(bytes@.skip(end + 1)));
            } else {
                assert(lines(rest).skip(1) =~= Seq::<Seq<u8>>::empty());
                assert(bytes@.skip(bytes@.len() as int) =~= Seq::<u8>::empty());
            }
        }
        if end == bytes.len() {
            start = end;
        } else {
            start = end + 1;
        }
    }
    assert(bytes@.skip(start as int) =~= Seq::<u8>::empty());
    assert(body.skip(rows@.len() as int).len() == 0);
    CatalogRows { rows, invalid_row: None }
}

/// A directory of files that are part of the program.
#[verifier::external_type_specification]
#[verifier::external_body]
pub struct ExDir<'a>(Dir<'a>);

/// A file that is part of the program.
#[verifier::external_type_specification]
#[verifier::external_body]
pub struct ExFile<'a>(File<'a>);

/// The bytes of the files in a directory, by the paths under which they are found.
pub uninterp spec fn dir_files(dir: Dir<'_>) -> Map<Seq<char>, Seq<u8>>;

/// The bytes of a file.
pub uninterp spec fn file_bytes(file: File<'_>) -> Seq<u8>;

/// Calls `include_dir::Dir::get_file`, which searches the directory and those below it for a file
/// of that path.
#[verifier::external_body]
fn get_file<'a>(dir: &Dir<'a>, path: &str) -> (file: Option<&'a File<'a>>)
    ensures
        file is Some <==> dir_files(*dir).dom().contains(path@),
        file matches Some(found) ==> file_bytes(*found) == dir_files(*dir)[path@],
{
    dir.get_file(path)
}

/// Calls `include_dir::File::contents_utf8`, which gives the bytes of the file as text exactly
/// where they are valid UTF-8.
#[verifier::external_body]
fn contents_utf8<'a>(file: &'a File<'a>) -> (text: Option<&'a str>)
    ensures
        text is Some <==> vstd::utf8::valid_utf8(file_bytes(*file)),
        text matches Some(contents) ==> vstd::utf8::encode_utf8(contents@) == file_bytes(*file),
{
    file.contents_utf8()
}

/// Finds the catalogue among the files of the program and cuts it into rows.
pub fn load_embedded_catalog(data: &Dir<'_>) -> (catalog: Result<CatalogRows, CatalogError>)
    ensures
        match catalog {
            Err(CatalogError::Missing) => !dir_files(*data).dom().contains("visible.csv"@),
            Err(CatalogError::NotUtf8) => dir_files(*data).dom().contains("visible.csv"@)
                && !vstd::utf8::valid_utf8(dir_files(*data)["visible.csv"@]),
            Ok(parsed) => {
                &&& dir_files(*data).dom().contains("visible.csv"@)
                &&& vstd::utf8::valid_utf8(dir_files(*data)["visible.csv"@])
                &&& are_rows_of(parsed, dir_files(*data)["visible.csv"@])
            },
        },
{
    match get_file(data, "visible.csv") {
        None => Err(CatalogError::Missing),
        Some(file) => match contents_utf8(file) {
            None => Err(CatalogError::NotUtf8),
            Some(text) => Ok(parse_catalog(text)),
        },
    }
}

/// Splitting cuts at every separator and nowhere else: no part holds one, and the parts put
/// together again are the text.
pub proof fn law_split_cuts_at_separators(text: Seq<u8>, byte: u8)
    ensures
        join(split(text, byte), byte) == text,
        split(text, byte).len() >= 1,
        forall|i: int|
            0 <= i < split(text, byte).len() ==> !(#[trigger] split(text, byte)[i]).contains(byte),
    decreases text.len(),
{
    lemma_found(text, byte);
    let at = find(text, byte);
    if at < text.len() {
        let rest = text.skip(at + 1);
        law_split_cuts_at_separators(rest, byte);
        let parts = split(text, byte);
        assert(parts.drop_first() =~= split(rest, byte));
        assert(text =~= text.take(at) + seq![byte] + rest);
        assert forall|i: int| 0 <= i < parts.len() implies !(#[trigger] parts[i]).contains(
            byte,
        ) by {
            if i > 0 {
                assert(parts[i] == split(rest, byte)[i - 1]);
            }
        }
    }
}

/// Four values without separators, written with separators between them, are read back as the row
/// they are.
pub proof fn law_written_values_are_read_back(values: Seq<Seq<u8>>)
    requires
        values.len() >= 1,
        forall|i: int| 0 <= i < values.len() ==> !(#[trigger] values[i]).contains(COMMA),
    ensures
        split(join(values, COMMA), COMMA) == values,
        is_row(join(values, COMMA)) <==> values.len() == 4,
    decreases values.len(),
{
    let text = join(values, COMMA);
    let first = values[0];
    assert forall|k: int| 0 <= k < first.len() implies first[k] != COMMA by {
        if first[k] == COMMA {
            assert(first.contains(first[k]));
        }
    }
    if values.len() == 1 {
        lemma_find(text, COMMA, text.len() as int);
        assert(values =~= seq![first]);
    } else {
        let others = values.drop_first();
        assert forall|i: int| 0 <= i < others.len() implies !(#[trigger] others[i]).contains(
            COMMA,
        ) by {
            assert(others[i] == values[i + 1]);
        }
        law_written_values_are_read_back(others);
        lemma_find(text, COMMA, first.len() as int);
        assert(text.take(first.len() as int) =~= first);
        assert(text.skip(first.len() as int + 1) =~= join(others, COMMA));
        assert(values =~= seq![first] + others);
    }
}

/// A catalogue has at most one reading.
pub proof fn law_catalogue_has_one_reading(
    first: CatalogRows,
    second: CatalogRows,
    text: Seq<u8>,
)
    requires
        are_rows_of(first, text),
        are_rows_of(second, text),
    ensures
        first.rows@.len() == second.rows@.len(),
        first.invalid_row == second.invalid_row,
        forall|i: int|
            0 <= i < first.rows@.len() ==> (#[trigger] first.rows@[i]).values()
                == second.rows@[i].values(),
{
    let body = lines(text).skip(1);
    if first.rows@.len() < second.rows@.len() {
        let at = first.rows@.len() as int;
        assert(second.rows@[at].values().len() == 4);
    }
    if second.rows@.len() < first.rows@.len() {
        let at = second.rows@.len() as int;
        assert(first.rows@[at].values().len() == 4);
    }
}

/// A line ends at the first line feed, together with a carriage return before it, and the lines of
/// what follows come after it. What stands behind the last line feed is a line unless it is empty.
pub proof fn law_lines_end_at_line_feeds(line: Seq<u8>, rest: Seq<u8>)
    requires
        forall|i: int| 0 <= i < line.len() ==> #[trigger] line[i] != 10,
    ensures
        ({
            let shown = if line.len() > 0 && line[line.len() - 1] == 13 {
                line.take(line.len() - 1)
            } else {
                line
            };
            lines(line + seq![10u8] + rest) == seq![shown] + lines(rest)
        }),
        line.len() > 0 ==> lines(line) == seq![line],
        lines(Seq::empty()) == Seq::<Seq<u8>>::empty(),
{
    let text = line + seq![10u8] + rest;
    let at = line.len() as int;
    assert forall|k: int| 0 <= k < at implies text[k] != LINE_FEED by {
        assert(text[k] == line[k]);
    }
    lemma_find(text, LINE_FEED, at);
    assert(text.take(at) =~= line);
    assert(text.skip(at + 1) =~= rest);
    if line.len() > 0 {
        assert(line.drop_last() =~= line.take(line.len() - 1));
    }
    lemma_find(line, LINE_FEED, at);
}

/// The rows of a catalogue are its lines after the first, each cut into four values at its three
/// commas; the first line that is none is reported by its number and ends the rows.
pub proof fn law_rows_are_the_lines_after_the_heading(parsed: CatalogRows, text: Seq<u8>)
    requires
        are_rows_of(parsed, text),
    ensures
        forall|i: int|
            0 <= i < parsed.rows@.len() ==> {
                let row = #[trigger] parsed.rows@[i];
                let values = seq![
                    row.right_ascension@,
                    row.declination@,
                    row.magnitude@,
                    row.color_index@,
                ];
                &&& i + 1 < lines(text).len()
                &&& join(values, 44) == lines(text)[i + 1]
                &&& !row.right_ascension@.contains(44) && !row.declination@.contains(44)
                &&& !row.magnitude@.contains(44) && !row.color_index@.contains(44)
            },
        parsed.invalid_row is None ==> parsed.rows@.len() == if lines(text).len() == 0 {
            0
        } else {
            lines(text).len() - 1
        },
        parsed.invalid_row matches Some(number) ==> {
            &&& number == parsed.rows@.len() + 2
            &&& number <= lines(text).len()
            &&& forall|values: Seq<Seq<u8>>|
                values.len() == 4 && (forall|i: int|
                    0 <= i < 4 ==> !(#[trigger] values[i]).contains(44)) ==> #[trigger] join(
                    values,
                    44,
                ) != lines(text)[number - 1]
        },
{
    let all = lines(text);
    let body = all.skip(1);
    assert forall|i: int| 0 <= i < parsed.rows@.len() implies {
        let row = #[trigger] parsed.rows@[i];
        let values = seq![
            row.right_ascension@,
            row.declination@,
            row.magnitude@,
            row.color_index@,
        ];
        &&& i + 1 < all.len()
        &&& join(values, 44) == all[i + 1]
        &&& !row.right_ascension@.contains(44) && !row.declination@.contains(44)
        &&& !row.magnitude@.contains(44) && !row.color_index@.contains(44)
    } by {
        let row = parsed.rows@[i];
        let values = seq![
            row.right_ascension@,
            row.declination@,
            row.magnitude@,
            row.color_index@,
        ];
        assert(body[i] == all[i + 1]);
        assert(row.values() =~= values);
        law_split_cuts_at_separators(body[i], COMMA);
        let parts = split(body[i], COMMA);
        assert(values == parts);
        assert(!parts[0].contains(44) && !parts[1].contains(44));
        assert(!parts[2].contains(44) && !parts[3].contains(44));
    }
    if let Some(number) = parsed.invalid_row {
        let line = all[number - 1];
        assert(body[parsed.rows@.len() as int] == line);
        assert forall|values: Seq<Seq<u8>>|
            values.len() == 4 && (forall|i: int|
                0 <= i < 4 ==> !(#[trigger] values[i]).contains(44)) implies #[trigger] join(
            values,
            44,
        ) != line by {
            law_written_values_are_read_back(values);
        }
    }
}

/// Parts that are put together stand one after the other with a separator between two.
pub proof fn law_joined_parts_stand_in_order(first: Seq<u8>, others: Seq<Seq<u8>>, byte: u8)
    ensures
        join(seq![first], byte) == first,
        others.len() > 0 ==> join(seq![first] + others, byte) == first + seq![byte] + join(
            others,
            byte,
        ),
{
    let parts = seq![first] + others;
    assert(parts.drop_first() =~= others);
}

} // verus!
