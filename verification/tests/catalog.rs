use include_dir::{Dir, DirEntry, File};
use scatter::stars::catalog::{
    load_embedded_catalog, parse_catalog, CatalogError, CatalogRow, CatalogRows,
};

fn row(values: [&str; 4]) -> CatalogRow {
    let [right_ascension, declination, magnitude, color_index] =
        values.map(|value| value.as_bytes().to_vec());
    CatalogRow { right_ascension, declination, magnitude, color_index }
}

fn rows(values: &[[&str; 4]]) -> CatalogRows {
    CatalogRows { rows: values.iter().map(|value| row(*value)).collect(), invalid_row: None }
}

#[test]
fn rows_follow_the_heading() {
    let text = "ra,dec,mag,bv\n1.5,-0.2,-1.44,0.009\n2,3,4,5\n";
    let expected = rows(&[["1.5", "-0.2", "-1.44", "0.009"], ["2", "3", "4", "5"]]);
    assert_eq!(parse_catalog(text), expected);
}

#[test]
fn the_last_line_needs_no_end() {
    assert_eq!(parse_catalog("h\n1,2,3,4"), rows(&[["1", "2", "3", "4"]]));
    assert_eq!(parse_catalog("h\n1,2,3,4\r"), rows(&[["1", "2", "3", "4\r"]]));
}

#[test]
fn carriage_returns_belong_to_the_line_end() {
    let text = "h\r\n1,2,3,4\r\n5,6,7,8\r\r\n";
    assert_eq!(parse_catalog(text), rows(&[["1", "2", "3", "4"], ["5", "6", "7", "8\r"]]));
}

#[test]
fn empty_texts_and_headings_hold_no_rows() {
    for text in ["", "\n", "heading", "heading\n", "a,b\r\n"] {
        assert_eq!(parse_catalog(text), rows(&[]), "{text:?}");
    }
}

#[test]
fn empty_values_are_values() {
    assert_eq!(parse_catalog("h\n,,,"), rows(&[["", "", "", ""]]));
    assert_eq!(parse_catalog("h\n 1 ,,é,"), rows(&[[" 1 ", "", "é", ""]]));
}

#[test]
fn the_first_row_without_four_values_is_reported() {
    let parsed = parse_catalog("h\n1,2,3,4\n1,2,3\n1,2,3,4,5\n");
    assert_eq!(parsed.rows, vec![row(["1", "2", "3", "4"])]);
    assert_eq!(parsed.invalid_row, Some(3));
    assert_eq!(parse_catalog("h\n\n1,2,3,4").invalid_row, Some(2));
    assert_eq!(parse_catalog("h\n1,2,3,4,5").invalid_row, Some(2));
}

#[test]
fn the_catalogue_is_found_among_the_files() {
    let entries = [
        DirEntry::File(File::new("README.md", b"about")),
        DirEntry::File(File::new("visible.csv", b"h\n1,2,3,4\n")),
    ];
    let data = Dir::new("", &entries);
    assert_eq!(load_embedded_catalog(&data), Ok(rows(&[["1", "2", "3", "4"]])));
}

#[test]
fn a_missing_catalogue_is_an_error() {
    let entries = [DirEntry::File(File::new("other.csv", b"h\n1,2,3,4\n"))];
    let data = Dir::new("", &entries);
    assert_eq!(load_embedded_catalog(&data), Err(CatalogError::Missing));
    assert_eq!(CatalogError::Missing.message(), "embedded star catalogue missing");
}

#[test]
fn a_catalogue_that_is_no_text_is_an_error() {
    let entries = [DirEntry::File(File::new("visible.csv", b"h\n\xff"))];
    let data = Dir::new("", &entries);
    assert_eq!(load_embedded_catalog(&data), Err(CatalogError::NotUtf8));
    assert_eq!(CatalogError::NotUtf8.message(), "star catalogue is not UTF-8");
}

#[test]
fn written_values_are_read_back() {
    let values = ["0.1", "-1.25", "6.5", "1.8"];
    let text = format!("h\n{}", values.join(","));
    assert_eq!(parse_catalog(&text), rows(&[values]));
}
