use luma_weaver::document::LayoutParseErrorKind;
use luma_weaver::layouts::{layout_source, split_str, LayoutSource};

fn error_of(bytes: &[u8]) -> (LayoutParseErrorKind, String) {
    match layout_source(bytes) {
        Err(error) => (error.kind, error.message),
        Ok(_) => panic!("expected an error"),
    }
}

#[test]
fn layout_source_refuses_what_holds_no_layout() {
    assert_eq!(
        error_of(&[0xff, 0xfe]),
        (LayoutParseErrorKind::InvalidUtf8, "decode uploaded layout as UTF-8".to_owned())
    );
    assert_eq!(error_of(b" \n\t "), (LayoutParseErrorKind::Empty, "uploaded layout is empty".to_owned()));
    assert_eq!(
        error_of(b"a,b,c\n1,2,3"),
        (
            LayoutParseErrorKind::InvalidCsv,
            "uploaded layout CSV must use exactly the headers x,y,z".to_owned()
        )
    );
    assert_eq!(
        error_of(b"x,y,z\n\n"),
        (LayoutParseErrorKind::Empty, "uploaded layout contains no points".to_owned())
    );
    assert_eq!(
        error_of(b"x,y,z\n1,2"),
        (
            LayoutParseErrorKind::InvalidCsv,
            "uploaded layout CSV row 2 must contain exactly 3 columns".to_owned()
        )
    );
}

#[test]
fn layout_source_hands_json_text_on() {
    match layout_source(b"  [{\"x\":1,\"y\":2,\"z\":3}]\n") {
        Ok(LayoutSource::Json(text)) => assert_eq!(text, "[{\"x\":1,\"y\":2,\"z\":3}]"),
        _ => panic!("expected JSON"),
    }
}

#[test]
fn layout_source_gives_csv_rows_up_to_the_first_malformed_one() {
    let bytes = b"X, Y ,z\r\n1, 2,3\r\n\r\n  4,5 , 6\n7,8\n9,10,11\n";
    match layout_source(bytes) {
        Ok(LayoutSource::Csv { rows, error }) => {
            let cells: Vec<(usize, &str, &str, &str)> = rows
                .iter()
                .map(|row| (row.row, row.x.as_str(), row.y.as_str(), row.z.as_str()))
                .collect();
            assert_eq!(cells, vec![(2, "1", "2", "3"), (3, "4", "5", "6")]);
            let error = error.expect("malformed row");
            assert_eq!(error.kind, LayoutParseErrorKind::InvalidCsv);
            assert_eq!(error.message, "uploaded layout CSV row 4 must contain exactly 3 columns");
        }
        _ => panic!("expected CSV rows"),
    }
}

#[test]
fn split_keeps_empty_pieces() {
    assert_eq!(split_str("a,,b,", ','), vec!["a", "", "b", ""]);
    assert_eq!(split_str("", ','), vec![""]);
}
