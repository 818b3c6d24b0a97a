use metervalues::table::{find_column, read_table, Column};

#[test]
fn tables_keep_headers_and_rows_in_order() {
    let table = read_table(b"city,country\nBoston,United States\n\"Paris, 1er\",France\n").unwrap();
    assert_eq!(table.headers, Some(vec!["city".to_string(), "country".to_string()]));
    assert_eq!(table.rows.len(), 2);
    assert_eq!(table.rows[0], vec!["Boston".to_string(), "United States".to_string()]);
    assert_eq!(table.rows[1][0], "Paris, 1er");
}

#[test]
fn records_must_match_the_header_length() {
    assert!(read_table(b"a,b\n1\n").is_err());
    assert!(read_table(b"a,b\n1,2,3\n").is_err());
}

#[test]
fn empty_document_has_no_headers_and_no_rows() {
    let table = read_table(b"").unwrap();
    assert_eq!(table.headers, Some(Vec::new()));
    assert!(table.rows.is_empty());
}

#[test]
fn columns_are_found_by_exact_name() {
    let headers: Vec<String> = vec!["name".into(), "unit".into(), "Name".into(), "unit".into()];
    assert_eq!(find_column(&headers, "name"), Column::At(0));
    assert_eq!(find_column(&headers, "Name"), Column::At(2));
    assert_eq!(find_column(&headers, "unit"), Column::Repeated);
    assert_eq!(find_column(&headers, "value"), Column::Missing);
}

#[test]
fn header_that_is_not_text_is_dropped() {
    let table = read_table(b"\xff,b\n1,2\n").unwrap();
    assert!(table.headers.is_none());
    assert_eq!(table.rows, vec![vec!["1".to_string(), "2".to_string()]]);
}
