use sales_tax_rate::dataset::{parse_dataset, records_from_rows, LoadError};

#[test]
fn parses_rows_after_header() {
    let recs = parse_dataset(b"zip,rate\n78701,0.0825\n00501,0.08625\n").unwrap();
    assert_eq!(recs.len(), 2);
    assert_eq!(recs[0].zip, "78701");
    assert_eq!(recs[0].rate, "0.0825");
    assert_eq!(recs[1].zip, "00501");
    assert_eq!(recs[1].rate, "0.08625");
}

#[test]
fn header_only_gives_no_records() {
    let recs = parse_dataset(b"zip,rate\n").unwrap();
    assert!(recs.is_empty());
    let recs = parse_dataset(b"").unwrap();
    assert!(recs.is_empty());
}

#[test]
fn row_with_one_field_is_refused() {
    assert_eq!(
        parse_dataset(b"zip\n78701\n").err(),
        Some(LoadError::ShortRow { row: 0 })
    );
}

#[test]
fn uneven_rows_are_malformed() {
    assert_eq!(
        parse_dataset(b"zip,rate\n78701,0.0825,x\n").err(),
        Some(LoadError::Malformed)
    );
}

#[test]
fn invalid_utf8_is_malformed() {
    assert_eq!(
        parse_dataset(b"zip,rate\n\xff\xfe,0.0825\n").err(),
        Some(LoadError::Malformed)
    );
}

#[test]
fn extra_fields_are_ignored() {
    let rows = vec![
        vec!["1".to_string(), "0.1".to_string(), "x".to_string()],
        vec!["2".to_string(), "0.2".to_string()],
    ];
    let recs = records_from_rows(&rows).unwrap();
    assert_eq!(recs.len(), 2);
    assert_eq!(recs[0].zip, "1");
    assert_eq!(recs[0].rate, "0.1");
    assert_eq!(recs[1].zip, "2");
    assert_eq!(recs[1].rate, "0.2");
}

#[test]
fn first_short_row_is_reported() {
    let rows = vec![
        vec!["1".to_string(), "0.1".to_string()],
        vec!["2".to_string()],
        vec![],
    ];
    assert_eq!(records_from_rows(&rows).err(), Some(LoadError::ShortRow { row: 1 }));
}
