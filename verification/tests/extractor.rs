//! End-to-end runs of the extractor over hand-built event sequences.

use xml_records::{Event, ParseError, Rec, SourceFault};

fn start(n: &str) -> Event {
    Event::StartElement(n.to_string())
}

fn end(n: &str) -> Event {
    Event::EndElement(n.to_string())
}

fn chars(t: &str) -> Event {
    Event::Characters(t.to_string())
}

fn field(n: &str, t: &str) -> Vec<Event> {
    vec![start(n), chars(t), end(n)]
}

fn run_events(groups: Vec<Vec<Event>>) -> Result<Vec<Rec>, ParseError> {
    let mut events: Vec<Event> = Vec::new();
    for g in groups {
        for e in g {
            events.push(e);
        }
    }
    xml_records::run(&events)
}

#[test]
fn single_product() {
    let out = run_events(vec![
        vec![start("root"), start("product")],
        field("id", "7"),
        field("category", "tool"),
        field("name", "wrench"),
        vec![end("product"), end("root")],
    ])
    .unwrap();
    assert_eq!(out.len(), 1);
    match &out[0] {
        Rec::Product(p) => {
            assert_eq!(p.id, 7);
            assert_eq!(p.category, "tool");
            assert_eq!(p.name, "wrench");
        }
        Rec::Sale(_) => panic!("expected a product"),
    }
}

#[test]
fn single_sale() {
    let out = run_events(vec![
        vec![start("r"), start("sale")],
        field("id", "s-1"),
        field("product-id", "42"),
        field("date", "1700000000"),
        field("quantity", "2.5"),
        field("unit", "kg"),
        vec![end("sale"), end("r")],
    ])
    .unwrap();
    assert_eq!(out.len(), 1);
    match &out[0] {
        Rec::Sale(s) => {
            assert_eq!(s.id, "s-1");
            assert_eq!(s.product_id, 42);
            assert_eq!(s.date, 1700000000);
            assert_eq!(s.quantity, "2.5");
            assert_eq!(s.quantity.parse::<f64>().unwrap(), 2.5);
            assert_eq!(s.unit, "kg");
        }
        Rec::Product(_) => panic!("expected a sale"),
    }
}

#[test]
fn interleaved_records_keep_document_order() {
    let out = run_events(vec![
        vec![start("r"), start("product")],
        field("id", "1"),
        vec![end("product"), start("sale")],
        field("product-id", "1"),
        vec![end("sale"), start("product")],
        field("id", "2"),
        vec![end("product"), end("r")],
    ])
    .unwrap();
    assert_eq!(out.len(), 3);
    assert!(matches!(&out[0], Rec::Product(p) if p.id == 1));
    assert!(matches!(&out[1], Rec::Sale(s) if s.product_id == 1));
    assert!(matches!(&out[2], Rec::Product(p) if p.id == 2));
}

#[test]
fn bad_product_id_aborts_with_decode_error() {
    let r = run_events(vec![
        vec![start("r"), start("product")],
        field("id", "NaN"),
        vec![end("product"), end("r")],
    ]);
    match r {
        Err(ParseError::FieldDecodeError { record, field, raw }) => {
            assert_eq!(record, "product");
            assert_eq!(field, "id");
            assert_eq!(raw, "NaN");
        }
        _ => panic!("expected a field decode error"),
    }
}

#[test]
fn reopened_field_last_write_wins() {
    let out = run_events(vec![
        vec![start("r"), start("product")],
        field("name", "a"),
        field("name", "b"),
        vec![end("product"), end("r")],
    ])
    .unwrap();
    assert_eq!(out.len(), 1);
    assert!(matches!(&out[0], Rec::Product(p) if p.name == "b"));
}

#[test]
fn split_characters_concatenate() {
    let out = run_events(vec![
        vec![start("r"), start("product")],
        vec![start("name"), chars("he"), chars("l"), end("name")],
        vec![end("product"), end("r")],
    ])
    .unwrap();
    assert_eq!(out.len(), 1);
    assert!(matches!(&out[0], Rec::Product(p) if p.name == "hel"));
}

#[test]
fn omitted_fields_hold_defaults() {
    let out = run_events(vec![
        vec![start("r"), start("product")],
        field("id", "9"),
        vec![end("product"), start("sale")],
        field("id", "s-2"),
        vec![end("sale"), end("r")],
    ])
    .unwrap();
    assert_eq!(out.len(), 2);
    match &out[0] {
        Rec::Product(p) => {
            assert_eq!(p.id, 9);
            assert_eq!(p.category, "");
            assert_eq!(p.name, "");
        }
        Rec::Sale(_) => panic!("expected a product"),
    }
    match &out[1] {
        Rec::Sale(s) => {
            assert_eq!(s.id, "s-2");
            assert_eq!(s.product_id, 0);
            assert_eq!(s.date, 0);
            assert_eq!(s.quantity, "0");
            assert_eq!(s.quantity.parse::<f64>().unwrap(), 0.0);
            assert_eq!(s.unit, "");
        }
        Rec::Product(_) => panic!("expected a sale"),
    }
}

#[test]
fn scratch_is_reset_between_records() {
    let out = run_events(vec![
        vec![start("r"), start("product")],
        field("id", "7"),
        field("name", "wrench"),
        vec![end("product"), start("product"), end("product"), end("r")],
    ])
    .unwrap();
    assert_eq!(out.len(), 2);
    assert!(matches!(&out[0], Rec::Product(p) if p.id == 7 && p.name == "wrench"));
    assert!(matches!(&out[1], Rec::Product(p) if p.id == 0 && p.name.is_empty()));
}

#[test]
fn unknown_children_are_ignored() {
    let out = run_events(vec![
        vec![start("r"), start("product")],
        field("colour", "red"),
        field("id", "3"),
        vec![end("product"), end("r")],
    ])
    .unwrap();
    assert_eq!(out.len(), 1);
    assert!(matches!(&out[0], Rec::Product(p) if p.id == 3 && p.category.is_empty()));
}

#[test]
fn whitespace_between_elements_is_ignored() {
    let out = run_events(vec![
        vec![start("r"), chars("\n  "), start("product"), chars("\n    ")],
        field("id", "5"),
        vec![chars("\n  "), end("product"), chars("\n"), end("r")],
    ])
    .unwrap();
    assert_eq!(out.len(), 1);
    assert!(matches!(&out[0], Rec::Product(p) if p.id == 5));
}

#[test]
fn unterminated_record_is_reported() {
    let r = run_events(vec![vec![start("r"), start("sale"), start("id"), chars("x")]]);
    assert!(matches!(r, Err(ParseError::UnterminatedRecord)));
}

#[test]
fn source_io_fault_aborts() {
    let r = run_events(vec![vec![
        start("r"),
        Event::SourceError(SourceFault::Io("stream torn".to_string())),
    ]]);
    assert!(matches!(r, Err(ParseError::IoError(c)) if c == "stream torn"));
}

#[test]
fn source_framing_fault_aborts() {
    let r = run_events(vec![vec![
        start("r"),
        start("product"),
        Event::SourceError(SourceFault::Framing("mismatched tag".to_string())),
    ]]);
    assert!(matches!(r, Err(ParseError::XmlFramingError(c)) if c == "mismatched tag"));
}

#[test]
fn bad_sale_date_names_record_and_field() {
    let r = run_events(vec![
        vec![start("r"), start("sale")],
        field("date", "12x"),
        vec![end("sale"), end("r")],
    ]);
    match r {
        Err(ParseError::FieldDecodeError { record, field, raw }) => {
            assert_eq!(record, "sale");
            assert_eq!(field, "date");
            assert_eq!(raw, "12x");
        }
        _ => panic!("expected a field decode error"),
    }
}

#[test]
fn bad_sale_quantity_names_record_and_field() {
    let r = run_events(vec![
        vec![start("r"), start("sale")],
        field("quantity", "1.2.3"),
        vec![end("sale"), end("r")],
    ]);
    match r {
        Err(ParseError::FieldDecodeError { record, field, raw }) => {
            assert_eq!(record, "sale");
            assert_eq!(field, "quantity");
            assert_eq!(raw, "1.2.3");
        }
        _ => panic!("expected a field decode error"),
    }
}

#[test]
fn empty_numeric_field_is_a_decode_error() {
    let r = run_events(vec![
        vec![start("r"), start("sale"), start("product-id"), end("product-id")],
        vec![end("sale"), end("r")],
    ]);
    match r {
        Err(ParseError::FieldDecodeError { record, field, raw }) => {
            assert_eq!(record, "sale");
            assert_eq!(field, "product-id");
            assert_eq!(raw, "");
        }
        _ => panic!("expected a field decode error"),
    }
}

#[test]
fn empty_string_field_decodes_to_empty() {
    let out = run_events(vec![
        vec![start("r"), start("product"), start("name"), end("name")],
        vec![end("product"), end("r")],
    ])
    .unwrap();
    assert!(matches!(&out[0], Rec::Product(p) if p.name.is_empty()));
}

#[test]
fn no_record_before_failure_is_lost() {
    let r = run_events(vec![
        vec![start("r"), start("product")],
        field("id", "1"),
        vec![end("product"), start("product")],
        field("id", "oops"),
        vec![end("product"), end("r")],
    ]);
    assert!(matches!(r, Err(ParseError::FieldDecodeError { .. })));
}

#[test]
fn failing_record_emits_nothing_when_streamed() {
    let mut ex = xml_records::Extractor::new();
    assert!(ex.push(&start("product")).unwrap().is_none());
    assert!(ex.push(&start("id")).unwrap().is_none());
    assert!(ex.push(&chars("NaN")).unwrap().is_none());
    assert!(matches!(
        ex.push(&end("id")),
        Err(ParseError::FieldDecodeError { .. })
    ));
}

#[test]
fn streaming_push_delivers_at_closing_tag() {
    let mut ex = xml_records::Extractor::new();
    assert!(ex.push(&start("r")).unwrap().is_none());
    assert!(ex.push(&start("product")).unwrap().is_none());
    assert!(ex.push(&start("id")).unwrap().is_none());
    assert!(ex.push(&chars("11")).unwrap().is_none());
    assert!(ex.push(&end("id")).unwrap().is_none());
    let delivered = ex.push(&end("product")).unwrap();
    assert!(matches!(delivered, Some(Rec::Product(p)) if p.id == 11));
    assert!(ex.push(&end("r")).unwrap().is_none());
    assert!(ex.finish().is_ok());
}

#[test]
fn finish_inside_record_reports_unterminated() {
    let mut ex = xml_records::Extractor::new();
    assert!(ex.push(&start("sale")).unwrap().is_none());
    assert!(matches!(ex.finish(), Err(ParseError::UnterminatedRecord)));
}
