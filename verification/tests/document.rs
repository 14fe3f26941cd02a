//! Whole documents in memory: the real tokeniser feeding the verified
//! extractor.

use xml_records::{ParseError, Rec};

fn extract(doc: &str) -> Result<Vec<Rec>, ParseError> {
    let bytes: Vec<u8> = doc.as_bytes().to_vec();
    xml_records::extract_from_bytes(&bytes)
}

#[test]
fn document_with_one_product() {
    let out = extract(
        "<root><product><id>7</id><category>tool</category><name>wrench</name></product></root>",
    )
    .unwrap();
    assert_eq!(out.len(), 1);
    match &out[0] {
        Rec::Product(p) => {
            assert_eq!(p.id, 7);
            assert_eq!(p.category, "tool");
            assert_eq!(p.name, "wrench");
        }
        Rec::Sale(_) => panic!("expected a product"),
    }
}

#[test]
fn document_with_one_sale() {
    let out = extract(
        "<r><sale><id>s-1</id><product-id>42</product-id><date>1700000000</date>\
         <quantity>2.5</quantity><unit>kg</unit></sale></r>",
    )
    .unwrap();
    assert_eq!(out.len(), 1);
    match &out[0] {
        Rec::Sale(s) => {
            assert_eq!(s.id, "s-1");
            assert_eq!(s.product_id, 42);
            assert_eq!(s.date, 1700000000);
            assert_eq!(s.quantity.parse::<f64>().unwrap(), 2.5);
            assert_eq!(s.unit, "kg");
        }
        Rec::Product(_) => panic!("expected a sale"),
    }
}

#[test]
fn pretty_printed_document_is_tolerated() {
    let out = extract(
        "<root>\n  <product>\n    <id>1</id>\n    <name>bolt</name>\n  </product>\n  <sale>\n    <product-id>1</product-id>\n  </sale>\n  <product>\n    <id>2</id>\n  </product>\n</root>\n",
    )
    .unwrap();
    assert_eq!(out.len(), 3);
    assert!(matches!(&out[0], Rec::Product(p) if p.id == 1 && p.name == "bolt"));
    assert!(matches!(&out[1], Rec::Sale(s) if s.product_id == 1));
    assert!(matches!(&out[2], Rec::Product(p) if p.id == 2));
}

#[test]
fn cdata_counts_as_text() {
    let out = extract("<r><product><name><![CDATA[a<b]]></name></product></r>").unwrap();
    assert!(matches!(&out[0], Rec::Product(p) if p.name == "a<b"));
}

#[test]
fn attributes_are_ignored() {
    let out = extract("<r><product lang=\"en\"><id>4</id></product></r>").unwrap();
    assert!(matches!(&out[0], Rec::Product(p) if p.id == 4));
}

#[test]
fn malformed_document_is_a_framing_error() {
    let r = extract("<r><product><id>7</id>");
    assert!(matches!(r, Err(ParseError::XmlFramingError(_))));
}

#[test]
fn decode_failure_in_a_document() {
    let r = extract("<r><product><id>NaN</id></product></r>");
    match r {
        Err(ParseError::FieldDecodeError { record, field, raw }) => {
            assert_eq!(record, "product");
            assert_eq!(field, "id");
            assert_eq!(raw, "NaN");
        }
        _ => panic!("expected a field decode error"),
    }
}
