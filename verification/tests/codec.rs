use record_store::codec::{
    decode_submission, encode_records, record_of_value, records_of_values, sequence_of_value,
    submission_of_value, value_of_record, value_of_records, DecodeError,
};
use record_store::record::{clone_records, Record};

fn ann() -> Record {
    Record::new("Ann".to_string(), 30)
}

fn bo() -> Record {
    Record::new("Bo".to_string(), 25)
}

fn value(text: &str) -> serde_json::Value {
    serde_json::from_str(text).unwrap()
}

#[test]
fn record_new_keeps_fields() {
    let r = Record::new("Ann".to_string(), 30);
    assert_eq!(r.name, "Ann");
    assert_eq!(r.age, 30);
    assert_eq!(r.clone(), r);
}

#[test]
fn clone_records_copies_in_order() {
    let records = vec![ann(), bo(), ann()];
    assert_eq!(clone_records(&records), records);
    assert_eq!(clone_records(&Vec::new()), Vec::<Record>::new());
}

#[test]
fn submission_of_one_object_is_one_record() {
    let got = decode_submission(br#"{"name":"Ann","age":30}"#);
    assert_eq!(got, Ok(vec![ann()]));
}

#[test]
fn submission_of_an_array_keeps_order() {
    let got = decode_submission(br#"[{"name":"Ann","age":30},{"name":"Bo","age":25}]"#);
    assert_eq!(got, Ok(vec![ann(), bo()]));
    let got = decode_submission(br#"[{"name":"Bo","age":25},{"name":"Ann","age":30}]"#);
    assert_eq!(got, Ok(vec![bo(), ann()]));
}

#[test]
fn submission_of_an_empty_array_is_no_records() {
    assert_eq!(decode_submission(b"[]"), Ok(Vec::new()));
    assert_eq!(decode_submission(b" [ ] \n"), Ok(Vec::new()));
}

#[test]
fn submission_may_repeat_a_record() {
    let got = decode_submission(br#"[{"name":"Ann","age":30},{"name":"Ann","age":30}]"#);
    assert_eq!(got, Ok(vec![ann(), ann()]));
}

#[test]
fn submission_passes_over_other_members() {
    let got = decode_submission(br#"{"id":7,"name":"Ann","tags":["a",{"b":null}],"age":30}"#);
    assert_eq!(got, Ok(vec![ann()]));
}

#[test]
fn submission_takes_members_in_any_order() {
    let got = decode_submission(br#"{"age":30,"name":"Ann"}"#);
    assert_eq!(got, Ok(vec![ann()]));
}

#[test]
fn submission_reads_escapes_and_other_scripts() {
    let got = decode_submission("{\"name\":\"Zo\\u00eb \\\"Z\\\" \u{4e2d}\",\"age\":0}".as_bytes());
    assert_eq!(got, Ok(vec![Record::new("Zo\u{eb} \"Z\" \u{4e2d}".to_string(), 0)]));
}

#[test]
fn syntax_errors_are_told_apart_from_shape() {
    assert_eq!(decode_submission(b""), Err(DecodeError::Syntax));
    assert_eq!(decode_submission(b"not json"), Err(DecodeError::Syntax));
    assert_eq!(decode_submission(br#"{"name":"Ann","age":30"#), Err(DecodeError::Syntax));
    assert_eq!(decode_submission(br#"{"name":"Ann","age":30} x"#), Err(DecodeError::Syntax));
    assert_eq!(decode_submission(br#"[{"name":"Ann","age":30},]"#), Err(DecodeError::Syntax));
    assert_eq!(decode_submission(&[0xff, 0xfe]), Err(DecodeError::Syntax));
}

#[test]
fn missing_members_are_a_shape_error() {
    assert_eq!(decode_submission(br#"{"name":"Ann"}"#), Err(DecodeError::Shape));
    assert_eq!(decode_submission(br#"{"age":30}"#), Err(DecodeError::Shape));
    assert_eq!(decode_submission(b"{}"), Err(DecodeError::Shape));
    assert_eq!(decode_submission(br#"{"Name":"Ann","Age":30}"#), Err(DecodeError::Shape));
}

#[test]
fn wrong_member_types_are_a_shape_error() {
    assert_eq!(decode_submission(br#"{"name":7,"age":30}"#), Err(DecodeError::Shape));
    assert_eq!(decode_submission(br#"{"name":null,"age":30}"#), Err(DecodeError::Shape));
    assert_eq!(decode_submission(br#"{"name":"Ann","age":"30"}"#), Err(DecodeError::Shape));
    assert_eq!(decode_submission(br#"{"name":"Ann","age":null}"#), Err(DecodeError::Shape));
    assert_eq!(decode_submission(br#"{"name":"Ann","age":true}"#), Err(DecodeError::Shape));
    assert_eq!(decode_submission(br#"{"name":"Ann","age":[30]}"#), Err(DecodeError::Shape));
}

#[test]
fn ages_are_natural_numbers_that_fit() {
    assert_eq!(decode_submission(br#"{"name":"Ann","age":-1}"#), Err(DecodeError::Shape));
    assert_eq!(decode_submission(br#"{"name":"Ann","age":30.5}"#), Err(DecodeError::Shape));
    assert_eq!(decode_submission(br#"{"name":"Ann","age":30.0}"#), Err(DecodeError::Shape));
    assert_eq!(decode_submission(br#"{"name":"Ann","age":1e2}"#), Err(DecodeError::Shape));
    assert_eq!(
        decode_submission(br#"{"name":"Ann","age":4294967296}"#),
        Err(DecodeError::Shape)
    );
    assert_eq!(
        decode_submission(br#"{"name":"Ann","age":18446744073709551616}"#),
        Err(DecodeError::Shape)
    );
    assert_eq!(
        decode_submission(br#"{"name":"Ann","age":4294967295}"#),
        Ok(vec![Record::new("Ann".to_string(), 4294967295)])
    );
    assert_eq!(
        decode_submission(br#"{"name":"","age":0}"#),
        Ok(vec![Record::new(String::new(), 0)])
    );
}

#[test]
fn other_documents_are_a_shape_error() {
    assert_eq!(decode_submission(b"null"), Err(DecodeError::Shape));
    assert_eq!(decode_submission(b"true"), Err(DecodeError::Shape));
    assert_eq!(decode_submission(b"30"), Err(DecodeError::Shape));
    assert_eq!(decode_submission(br#""Ann""#), Err(DecodeError::Shape));
    assert_eq!(decode_submission(br#"[["Ann",30]]"#), Err(DecodeError::Shape));
    assert_eq!(decode_submission(br#"[[{"name":"Ann","age":30}]]"#), Err(DecodeError::Shape));
}

#[test]
fn one_bad_item_refuses_the_whole_array() {
    let got = decode_submission(br#"[{"name":"Ann","age":30},{"name":"Bo"}]"#);
    assert_eq!(got, Err(DecodeError::Shape));
    let got = decode_submission(br#"[{"name":"Ann","age":30},7]"#);
    assert_eq!(got, Err(DecodeError::Shape));
}

#[test]
fn record_of_value_reads_an_object() {
    assert_eq!(record_of_value(&value(r#"{"name":"Ann","age":30}"#)), Some(ann()));
    assert_eq!(record_of_value(&value(r#"{"name":"Ann"}"#)), None);
    assert_eq!(record_of_value(&value(r#"["Ann",30]"#)), None);
    assert_eq!(record_of_value(&value("null")), None);
}

#[test]
fn records_of_values_reads_each_item() {
    let items = vec![value(r#"{"name":"Ann","age":30}"#), value(r#"{"name":"Bo","age":25}"#)];
    assert_eq!(records_of_values(&items), Some(vec![ann(), bo()]));
    let items = vec![value(r#"{"name":"Ann","age":30}"#), value("7")];
    assert_eq!(records_of_values(&items), None);
    assert_eq!(records_of_values(&Vec::new()), Some(Vec::new()));
}

#[test]
fn a_stored_document_is_an_array_only() {
    assert_eq!(sequence_of_value(&value(r#"[{"name":"Ann","age":30}]"#)), Some(vec![ann()]));
    assert_eq!(sequence_of_value(&value(r#"{"name":"Ann","age":30}"#)), None);
    assert_eq!(sequence_of_value(&value("[]")), Some(Vec::new()));
    assert_eq!(submission_of_value(&value(r#"{"name":"Ann","age":30}"#)), Some(vec![ann()]));
    assert_eq!(submission_of_value(&value(r#"[{"name":"Ann","age":30}]"#)), Some(vec![ann()]));
    assert_eq!(submission_of_value(&value("7")), None);
}

#[test]
fn value_of_record_is_an_object_of_name_then_age() {
    let v = value_of_record(&ann());
    let object = v.as_object().unwrap();
    let keys: Vec<&String> = object.keys().collect();
    assert_eq!(keys, vec!["name", "age"]);
    assert_eq!(object.get("name").unwrap().as_str(), Some("Ann"));
    assert_eq!(object.get("age").unwrap().as_u64(), Some(30));
    assert_eq!(v, value(r#"{"name":"Ann","age":30}"#));
}

#[test]
fn value_of_records_is_an_array_in_order() {
    let v = value_of_records(&vec![ann(), bo()]);
    assert_eq!(v, value(r#"[{"name":"Ann","age":30},{"name":"Bo","age":25}]"#));
    assert_ne!(v, value(r#"[{"name":"Bo","age":25},{"name":"Ann","age":30}]"#));
    assert_eq!(value_of_records(&Vec::new()), value("[]"));
}

#[test]
fn encoding_is_indented_json() {
    let text = encode_records(&vec![ann()]).unwrap();
    assert_eq!(text, "[\n  {\n    \"name\": \"Ann\",\n    \"age\": 30\n  }\n]");
    let text = encode_records(&vec![ann(), bo()]).unwrap();
    assert_eq!(
        text,
        "[\n  {\n    \"name\": \"Ann\",\n    \"age\": 30\n  },\n  {\n    \"name\": \"Bo\",\n    \"age\": 25\n  }\n]"
    );
    assert_eq!(encode_records(&Vec::new()).unwrap(), "[]");
}

#[test]
fn encoding_escapes_what_json_must() {
    let r = Record::new("a\"b\\c\nd".to_string(), 1);
    let text = encode_records(&vec![r]).unwrap();
    assert_eq!(text, "[\n  {\n    \"name\": \"a\\\"b\\\\c\\nd\",\n    \"age\": 1\n  }\n]");
}

#[test]
fn records_come_back_from_their_encoding() {
    let records = vec![
        ann(),
        bo(),
        ann(),
        Record::new(String::new(), 0),
        Record::new("a\"b\\c\nd\t\u{1}\u{e9}\u{1f600}".to_string(), 4294967295),
    ];
    let text = encode_records(&records).unwrap();
    assert_eq!(decode_submission(text.as_bytes()), Ok(clone_records(&records)));
    assert_eq!(sequence_of_value(&value(&text)), Some(records));
}
