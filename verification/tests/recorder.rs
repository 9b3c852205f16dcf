use ruci_config::codec::decode_recorder;
use ruci_config::doc::Value;
use ruci_config::fields::ErrKind;
use ruci_config::inbound::{decode_in, InMapConfig};
use ruci_config::types::{
    OutputFileExtension, OutputFormat, PieceTruncateOption, RecordMode, RecorderConfig,
    SessionTruncateOption,
};

#[test]
fn recorder_all_absent_yields_documented_defaults() {
    let fields: Vec<(String, Value)> = Vec::new();
    let c = decode_recorder(&fields).expect("decode must succeed");
    assert_eq!(c.label, None);
    assert_eq!(c.output_dir, None);
    assert_eq!(c.output_file_extension, OutputFileExtension::Json);
    assert_eq!(c.output_format, OutputFormat::Ruci);
    assert_eq!(c.record_mode, RecordMode::Full);
    assert_eq!(c.prettify, false);
    assert_eq!(c.piece_truncate_option, PieceTruncateOption::NoTruncate);
    assert_eq!(c.session_truncate_option, SessionTruncateOption::NoTruncate);
}

#[test]
fn recorder_default_constructor_matches_decoded_defaults() {
    let fields: Vec<(String, Value)> = Vec::new();
    let decoded = decode_recorder(&fields).expect("decode must succeed");
    assert_eq!(decoded, RecorderConfig::default());
}

#[test]
fn recorder_variant_with_no_fields_decodes_to_defaults() {
    let doc = Value::Obj(vec![(String::from("type"), Value::Str(String::from("Recorder")))]);
    match decode_in(&doc).expect("decode must succeed") {
        InMapConfig::Recorder(rc) => assert_eq!(rc, RecorderConfig::default()),
        other => panic!("unexpected variant: {:?}", other),
    }
}

#[test]
fn explicit_zero_piece_truncate_is_preserved_verbatim() {
    let fields = vec![(
        String::from("piece_truncate_option"),
        Value::Obj(vec![(String::from("piece-truncate"), Value::Int(0))]),
    )];
    let c = decode_recorder(&fields).expect("decode must succeed");
    assert_eq!(c.piece_truncate_option, PieceTruncateOption::PieceTruncate(0));
    assert_ne!(c.piece_truncate_option, PieceTruncateOption::NoTruncate);
}

#[test]
fn explicit_no_truncate_spelling_is_accepted() {
    let fields = vec![(
        String::from("session_truncate_option"),
        Value::Str(String::from("no-truncate")),
    )];
    let c = decode_recorder(&fields).expect("decode must succeed");
    assert_eq!(c.session_truncate_option, SessionTruncateOption::NoTruncate);
}

#[test]
fn recorder_lowercase_spellings_roundtrip() {
    let fields = vec![
        (String::from("output_file_extension"), Value::Str(String::from("cbor"))),
        (String::from("output_format"), Value::Str(String::from("har"))),
        (String::from("record_mode"), Value::Str(String::from("info"))),
    ];
    let c = decode_recorder(&fields).expect("decode must succeed");
    assert_eq!(c.output_file_extension, OutputFileExtension::Cbor);
    assert_eq!(c.output_format, OutputFormat::Har);
    assert_eq!(c.record_mode, RecordMode::Info);
}

#[test]
fn unknown_recorder_spelling_is_an_unknown_variant_error() {
    let fields = vec![(String::from("output_format"), Value::Str(String::from("xml")))];
    let e = decode_recorder(&fields).expect_err("decode must fail");
    assert_eq!(e.kind, ErrKind::UnknownVariant);
    assert_eq!(e.path, "xml");
}

#[test]
fn negative_truncate_limit_is_a_value_range_error() {
    let fields = vec![(
        String::from("piece_truncate_option"),
        Value::Obj(vec![(String::from("piece-truncate"), Value::Int(-1))]),
    )];
    let e = decode_recorder(&fields).expect_err("decode must fail");
    assert_eq!(e.kind, ErrKind::ValueRange);
    assert_eq!(e.path, "piece-truncate");
}

#[test]
fn wrong_shape_field_is_a_type_mismatch_error() {
    let fields = vec![(String::from("label"), Value::Int(3))];
    let e = decode_recorder(&fields).expect_err("decode must fail");
    assert_eq!(e.kind, ErrKind::TypeMismatch);
    assert_eq!(e.path, "label");
}
