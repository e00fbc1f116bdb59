use playable_bosses::amiibo_db::{
    amiibo_schema_record_count, amiibo_structural_fingerprint, field, is_verified_amiibo_record,
    prepare_append_record, select_amiibo_template, ParamList, ParamStruct, ParamValue,
    FIELD_DEFAULT_COLOR, FIELD_ENABLE_UNKNOWN_NUMBERING_ID, FIELD_IS_VALID,
    FIELD_NFP_CHARACTER_ID_LOWER, FIELD_NFP_CHARACTER_ID_UPPER, FIELD_NFP_NUMBERING_ID,
    FIELD_UI_AMIIBO_ID, FIELD_UI_CHARA_ID, FIELD_UNKNOWN_BOOL,
};
use playable_bosses::tag_id::NfpMatchKey;
use prc::hash40::Hash40;

fn row(
    amiibo_id: u64,
    is_valid: bool,
    upper: u16,
    lower: u8,
    numbering: u16,
    unknown_numbering: bool,
) -> ParamStruct {
    ParamStruct(vec![
        (FIELD_UI_AMIIBO_ID, ParamValue::Hash(amiibo_id)),
        (FIELD_UI_CHARA_ID, ParamValue::Hash(Hash40::new("ui_chara_mario").0)),
        (FIELD_IS_VALID, ParamValue::Bool(is_valid)),
        (FIELD_UNKNOWN_BOOL, ParamValue::Bool(false)),
        (FIELD_NFP_NUMBERING_ID, ParamValue::U16(numbering)),
        (FIELD_DEFAULT_COLOR, ParamValue::U8(1)),
        (FIELD_ENABLE_UNKNOWN_NUMBERING_ID, ParamValue::Bool(unknown_numbering)),
        (FIELD_NFP_CHARACTER_ID_UPPER, ParamValue::U16(upper)),
        (FIELD_NFP_CHARACTER_ID_LOWER, ParamValue::U8(lower)),
    ])
}

fn hash_of(record: &ParamStruct, hash: u64) -> Option<u64> {
    match field(record, hash) {
        Some(ParamValue::Hash(h)) => Some(*h),
        _ => None,
    }
}

fn u16_of(record: &ParamStruct, hash: u64) -> Option<u16> {
    match field(record, hash) {
        Some(ParamValue::U16(x)) => Some(*x),
        _ => None,
    }
}

fn u8_of(record: &ParamStruct, hash: u64) -> Option<u8> {
    match field(record, hash) {
        Some(ParamValue::U8(x)) => Some(*x),
        _ => None,
    }
}

fn bool_of(record: &ParamStruct, hash: u64) -> Option<bool> {
    match field(record, hash) {
        Some(ParamValue::Bool(x)) => Some(*x),
        _ => None,
    }
}

fn to_value(kind: &prc::ParamKind) -> ParamValue {
    match kind {
        prc::ParamKind::Bool(v) => ParamValue::Bool(*v),
        prc::ParamKind::I8(v) => ParamValue::I8(*v),
        prc::ParamKind::U8(v) => ParamValue::U8(*v),
        prc::ParamKind::I16(v) => ParamValue::I16(*v),
        prc::ParamKind::U16(v) => ParamValue::U16(*v),
        prc::ParamKind::I32(v) => ParamValue::I32(*v),
        prc::ParamKind::U32(v) => ParamValue::U32(*v),
        prc::ParamKind::Float(v) => ParamValue::FloatBits(v.to_bits()),
        prc::ParamKind::Hash(v) => ParamValue::Hash(v.0),
        prc::ParamKind::Str(v) => ParamValue::Str(v.clone()),
        prc::ParamKind::List(v) => ParamValue::List(ParamList(v.0.iter().map(to_value).collect())),
        prc::ParamKind::Struct(v) => ParamValue::Struct(ParamStruct(
            v.0.iter().map(|(h, value)| (h.0, to_value(value))).collect(),
        )),
    }
}

#[test]
fn serialized_field_constants_match_their_labels() {
    assert_eq!(FIELD_UI_AMIIBO_ID, Hash40::new("ui_amiibo_id").0);
    assert_eq!(FIELD_UI_CHARA_ID, Hash40::new("ui_chara_id").0);
    assert_eq!(FIELD_IS_VALID, Hash40::new("is_valid").0);
    assert_eq!(
        FIELD_NFP_CHARACTER_ID_UPPER,
        Hash40::new("nfp_character_id_upper").0
    );
    assert_eq!(
        FIELD_NFP_CHARACTER_ID_LOWER,
        Hash40::new("nfp_character_id_lower").0
    );
    assert_eq!(FIELD_NFP_NUMBERING_ID, Hash40::new("nfp_numbering_id").0);
    assert_eq!(FIELD_DEFAULT_COLOR, Hash40::new("default_color").0);
    assert_eq!(
        FIELD_ENABLE_UNKNOWN_NUMBERING_ID,
        Hash40::new("enable_unknown_numbering_id").0
    );
}

#[test]
fn schema_rejection_does_not_mutate_the_database_tree() {
    let records = ParamList(vec![ParamValue::Bool(true)]);
    let before = ParamList(vec![ParamValue::Bool(true)]);
    assert!(select_amiibo_template(&records).is_none());
    assert_eq!(records, before);
}

#[test]
fn schema_rejection_keeps_prc_bytes_identical() {
    let root = prc::ParamStruct(vec![(
        Hash40::new("db_root"),
        prc::ParamKind::List(prc::ParamList(vec![prc::ParamKind::Bool(true)])),
    )]);
    let mut before_writer = std::io::Cursor::new(Vec::new());
    prc::write_stream(&mut before_writer, &root).expect("test PRC should serialize");
    let before = before_writer.into_inner();

    let mut reader = std::io::Cursor::new(&before);
    let parsed = prc::read_stream(&mut reader).expect("test PRC should parse");
    let records = parsed
        .0
        .iter()
        .find(|(hash, _)| *hash == Hash40::new("db_root"))
        .map(|(_, value)| to_value(value))
        .expect("test PRC should contain db_root");
    let list = match records {
        ParamValue::List(list) => list,
        _ => panic!("db_root should be a list"),
    };
    assert!(select_amiibo_template(&list).is_none());

    let mut after_writer = std::io::Cursor::new(Vec::new());
    prc::write_stream(&mut after_writer, &parsed).expect("test PRC should reserialize");
    assert_eq!(before, after_writer.into_inner());
}

#[test]
fn discovers_a_schema_template_without_a_product_sentinel() {
    let records = ParamList(vec![
        ParamValue::Struct(row(0x10, false, 1, 0, 4, false)),
        ParamValue::Struct(row(0x11, true, 2, 0, 5, false)),
    ]);
    assert_eq!(amiibo_schema_record_count(&records), records.0.len());
    let (index, template) = select_amiibo_template(&records).expect("schema template");
    assert_eq!(index, 1);
    assert!(is_verified_amiibo_record(&template));
    assert_eq!(hash_of(&template, FIELD_UI_AMIIBO_ID), Some(0x11));
}

#[test]
fn the_product_sentinel_wins_over_earlier_valid_rows() {
    let records = ParamList(vec![
        ParamValue::Bool(true),
        ParamValue::Struct(row(0x11, true, 2, 0, 5, false)),
        ParamValue::Struct(row(0x12, true, 0, 0, 0, true)),
    ]);
    let (index, template) = select_amiibo_template(&records).expect("schema template");
    assert_eq!(index, 2);
    assert_eq!(hash_of(&template, FIELD_UI_AMIIBO_ID), Some(0x12));
    assert_eq!(amiibo_schema_record_count(&records), 2);
}

#[test]
fn an_invalid_row_is_the_last_resort() {
    let records = ParamList(vec![ParamValue::Struct(row(0x10, false, 1, 0, 4, false))]);
    let (index, _) = select_amiibo_template(&records).expect("schema template");
    assert_eq!(index, 0);
}

#[test]
fn rows_with_a_missing_or_mistyped_field_are_not_templates() {
    let mut short = row(0x10, true, 1, 0, 4, false);
    short.0.pop();
    let mut mistyped = row(0x10, true, 1, 0, 4, false);
    mistyped.0[5] = (FIELD_DEFAULT_COLOR, ParamValue::U16(1));
    assert!(!is_verified_amiibo_record(&short));
    assert!(!is_verified_amiibo_record(&mistyped));
    let records = ParamList(vec![ParamValue::Struct(short), ParamValue::Struct(mistyped)]);
    assert!(select_amiibo_template(&records).is_none());
    assert_eq!(amiibo_schema_record_count(&records), 0);
}

#[test]
fn zero_upper_mario_append_is_one_complete_master_hand_record() {
    let template = row(0x99, true, 0x2106, 0, 0, false);
    let appended = prepare_append_record(
        &template,
        0x0000_0000_02,
        Hash40::new("ui_chara_masterhand").0,
        0,
        0,
        None,
    )
    .expect("zero-upper Mario row should be constructible");
    assert!(is_verified_amiibo_record(&appended));
    assert_eq!(hash_of(&appended, FIELD_UI_AMIIBO_ID), Some(2));
    assert_eq!(
        hash_of(&appended, FIELD_UI_CHARA_ID),
        Some(Hash40::new("ui_chara_masterhand").0)
    );
    assert_eq!(bool_of(&appended, FIELD_IS_VALID), Some(true));
    assert_eq!(u16_of(&appended, FIELD_NFP_CHARACTER_ID_UPPER), Some(0));
    assert_eq!(u8_of(&appended, FIELD_DEFAULT_COLOR), Some(0));
    assert_eq!(u8_of(&appended, FIELD_NFP_CHARACTER_ID_LOWER), Some(0));
    assert_eq!(u16_of(&appended, FIELD_NFP_NUMBERING_ID), Some(0));

    let mut records = ParamList(vec![ParamValue::Struct(template)]);
    let count_before = records.0.len();
    records.0.push(ParamValue::Struct(appended));
    assert_eq!(records.0.len(), count_before + 1);
}

#[test]
fn virtual_master_hand_append_patches_the_complete_native_nfp_key() {
    let template = row(0x99, true, 0x2106, 0, 0, true);
    let appended = prepare_append_record(
        &template,
        0x0100_0100_01,
        Hash40::new("ui_chara_masterhand").0,
        0x5042,
        3,
        Some(NfpMatchKey {
            character_id_upper: 0x5042,
            character_id_lower: 0,
            numbering_id: 1,
            enable_unknown_numbering_id: false,
        }),
    )
    .expect("virtual Master Hand row should be constructible");
    assert_eq!(u16_of(&appended, FIELD_NFP_CHARACTER_ID_UPPER), Some(0x5042));
    assert_eq!(u8_of(&appended, FIELD_DEFAULT_COLOR), Some(3));
    assert_eq!(u16_of(&appended, FIELD_NFP_NUMBERING_ID), Some(1));
    assert_eq!(u8_of(&appended, FIELD_NFP_CHARACTER_ID_LOWER), Some(0));
    assert_eq!(bool_of(&appended, FIELD_ENABLE_UNKNOWN_NUMBERING_ID), Some(false));
}

#[test]
fn a_mismatched_match_key_or_template_refuses_the_append() {
    let template = row(0x99, true, 0x2106, 0, 0, false);
    let key = NfpMatchKey {
        character_id_upper: 0x5042,
        character_id_lower: 0,
        numbering_id: 1,
        enable_unknown_numbering_id: false,
    };
    assert!(prepare_append_record(&template, 1, 2, 0x2106, 0, Some(key)).is_none());
    let mut broken = row(0x99, true, 0x2106, 0, 0, false);
    broken.0.remove(0);
    assert!(prepare_append_record(&broken, 1, 2, 0x2106, 0, None).is_none());
}

#[test]
fn the_fingerprint_follows_shape_not_values() {
    let a = ParamList(vec![ParamValue::Struct(row(0x10, true, 1, 0, 4, false))]);
    let b = ParamList(vec![ParamValue::Struct(row(0x20, false, 9, 3, 7, true))]);
    let c = ParamList(vec![ParamValue::Bool(true)]);
    assert_eq!(amiibo_structural_fingerprint(&a), amiibo_structural_fingerprint(&b));
    assert_ne!(amiibo_structural_fingerprint(&a), amiibo_structural_fingerprint(&c));
    let empty = ParamList(vec![]);
    let expected = (0xcbf2_9ce4_8422_2325u64 ^ 0).wrapping_mul(0x1000_0000_01b3);
    assert_eq!(amiibo_structural_fingerprint(&empty), expected);
    let mut marker = 0xcbf2_9ce4_8422_2325u64;
    for word in [1u64, 0xff] {
        marker = (marker ^ word).wrapping_mul(0x1000_0000_01b3);
    }
    assert_eq!(amiibo_structural_fingerprint(&c), marker);
}
