use playable_bosses::amiibo::{
    boss_identities, configured_mappings, first_existing_mapping_path, loaded_mapping_file, mapping_paths, parse_error,
    source_path, validation_errors, AmiiboEntry, AmiiboFile, LoadedAmiiboFile,
    BOSS_IDENTITY_COUNT, DEFAULT_MAPPING_PATH,
};
use playable_bosses::tag_id::{
    nfp_character_id_lower_from_tag_id, nfp_numbering_id_from_tag_id, parse_tag_id,
    private_virtual_layout_error, private_virtual_nfp_match_key, NfpMatchKey,
};

fn entry(amiibo_id: &str, default_color: Option<u8>, remap_existing: bool) -> AmiiboEntry {
    AmiiboEntry {
        amiibo_id: Some(amiibo_id.to_string()),
        default_color,
        remap_existing,
    }
}

fn loaded(bosses: Vec<(&str, AmiiboEntry)>) -> LoadedAmiiboFile {
    let mut file = AmiiboFile::new();
    for (key, e) in bosses {
        file.insert(key.to_string(), e);
    }
    LoadedAmiiboFile {
        path: Some(DEFAULT_MAPPING_PATH.to_string()),
        file,
        parse_error: None,
    }
}

#[test]
fn parses_the_current_figure_id_layout() {
    assert_eq!(
        parse_tag_id("0x2106000003601202"),
        Ok((0x2106000003601202, 0x03601202, 0x2106))
    );
    assert_eq!(
        parse_tag_id("0x3740000103741402"),
        Ok((0x3740000103741402, 0x0103741402, 0x3740))
    );
}

#[test]
fn accepts_zero_upper_ids() {
    assert_eq!(
        parse_tag_id("0x0000000000000002"),
        Ok((0x0000000000000002, 0x0000000002, 0x0000))
    );
}

#[test]
fn accepts_private_virtual_boss_ids_with_a_unique_model_number() {
    assert_eq!(
        parse_tag_id("0x5042000100010001"),
        Ok((0x5042000100010001, 0x0100010001, 0x5042))
    );
    assert_eq!(
        private_virtual_nfp_match_key(0x5042_0001_0001_0001),
        Some(NfpMatchKey {
            character_id_upper: 0x5042,
            character_id_lower: 0,
            numbering_id: 1,
            enable_unknown_numbering_id: false,
        })
    );
}

#[test]
fn rejects_non_fixed_width_or_nonzero_middle_bits() {
    assert!(parse_tag_id("0x3601202").is_err());
    assert!(parse_tag_id("0x2106010003601202").is_err());
    assert!(parse_tag_id("0x0000000000000000").is_err());
}

#[test]
fn keeps_the_complete_boss_identity_set_centralized() {
    let identities = boss_identities();
    assert_eq!(identities.len(), 11);
    let mut keys: Vec<_> = identities.iter().map(|identity| identity.key).collect();
    keys.sort_unstable();
    keys.dedup();
    assert_eq!(keys.len(), 11);
}

#[test]
fn private_virtual_ids_use_the_model_number_as_the_native_discriminator() {
    let master = 0x5042_0001_0001_0001;
    let crazy = 0x5042_0001_0002_0002;
    assert_eq!(nfp_numbering_id_from_tag_id(master), 1);
    assert_eq!(nfp_numbering_id_from_tag_id(crazy), 2);
    assert_ne!(
        private_virtual_nfp_match_key(master),
        private_virtual_nfp_match_key(crazy)
    );
    assert!(private_virtual_layout_error(0x5042_0001_0000_0001).is_some());
}

#[test]
fn all_eleven_virtual_catalog_ids_have_distinct_explicit_nfp_keys() {
    let mut keys = Vec::new();
    for ordinal in 1u64..=11 {
        let tag_id = 0x5042_0001_0000_0000 | (ordinal << 16) | ordinal;
        let key = private_virtual_nfp_match_key(tag_id).expect("valid private virtual key");
        assert_eq!(key.character_id_upper, 0x5042);
        assert_eq!(key.character_id_lower, 0);
        assert_eq!(key.numbering_id, ordinal as u16);
        assert!(!key.enable_unknown_numbering_id);
        assert!(private_virtual_layout_error(tag_id).is_none());
        assert!(!keys.contains(&key));
        keys.push(key);
    }
}

#[test]
fn tag_id_fields_come_from_the_low_bytes() {
    assert_eq!(nfp_character_id_lower_from_tag_id(0x2106_0000_0360_1202), 0x00);
    assert_eq!(nfp_character_id_lower_from_tag_id(0x5042_0101_0003_0007), 0x01);
    assert_eq!(nfp_numbering_id_from_tag_id(0x5042_0001_0003_0007), 3);
}

#[test]
fn parse_errors_name_the_problem() {
    assert!(parse_tag_id("").is_err());
    assert!(parse_tag_id("0x21060000036012").is_err());
    assert!(parse_tag_id("0x210600000360120g").is_err());
    assert_eq!(
        parse_tag_id("  2106000003601202 "),
        Ok((0x2106000003601202, 0x03601202, 0x2106))
    );
}

#[test]
fn configured_mappings_bind_each_boss_to_its_tag() {
    let settings = loaded(vec![
        ("master_hand", entry("0x2106000003601202", None, false)),
        ("crazy_hand", entry("0x3740000103741402", Some(2), true)),
    ]);
    let mappings = configured_mappings(&settings);
    assert_eq!(mappings.len(), 2);
    assert_eq!(mappings[0].identity.key, "master_hand");
    assert_eq!(mappings[0].tag_id, 0x2106000003601202);
    assert_eq!(mappings[0].ui_amiibo_id, 0x03601202);
    assert_eq!(mappings[0].nfp_character_id_upper, 0x2106);
    assert_eq!(mappings[1].identity.key, "crazy_hand");
    assert_eq!(mappings[1].default_color, 2);
    assert!(mappings[1].remap_existing);
    assert!(validation_errors(&settings).is_empty());
}

#[test]
fn mappings_that_reuse_a_tag_are_both_dropped_and_reported() {
    let settings = loaded(vec![
        ("master_hand", entry("0x2106000003601202", None, false)),
        ("crazy_hand", entry("0x2106000003601202", None, false)),
        ("marx", entry("0x3740000103741402", None, false)),
    ]);
    let mappings = configured_mappings(&settings);
    assert_eq!(mappings.len(), 1);
    assert_eq!(mappings[0].identity.key, "marx");
    assert!(!validation_errors(&settings).is_empty());
}

#[test]
fn unknown_keys_and_bad_ids_are_reported() {
    let settings = loaded(vec![
        ("not_a_boss", entry("0x2106000003601202", None, false)),
        ("galleom", entry("0x12", None, false)),
    ]);
    assert!(configured_mappings(&settings).is_empty());
    let errors = validation_errors(&settings);
    assert!(errors.len() >= 2);
    assert!(errors.iter().any(|e| e.contains("not_a_boss")));
}

#[test]
fn loaded_file_reports_its_path_and_error() {
    let missing = loaded_mapping_file(None, Ok(AmiiboFile::new()));
    assert_eq!(source_path(&missing), None);
    assert_eq!(parse_error(&missing), None);
    let broken = loaded_mapping_file(
        Some("sd:/comp_boss/amiibo.toml".to_string()),
        Err("expected `=`".to_string()),
    );
    assert_eq!(source_path(&broken), Some("sd:/comp_boss/amiibo.toml"));
    assert_eq!(parse_error(&broken), Some("expected `=`"));
    assert!(configured_mappings(&broken).is_empty());
}

#[test]
fn mapping_paths_start_with_the_plugin_folder() {
    let paths = mapping_paths();
    assert_eq!(paths.len(), 4);
    assert_eq!(paths[0], "sd:/ultimate/mods/Bosses/amiibo.toml");
    assert_eq!(paths[3], "sd:/comp_boss/amiibo.toml");
    assert_eq!(BOSS_IDENTITY_COUNT, 11);
}

#[test]
fn a_later_table_for_a_key_replaces_the_earlier_one() {
    let mut file = AmiiboFile::new();
    file.insert("marx".to_string(), entry("0x2106000003601202", None, false));
    file.insert("marx".to_string(), entry("0x3740000103741402", Some(1), false));
    assert_eq!(file.bosses.len(), 1);
    assert_eq!(
        file.get("marx").and_then(|e| e.amiibo_id.clone()),
        Some("0x3740000103741402".to_string())
    );
    assert!(file.get("galleom").is_none());
}

#[test]
fn tables_are_kept_in_key_order() {
    let mut file = AmiiboFile::new();
    file.insert("rathalos".to_string(), entry("0x2106000003601202", None, false));
    file.insert("galleom".to_string(), entry("0x3740000103741402", None, false));
    file.insert("marx".to_string(), entry("0x5042000100010001", None, false));
    let keys: Vec<&str> = file.bosses.iter().map(|(k, _)| k.as_str()).collect();
    assert_eq!(keys, vec!["galleom", "marx", "rathalos"]);
}

#[test]
fn unknown_keys_are_reported_in_key_order() {
    let settings = loaded(vec![
        ("zeta_boss", AmiiboEntry { amiibo_id: None, default_color: None, remap_existing: false }),
        ("alpha_boss", AmiiboEntry { amiibo_id: None, default_color: None, remap_existing: false }),
    ]);
    let errors = validation_errors(&settings);
    assert_eq!(
        errors,
        vec![
            "unknown boss mapping key `alpha_boss`".to_string(),
            "unknown boss mapping key `zeta_boss`".to_string(),
        ]
    );
}

#[test]
fn a_missing_path_gives_an_empty_file_whatever_was_parsed() {
    let mut file = AmiiboFile::new();
    file.insert("marx".to_string(), entry("0x2106000003601202", None, false));
    let missing = loaded_mapping_file(None, Ok(file));
    assert!(missing.file.bosses.is_empty());
    assert!(configured_mappings(&missing).is_empty());
    assert!(validation_errors(&missing).is_empty());
    assert_eq!(parse_error(&missing), None);
}

#[test]
fn a_written_tag_id_reads_back() {
    for t in [0x2106_0000_0360_1202u64, 0x3740_0001_0374_1402, 0x0000_0000_0000_0002] {
        let low40 = t & 0xFF_FFFF_FFFF;
        let numbering = (t >> 48) as u16;
        assert_eq!(parse_tag_id(&format!("0x{:016x}", t)), Ok((t, low40, numbering)));
        assert_eq!(parse_tag_id(&format!("{:016x}", t)), Ok((t, low40, numbering)));
        assert_eq!(parse_tag_id(&format!("0X{:016X}", t)), Ok((t, low40, numbering)));
        assert_eq!(parse_tag_id(&format!(" {:016X}\n", t)), Ok((t, low40, numbering)));
        assert_eq!(parse_tag_id(&format!("\t 0x{:016x}  ", t)), Ok((t, low40, numbering)));
        assert_eq!(parse_tag_id(&format!("\u{3000}0x{:016x}\u{a0}", t)), Ok((t, low40, numbering)));
    }
}

#[test]
fn the_first_existing_mapping_path_is_read() {
    assert_eq!(first_existing_mapping_path(&vec![false, false, false, false]), None);
    assert_eq!(first_existing_mapping_path(&vec![]), None);
    assert_eq!(
        first_existing_mapping_path(&vec![false, true, false, true]),
        Some("sd:/ultimate/comp_boss/amiibo.toml".to_string())
    );
    assert_eq!(
        first_existing_mapping_path(&vec![true, true, true, true]),
        Some(DEFAULT_MAPPING_PATH.to_string())
    );
    assert_eq!(
        first_existing_mapping_path(&vec![false, false, false, true]),
        Some("sd:/comp_boss/amiibo.toml".to_string())
    );
}
