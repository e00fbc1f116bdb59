use playable_bosses::boss_runtime::{any_exists_public, sanitize_entry_id, BossCommonFlags, MAX_BOSS_ENTRIES};
use playable_bosses::config::{config_search_order, is_boss_mod_dir, DEFAULT_CONFIG_PATH};
use playable_bosses::debug::enabled;

#[test]
fn entry_ids_past_the_slots_fall_back_to_the_first() {
    assert_eq!(MAX_BOSS_ENTRIES, 8);
    assert_eq!(sanitize_entry_id(0), 0);
    assert_eq!(sanitize_entry_id(7), 7);
    assert_eq!(sanitize_entry_id(8), 0);
    assert_eq!(sanitize_entry_id(usize::MAX), 0);
}

#[test]
fn a_slot_starts_controllable_and_hidden() {
    let mut slots = [BossCommonFlags::new(); 8];
    assert!(slots[0].controllable);
    assert!(!slots[0].dead);
    assert!(!any_exists_public(&slots));
    slots[5].exists_public = true;
    assert!(any_exists_public(&slots));
}

#[test]
fn boss_logs_are_off_unless_configured() {
    assert!(!enabled(None));
    assert!(!enabled(Some(false)));
    assert!(enabled(Some(true)));
}

#[test]
fn boss_like_folders_are_searched_first() {
    assert!(is_boss_mod_dir("comp_boss"));
    assert!(is_boss_mod_dir("bosses"));
    assert!(is_boss_mod_dir("playable-boss-pack"));
    assert!(!is_boss_mod_dir("bos"));
    assert!(!is_boss_mod_dir("skins"));
    let found = vec![
        ("skins".to_string(), "sd:/ultimate/mods/skins/config.toml".to_string()),
        ("bosses".to_string(), "sd:/ultimate/mods/Bosses2/config.toml".to_string()),
        ("music".to_string(), "sd:/ultimate/mods/music/config.toml".to_string()),
    ];
    let order = config_search_order(&found);
    assert_eq!(
        order,
        vec![
            "sd:/ultimate/mods/Bosses2/config.toml".to_string(),
            "sd:/ultimate/mods/skins/config.toml".to_string(),
            "sd:/ultimate/mods/music/config.toml".to_string(),
            "sd:/ultimate/comp_boss/config.toml".to_string(),
            "sd:/config/comp_boss/config.toml".to_string(),
            "sd:/comp_boss/config.toml".to_string(),
        ]
    );
    assert_eq!(config_search_order(&vec![]).len(), 3);
    assert_eq!(DEFAULT_CONFIG_PATH, "sd:/ultimate/mods/Bosses/config.toml");
}
