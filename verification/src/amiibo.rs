//! The Boss Amiibo catalogue and the mapping file that binds each boss to a
//! donor amiibo ID.
use crate::tag_id::{
    duplicate_nfp_match_key, parse_tag_id, private_virtual_layout_error,
    private_virtual_layout_message, private_virtual_nfp_match_key, spec_duplicate_nfp_match_key,
    spec_has_private_virtual_layout_error, spec_parse_tag_id, spec_private_virtual_nfp_match_key,
    tag_id_error_message, trim, trim_str, NfpMatchKey,
};
use crate::text::{
    hex_digits, hex_padded, lemma_seq_lt_transitive, lemma_seq_lt_trichotomy, seq_lt, str_eq,
    str_lt,
};
use vstd::prelude::*;

verus! {

/// One boss that an amiibo can stand for.
#[derive(Debug, Clone, Copy)]
pub struct BossAmiiboIdentity {
    pub key: &'static str,
    pub name: &'static str,
    pub ui_chara_id: &'static str,
    pub selector_id: u16,
    pub default_color: u8,
    pub backing_fighter: &'static str,
}

/// A boss whose mapping entry holds a usable tag ID.
#[derive(Debug, Clone, Copy)]
pub struct ConfiguredBossAmiibo {
    pub identity: BossAmiiboIdentity,
    pub tag_id: u64,
    pub ui_amiibo_id: u64,
    pub nfp_character_id_upper: u16,
    pub nfp_match_key: Option<NfpMatchKey>,
    pub default_color: u8,
    pub remap_existing: bool,
}

/// One `[bosses.<key>]` table of the mapping file.
#[derive(Debug)]
pub struct AmiiboEntry {
    pub amiibo_id: Option<String>,
    pub default_color: Option<u8>,
    pub remap_existing: bool,
}

/// The mapping file: its boss tables by key, in key order, each key once.
#[derive(Debug)]
pub struct AmiiboFile {
    pub bosses: Vec<(String, AmiiboEntry)>,
}

/// The mapping file as found: where it was read from, its tables, and why it
/// could not be read or parsed.
#[derive(Debug)]
pub struct LoadedAmiiboFile {
    pub path: Option<String>,
    pub file: AmiiboFile,
    pub parse_error: Option<String>,
}

pub const BOSS_IDENTITY_COUNT: usize = 11;

pub open spec fn spec_boss_identities() -> Seq<BossAmiiboIdentity> {
    seq![
        BossAmiiboIdentity {
            key: "master_hand",
            name: "Master Hand",
            ui_chara_id: "ui_chara_masterhand",
            selector_id: 0x160,
            default_color: 0,
            backing_fighter: "fighter_kind_mario + ITEM_KIND_MASTERHAND",
        },
        BossAmiiboIdentity {
            key: "crazy_hand",
            name: "Crazy Hand",
            ui_chara_id: "ui_chara_crazyhand",
            selector_id: 0x169,
            default_color: 0,
            backing_fighter: "fighter_kind_mario + ITEM_KIND_CRAZYHAND",
        },
        BossAmiiboIdentity {
            key: "wol_master_hand",
            name: "WOL Master Hand",
            ui_chara_id: "ui_chara_mewtwo_masterhand",
            selector_id: 0x1A6,
            default_color: 0,
            backing_fighter: "fighter_kind_mario + ITEM_KIND_PLAYABLE_MASTERHAND",
        },
        BossAmiiboIdentity {
            key: "galeem",
            name: "Galeem",
            ui_chara_id: "ui_chara_kiila",
            selector_id: 0x18F,
            default_color: 0,
            backing_fighter: "fighter_kind_mario + ITEM_KIND_KIILA",
        },
        BossAmiiboIdentity {
            key: "dharkon",
            name: "Dharkon",
            ui_chara_id: "ui_chara_darz",
            selector_id: 0x19A,
            default_color: 0,
            backing_fighter: "fighter_kind_mario + ITEM_KIND_DARZ",
        },
        BossAmiiboIdentity {
            key: "dracula",
            name: "Dracula",
            ui_chara_id: "ui_chara_dracula",
            selector_id: 0x175,
            default_color: 0,
            backing_fighter: "fighter_kind_mario + ITEM_KIND_DRACULA",
        },
        BossAmiiboIdentity {
            key: "ganon_boss",
            name: "Ganon / The Demon King",
            ui_chara_id: "ui_chara_ganonboss",
            selector_id: 0x172,
            default_color: 0,
            backing_fighter: "fighter_kind_mario + ITEM_KIND_GANONBOSS",
        },
        BossAmiiboIdentity {
            key: "galleom",
            name: "Galleom",
            ui_chara_id: "ui_chara_galleom",
            selector_id: 0x16F,
            default_color: 0,
            backing_fighter: "fighter_kind_mario + ITEM_KIND_GALLEOM",
        },
        BossAmiiboIdentity {
            key: "rathalos",
            name: "Rathalos",
            ui_chara_id: "ui_chara_lioleus",
            selector_id: 0x188,
            default_color: 0,
            backing_fighter: "fighter_kind_mario + ITEM_KIND_LIOLEUSBOSS",
        },
        BossAmiiboIdentity {
            key: "marx",
            name: "Marx",
            ui_chara_id: "ui_chara_marx",
            selector_id: 0x180,
            default_color: 0,
            backing_fighter: "fighter_kind_mario + ITEM_KIND_MARX",
        },
        BossAmiiboIdentity {
            key: "giga_bowser",
            name: "Giga Bowser",
            ui_chara_id: "ui_chara_koopag",
            selector_id: 0x18E,
            default_color: 0,
            backing_fighter: "fighter_kind_koopag",
        },
    ]
}

/// Every boss that the Boss Amiibo catalogue knows, in catalogue order.
pub fn boss_identities() -> (r: [BossAmiiboIdentity; 11])
    ensures
        r@ == spec_boss_identities(),
{
    let r = [
        BossAmiiboIdentity {
            key: "master_hand",
            name: "Master Hand",
            ui_chara_id: "ui_chara_masterhand",
            selector_id: 0x160,
            default_color: 0,
            backing_fighter: "fighter_kind_mario + ITEM_KIND_MASTERHAND",
        },
        BossAmiiboIdentity {
            key: "crazy_hand",
            name: "Crazy Hand",
            ui_chara_id: "ui_chara_crazyhand",
            selector_id: 0x169,
            default_color: 0,
            backing_fighter: "fighter_kind_mario + ITEM_KIND_CRAZYHAND",
        },
        BossAmiiboIdentity {
            key: "wol_master_hand",
            name: "WOL Master Hand",
            ui_chara_id: "ui_chara_mewtwo_masterhand",
            selector_id: 0x1A6,
            default_color: 0,
            backing_fighter: "fighter_kind_mario + ITEM_KIND_PLAYABLE_MASTERHAND",
        },
        BossAmiiboIdentity {
            key: "galeem",
            name: "Galeem",
            ui_chara_id: "ui_chara_kiila",
            selector_id: 0x18F,
            default_color: 0,
            backing_fighter: "fighter_kind_mario + ITEM_KIND_KIILA",
        },
        BossAmiiboIdentity {
            key: "dharkon",
            name: "Dharkon",
            ui_chara_id: "ui_chara_darz",
            selector_id: 0x19A,
            default_color: 0,
            backing_fighter: "fighter_kind_mario + ITEM_KIND_DARZ",
        },
        BossAmiiboIdentity {
            key: "dracula",
            name: "Dracula",
            ui_chara_id: "ui_chara_dracula",
            selector_id: 0x175,
            default_color: 0,
            backing_fighter: "fighter_kind_mario + ITEM_KIND_DRACULA",
        },
        BossAmiiboIdentity {
            key: "ganon_boss",
            name: "Ganon / The Demon King",
            ui_chara_id: "ui_chara_ganonboss",
            selector_id: 0x172,
            default_color: 0,
            backing_fighter: "fighter_kind_mario + ITEM_KIND_GANONBOSS",
        },
        BossAmiiboIdentity {
            key: "galleom",
            name: "Galleom",
            ui_chara_id: "ui_chara_galleom",
            selector_id: 0x16F,
            default_color: 0,
            backing_fighter: "fighter_kind_mario + ITEM_KIND_GALLEOM",
        },
        BossAmiiboIdentity {
            key: "rathalos",
            name: "Rathalos",
            ui_chara_id: "ui_chara_lioleus",
            selector_id: 0x188,
            default_color: 0,
            backing_fighter: "fighter_kind_mario + ITEM_KIND_LIOLEUSBOSS",
        },
        BossAmiiboIdentity {
            key: "marx",
            name: "Marx",
            ui_chara_id: "ui_chara_marx",
            selector_id: 0x180,
            default_color: 0,
            backing_fighter: "fighter_kind_mario + ITEM_KIND_MARX",
        },
        BossAmiiboIdentity {
            key: "giga_bowser",
            name: "Giga Bowser",
            ui_chara_id: "ui_chara_koopag",
            selector_id: 0x18E,
            default_color: 0,
            backing_fighter: "fighter_kind_koopag",
        },
    ];
    assert(r@ =~= spec_boss_identities());
    r
}

/// The entry stored under `key`, looking from position `i` on.
pub open spec fn lookup_from(bosses: Seq<(String, AmiiboEntry)>, key: Seq<char>, i: int) -> Option<
    AmiiboEntry,
>
    decreases bosses.len() - i,
{
    if i < 0 || i >= bosses.len() {
        None
    } else if bosses[i].0@ == key {
        Some(bosses[i].1)
    } else {
        lookup_from(bosses, key, i + 1)
    }
}

/// The entry stored under `key`.
pub open spec fn spec_lookup(file: AmiiboFile, key: Seq<char>) -> Option<AmiiboEntry> {
    lookup_from(file.bosses@, key, 0)
}

impl AmiiboFile {
    /// The keys in strictly increasing order, each once, as a sorted map
    /// holds them.
    pub open spec fn wf(&self) -> bool {
        forall|i: int, j: int|
            0 <= i < j < self.bosses@.len() ==> seq_lt(
                #[trigger] self.bosses@[i].0@,
                #[trigger] self.bosses@[j].0@,
            )
    }

    /// A mapping file without boss tables.
    pub fn new() -> (f: AmiiboFile)
        ensures
            f.wf(),
            f.bosses@.len() == 0,
    {
        AmiiboFile { bosses: Vec::new() }
    }

    /// Stores `entry` under `key`: it replaces the entry that the key already
    /// has, else it is added at its place in key order.
    pub fn insert(&mut self, key: String, entry: AmiiboEntry)
        requires
            old(self).wf(),
        ensures
            final(self).wf(),
            forall|k: Seq<char>|
                #![trigger spec_lookup(*final(self), k)]
                spec_lookup(*final(self), k) == if k == key@ {
                    Some(entry)
                } else {
                    spec_lookup(*old(self), k)
                },
    {
        let ghost old_b = self.bosses@;
        let n = self.bosses.len();
        let mut i: usize = 0;
        while i < n
            invariant
                n == self.bosses@.len(),
                self.bosses@ == old_b,
                old_b == old(self).bosses@,
                old(self).wf(),
                i <= n,
                forall|j: int| 0 <= j < i ==> seq_lt(#[trigger] self.bosses@[j].0@, key@),
            decreases n - i,
        {
            if str_eq(self.bosses[i].0.as_str(), key.as_str()) {
                proof {
                    assert forall|j: int| 0 <= j < i implies old_b[j].0@ != key@ by {
                        lemma_seq_lt_trichotomy(old_b[j].0@, key@);
                    }
                }
                self.bosses.set(i, (key, entry));
                proof {
                    assert forall|k: Seq<char>| #![trigger spec_lookup(*self, k)]
                        spec_lookup(*self, k) == if k == key@ {
                            Some(entry)
                        } else {
                            lookup_from(old_b, k, 0)
                        } by {
                        lemma_lookup_replace(old_b, self.bosses@, i as int, k, 0);
                    }
                    assert forall|a: int, b: int| 0 <= a < b < self.bosses@.len() implies seq_lt(
                        #[trigger] self.bosses@[a].0@,
                        #[trigger] self.bosses@[b].0@,
                    ) by {
                        assert(self.bosses@[a].0@ == old_b[a].0@);
                        assert(self.bosses@[b].0@ == old_b[b].0@);
                    }
                }
                return;
            }
            if str_lt(key.as_str(), self.bosses[i].0.as_str()) {
                proof {
                    assert forall|j: int| 0 <= j < i implies old_b[j].0@ != key@ by {
                        lemma_seq_lt_trichotomy(old_b[j].0@, key@);
                    }
                }
                self.bosses.insert(i, (key, entry));
                proof {
                    let new_b = self.bosses@;
                    assert forall|k: Seq<char>| #![trigger spec_lookup(*self, k)]
                        spec_lookup(*self, k) == if k == key@ {
                            Some(entry)
                        } else {
                            lookup_from(old_b, k, 0)
                        } by {
                        lemma_lookup_insert(old_b, new_b, i as int, k, 0);
                    }
                    assert forall|a: int, b: int| 0 <= a < b < new_b.len() implies seq_lt(
                        #[trigger] new_b[a].0@,
                        #[trigger] new_b[b].0@,
                    ) by {
                        if b < i {
                            assert(new_b[a] == old_b[a] && new_b[b] == old_b[b]);
                        } else if b == i {
                            assert(new_b[a] == old_b[a]);
                        } else if a < i {
                            assert(new_b[a] == old_b[a] && new_b[b] == old_b[b - 1]);
                        } else if a == i {
                            assert(new_b[b] == old_b[b - 1]);
                            if b - 1 > i {
                                lemma_seq_lt_transitive(key@, old_b[i as int].0@, old_b[b - 1].0@);
                            }
                        } else {
                            assert(new_b[a] == old_b[a - 1] && new_b[b] == old_b[b - 1]);
                        }
                    }
                }
                return;
            }
            proof {
                lemma_seq_lt_trichotomy(self.bosses@[i as int].0@, key@);
            }
            i = i + 1;
        }
        proof {
            assert forall|j: int| 0 <= j < n implies old_b[j].0@ != key@ by {
                lemma_seq_lt_trichotomy(old_b[j].0@, key@);
            }
        }
        self.bosses.push((key, entry));
        proof {
            assert forall|k: Seq<char>| #![trigger spec_lookup(*self, k)]
                spec_lookup(*self, k) == if k == key@ {
                    Some(entry)
                } else {
                    lookup_from(old_b, k, 0)
                } by {
                lemma_lookup_push(old_b, self.bosses@, k, 0);
            }
            assert forall|a: int, b: int| 0 <= a < b < self.bosses@.len() implies seq_lt(
                #[trigger] self.bosses@[a].0@,
                #[trigger] self.bosses@[b].0@,
            ) by {
                assert(self.bosses@[a] == old_b[a]);
                if b < n {
                    assert(self.bosses@[b] == old_b[b]);
                }
            }
        }
    }

    /// The entry stored under `key`.
    pub fn get(&self, key: &str) -> (r: Option<&AmiiboEntry>)
        ensures
            match spec_lookup(*self, key@) {
                Some(e) => r is Some && *r->0 == e,
                None => r is None,
            },
    {
        let n = self.bosses.len();
        let mut i: usize = 0;
        while i < n
            invariant
                n == self.bosses@.len(),
                i <= n,
                lookup_from(self.bosses@, key@, 0) == lookup_from(self.bosses@, key@, i as int),
            decreases n - i,
        {
            if str_eq(self.bosses[i].0.as_str(), key) {
                return Some(&self.bosses[i].1);
            }
            i = i + 1;
        }
        None
    }
}

proof fn lemma_lookup_replace(
    old_b: Seq<(String, AmiiboEntry)>,
    new_b: Seq<(String, AmiiboEntry)>,
    i: int,
    k: Seq<char>,
    from: int,
)
    requires
        0 <= i < old_b.len(),
        new_b.len() == old_b.len(),
        0 <= from,
        forall|j: int| 0 <= j < new_b.len() && j != i ==> new_b[j] == old_b[j],
        old_b[i].0@ == new_b[i].0@,
        forall|j: int| 0 <= j < i ==> old_b[j].0@ != new_b[i].0@,
    ensures
        lookup_from(new_b, k, from) == if k == new_b[i].0@ && from <= i {
            Some(new_b[i].1)
        } else {
            lookup_from(old_b, k, from)
        },
    decreases old_b.len() - from,
{
    if from < old_b.len() {
        lemma_lookup_replace(old_b, new_b, i, k, from + 1);
        if from > i {
            assert(new_b[from] == old_b[from]);
        }
        if from < i {
            assert(new_b[from] == old_b[from]);
        }
    }
}

proof fn lemma_lookup_insert(
    old_b: Seq<(String, AmiiboEntry)>,
    new_b: Seq<(String, AmiiboEntry)>,
    i: int,
    k: Seq<char>,
    from: int,
)
    requires
        0 <= i <= old_b.len(),
        new_b.len() == old_b.len() + 1,
        0 <= from,
        forall|j: int| 0 <= j < i ==> new_b[j] == old_b[j],
        forall|j: int| i <= j < old_b.len() ==> new_b[j + 1] == old_b[j],
        forall|j: int| 0 <= j < i ==> old_b[j].0@ != new_b[i].0@,
    ensures
        from <= i ==> lookup_from(new_b, k, from) == if k == new_b[i].0@ {
            Some(new_b[i].1)
        } else {
            lookup_from(old_b, k, from)
        },
        from > i ==> lookup_from(new_b, k, from) == lookup_from(old_b, k, from - 1),
    decreases new_b.len() - from,
{
    if from < new_b.len() {
        lemma_lookup_insert(old_b, new_b, i, k, from + 1);
        if from < i {
            assert(new_b[from] == old_b[from]);
        } else if from > i {
            assert(new_b[from] == old_b[from - 1]);
        }
    }
}

proof fn lemma_lookup_push(
    old_b: Seq<(String, AmiiboEntry)>,
    new_b: Seq<(String, AmiiboEntry)>,
    k: Seq<char>,
    from: int,
)
    requires
        new_b.len() == old_b.len() + 1,
        0 <= from,
        forall|j: int| 0 <= j < old_b.len() ==> new_b[j] == old_b[j],
        forall|j: int| 0 <= j < old_b.len() ==> old_b[j].0@ != new_b[old_b.len() as int].0@,
    ensures
        lookup_from(new_b, k, from) == if k == new_b[old_b.len() as int].0@ && from
            <= old_b.len() {
            Some(new_b[old_b.len() as int].1)
        } else {
            lookup_from(old_b, k, from)
        },
    decreases new_b.len() - from,
{
    if from < new_b.len() {
        lemma_lookup_push(old_b, new_b, k, from + 1);
        if from < old_b.len() {
            assert(new_b[from] == old_b[from]);
        }
    }
}

/// The mapping that `file` gives `identity`: none without a non-blank tag ID,
/// none for a tag ID that breaks the layout rules.
pub open spec fn spec_mapping_for(identity: BossAmiiboIdentity, file: AmiiboFile) -> Option<
    ConfiguredBossAmiibo,
> {
    match spec_lookup(file, identity.key@) {
        None => None,
        Some(entry) => match entry.amiibo_id {
            None => None,
            Some(raw) => if trim(raw@).len() == 0 {
                None
            } else {
                match spec_parse_tag_id(raw@) {
                    Err(_) => None,
                    Ok((tag_id, ui_amiibo_id, upper)) => if spec_has_private_virtual_layout_error(
                        tag_id,
                    ) {
                        None
                    } else {
                        Some(
                            ConfiguredBossAmiibo {
                                identity,
                                tag_id,
                                ui_amiibo_id,
                                nfp_character_id_upper: upper,
                                nfp_match_key: spec_private_virtual_nfp_match_key(tag_id),
                                default_color: match entry.default_color {
                                    Some(c) => c,
                                    None => identity.default_color,
                                },
                                remap_existing: entry.remap_existing,
                            },
                        )
                    }
                }
            },
        },
    }
}

/// The mappings of the first `n` catalogue bosses, in catalogue order.
pub open spec fn spec_parsed_mappings_upto(file: AmiiboFile, n: int) -> Seq<ConfiguredBossAmiibo>
    decreases n,
{
    if n <= 0 || n > 11 {
        Seq::empty()
    } else {
        spec_parsed_mappings_upto(file, n - 1) + match spec_mapping_for(
            spec_boss_identities()[n - 1],
            file,
        ) {
            Some(m) => seq![m],
            None => Seq::empty(),
        }
    }
}

pub open spec fn spec_parsed_mappings(file: AmiiboFile) -> Seq<ConfiguredBossAmiibo> {
    spec_parsed_mappings_upto(file, 11)
}

fn mapping_for(identity: BossAmiiboIdentity, file: &AmiiboFile) -> (r: Option<ConfiguredBossAmiibo>)
    ensures
        r == spec_mapping_for(identity, *file),
{
    let entry = match file.get(identity.key) {
        Some(e) => e,
        None => return None,
    };
    let raw_id = match &entry.amiibo_id {
        Some(raw) => raw.as_str(),
        None => return None,
    };
    if trim_str(raw_id).is_empty() {
        return None;
    }
    let (tag_id, ui_amiibo_id, nfp_character_id_upper) = match parse_tag_id(raw_id) {
        Ok(t) => t,
        Err(_) => return None,
    };
    if private_virtual_layout_error(tag_id).is_some() {
        return None;
    }
    let default_color: u8 = match entry.default_color {
        Some(c) => c,
        None => identity.default_color,
    };
    Some(
        ConfiguredBossAmiibo {
            identity,
            tag_id,
            ui_amiibo_id,
            nfp_character_id_upper,
            nfp_match_key: private_virtual_nfp_match_key(tag_id),
            default_color,
            remap_existing: entry.remap_existing,
        },
    )
}

/// Every catalogue boss whose entry holds a usable tag ID, in catalogue
/// order, before duplicates are dropped.
pub fn parsed_configured_mappings(file: &AmiiboFile) -> (r: Vec<ConfiguredBossAmiibo>)
    ensures
        r@ == spec_parsed_mappings(*file),
{
    let identities = boss_identities();
    let mut mappings: Vec<ConfiguredBossAmiibo> = Vec::new();
    let mut i: usize = 0;
    while i < 11
        invariant
            i <= 11,
            identities@ == spec_boss_identities(),
            mappings@ == spec_parsed_mappings_upto(*file, i as int),
        decreases 11 - i,
    {
        let m = mapping_for(identities[i], file);
        match m {
            Some(mapping) => {
                mappings.push(mapping);
            },
            None => {},
        }
        proof {
            assert(mappings@ =~= spec_parsed_mappings_upto(*file, i + 1));
        }
        i = i + 1;
    }
    mappings
}

/// Two mappings that the database could not tell apart: the same tag ID, the
/// same `ui_amiibo_id`, or, when neither remaps an existing row, the same
/// native NFP match key.
pub open spec fn mappings_conflict(a: ConfiguredBossAmiibo, b: ConfiguredBossAmiibo) -> bool {
    a.tag_id == b.tag_id || a.ui_amiibo_id == b.ui_amiibo_id || (!a.remap_existing
        && !b.remap_existing && spec_duplicate_nfp_match_key(a.nfp_match_key, b.nfp_match_key)
        is Some)
}

/// Mapping `i` conflicts with another mapping of `ms`.
pub open spec fn has_conflict(ms: Seq<ConfiguredBossAmiibo>, i: int) -> bool {
    exists|j: int| 0 <= j < ms.len() && j != i && #[trigger] mappings_conflict(ms[i], ms[j])
}

/// The first `n` mappings of `ms` that conflict with no other mapping.
pub open spec fn unique_mappings_upto(ms: Seq<ConfiguredBossAmiibo>, n: int) -> Seq<
    ConfiguredBossAmiibo,
>
    decreases n,
{
    if n <= 0 {
        Seq::empty()
    } else {
        unique_mappings_upto(ms, n - 1) + if has_conflict(ms, n - 1) {
            Seq::empty()
        } else {
            seq![ms[n - 1]]
        }
    }
}

pub open spec fn spec_configured_mappings(file: AmiiboFile) -> Seq<ConfiguredBossAmiibo> {
    let ms = spec_parsed_mappings(file);
    unique_mappings_upto(ms, ms.len() as int)
}

fn conflicts(a: &ConfiguredBossAmiibo, b: &ConfiguredBossAmiibo) -> (r: bool)
    ensures
        r == mappings_conflict(*a, *b),
{
    a.tag_id == b.tag_id || a.ui_amiibo_id == b.ui_amiibo_id || (!a.remap_existing
        && !b.remap_existing && duplicate_nfp_match_key(a.nfp_match_key, b.nfp_match_key).is_some())
}

/// The mappings in force: every parsed mapping that conflicts with no other
/// one. A conflicting pair drops both bosses.
pub fn configured_mappings(settings: &LoadedAmiiboFile) -> (r: Vec<ConfiguredBossAmiibo>)
    ensures
        r@ == spec_configured_mappings(settings.file),
{
    let mappings = parsed_configured_mappings(&settings.file);
    let n = mappings.len();
    let mut kept: Vec<ConfiguredBossAmiibo> = Vec::new();
    let mut i: usize = 0;
    while i < n
        invariant
            n == mappings@.len(),
            mappings@ == spec_parsed_mappings(settings.file),
            i <= n,
            kept@ == unique_mappings_upto(mappings@, i as int),
        decreases n - i,
    {
        let mut duplicate = false;
        let mut j: usize = 0;
        while j < n
            invariant
                n == mappings@.len(),
                i < n,
                j <= n,
                duplicate == exists|k: int|
                    0 <= k < j && k != i && #[trigger] mappings_conflict(mappings@[i as int], mappings@[k]),
            decreases n - j,
        {
            if j != i && conflicts(&mappings[i], &mappings[j]) {
                duplicate = true;
            }
            j = j + 1;
        }
        if !duplicate {
            kept.push(mappings[i]);
        }
        proof {
            assert(kept@ =~= unique_mappings_upto(mappings@, i + 1));
        }
        i = i + 1;
    }
    kept
}

/// The mappings in force never share a tag ID, a `ui_amiibo_id`, or (between
/// two that do not remap an existing row) a native NFP match key.
pub proof fn lemma_configured_mappings_are_pairwise_distinct(file: AmiiboFile)
    ensures
        forall|p: int, q: int|
            0 <= p < spec_configured_mappings(file).len() && 0 <= q < spec_configured_mappings(
                file,
            ).len() && p != q ==> !#[trigger] mappings_conflict(
                spec_configured_mappings(file)[p],
                #[trigger] spec_configured_mappings(file)[q],
            ),
{
    let ms = spec_parsed_mappings(file);
    lemma_unique_upto(ms, ms.len() as int);
}

proof fn lemma_unique_upto(ms: Seq<ConfiguredBossAmiibo>, n: int)
    requires
        0 <= n <= ms.len(),
    ensures
        forall|p: int|
            0 <= p < unique_mappings_upto(ms, n).len() ==> exists|k: int|
                0 <= k < n && !has_conflict(ms, k) && #[trigger] unique_mappings_upto(ms, n)[p]
                    == ms[k],
        forall|p: int, q: int|
            0 <= p < unique_mappings_upto(ms, n).len() && 0 <= q < unique_mappings_upto(
                ms,
                n,
            ).len() && p != q ==> !#[trigger] mappings_conflict(
                unique_mappings_upto(ms, n)[p],
                #[trigger] unique_mappings_upto(ms, n)[q],
            ),
    decreases n,
{
    if n > 0 {
        lemma_unique_upto(ms, n - 1);
        let prev = unique_mappings_upto(ms, n - 1);
        let cur = unique_mappings_upto(ms, n);
        if has_conflict(ms, n - 1) {
            assert(cur =~= prev);
        } else {
            assert(cur =~= prev.push(ms[n - 1]));
            assert forall|p: int|
                0 <= p < cur.len() implies exists|k: int|
                    0 <= k < n && !has_conflict(ms, k) && #[trigger] cur[p] == ms[k] by {
                if p < prev.len() {
                    assert(cur[p] == prev[p]);
                } else {
                    assert(cur[p] == ms[n - 1]);
                }
            }
            assert forall|p: int, q: int|
                0 <= p < cur.len() && 0 <= q < cur.len() && p != q implies !#[trigger] mappings_conflict(
                cur[p],
                #[trigger] cur[q],
            ) by {
                if p < prev.len() && q < prev.len() {
                    assert(cur[p] == prev[p] && cur[q] == prev[q]);
                } else if p < prev.len() {
                    assert(cur[p] == prev[p]);
                    let k = choose|k: int| 0 <= k < n - 1 && !has_conflict(ms, k) && prev[p] == ms[k];
                    assert(cur[q] == ms[n - 1]);
                    assert(!mappings_conflict(ms[k], ms[n - 1]));
                } else {
                    assert(cur[q] == prev[q]);
                    let k = choose|k: int| 0 <= k < n - 1 && !has_conflict(ms, k) && prev[q] == ms[k];
                    assert(cur[p] == ms[n - 1]);
                    assert(!mappings_conflict(ms[n - 1], ms[k]));
                }
            }
        }
    }
}

/// The mappings in force name each catalogue boss at most once, so there are
/// at most eleven of them.
pub proof fn lemma_configured_mappings_have_distinct_bosses(file: AmiiboFile)
    ensures
        spec_configured_mappings(file).len() <= 11,
        forall|p: int, q: int|
            0 <= p < spec_configured_mappings(file).len() && 0 <= q < spec_configured_mappings(
                file,
            ).len() && p != q ==> (#[trigger] spec_configured_mappings(file)[p]).identity.key@
                != (#[trigger] spec_configured_mappings(file)[q]).identity.key@,
{
    let ms = spec_parsed_mappings(file);
    lemma_parsed_bosses_upto(file, 11);
    lemma_unique_upto(ms, ms.len() as int);
    lemma_unique_len(ms, ms.len() as int);
    let kept = spec_configured_mappings(file);
    assert forall|p: int, q: int|
        0 <= p < kept.len() && 0 <= q < kept.len() && p != q implies (#[trigger] kept[p]).identity.key@
        != (#[trigger] kept[q]).identity.key@ by {
        let kp = choose|k: int| 0 <= k < ms.len() && !has_conflict(ms, k) && kept[p] == ms[k];
        let kq = choose|k: int| 0 <= k < ms.len() && !has_conflict(ms, k) && kept[q] == ms[k];
        assert(!mappings_conflict(kept[p], kept[q]));
        assert(kp != kq);
    }
}

proof fn lemma_unique_len(ms: Seq<ConfiguredBossAmiibo>, n: int)
    requires
        0 <= n,
    ensures
        unique_mappings_upto(ms, n).len() <= n,
    decreases n,
{
    if n > 0 {
        lemma_unique_len(ms, n - 1);
    }
}

proof fn lemma_parsed_bosses_upto(file: AmiiboFile, n: int)
    requires
        0 <= n <= 11,
    ensures
        spec_parsed_mappings_upto(file, n).len() <= n,
        forall|p: int|
            0 <= p < spec_parsed_mappings_upto(file, n).len() ==> exists|j: int|
                0 <= j < n && (#[trigger] spec_parsed_mappings_upto(file, n)[p]).identity
                    == spec_boss_identities()[j],
        forall|p: int, q: int|
            0 <= p < spec_parsed_mappings_upto(file, n).len() && 0 <= q
                < spec_parsed_mappings_upto(file, n).len() && p != q ==> (
            #[trigger] spec_parsed_mappings_upto(file, n)[p]).identity.key@ != (
            #[trigger] spec_parsed_mappings_upto(file, n)[q]).identity.key@,
    decreases n,
{
    if n > 0 {
        lemma_parsed_bosses_upto(file, n - 1);
        lemma_catalogue_keys_are_distinct();
        let prev = spec_parsed_mappings_upto(file, n - 1);
        let cur = spec_parsed_mappings_upto(file, n);
        let id = spec_boss_identities()[n - 1];
        match spec_mapping_for(id, file) {
            None => {
                assert(cur =~= prev);
            },
            Some(m) => {
                assert(cur =~= prev.push(m));
                assert(m.identity == id);
                assert forall|p: int| 0 <= p < cur.len() implies exists|j: int|
                    0 <= j < n && (#[trigger] cur[p]).identity == spec_boss_identities()[j] by {
                    if p < prev.len() {
                        assert(cur[p] == prev[p]);
                    } else {
                        assert(cur[p].identity == spec_boss_identities()[n - 1]);
                    }
                }
                assert forall|p: int, q: int|
                    0 <= p < cur.len() && 0 <= q < cur.len() && p != q implies (
                    #[trigger] cur[p]).identity.key@ != (#[trigger] cur[q]).identity.key@ by {
                    if p < prev.len() && q < prev.len() {
                        assert(cur[p] == prev[p] && cur[q] == prev[q]);
                    } else if p < prev.len() {
                        assert(cur[p] == prev[p]);
                        let j = choose|j: int| 0 <= j < n - 1 && prev[p].identity == spec_boss_identities()[j];
                        assert(spec_boss_identities()[j].key@ != spec_boss_identities()[n - 1].key@);
                    } else {
                        assert(cur[q] == prev[q]);
                        let j = choose|j: int| 0 <= j < n - 1 && prev[q].identity == spec_boss_identities()[j];
                        assert(spec_boss_identities()[j].key@ != spec_boss_identities()[n - 1].key@);
                    }
                }
            },
        }
    }
}

/// The mapping file is refused on nothing exactly when every key names a
/// catalogue boss, no catalogue boss has an unusable non-blank tag ID, and no
/// two parsed mappings conflict; then the mappings in force are all the
/// parsed ones.
pub proof fn lemma_validation_errors_empty_iff(file: AmiiboFile)
    ensures
        spec_validation_errors(file).len() == 0 <==> ((forall|i: int|
            0 <= i < file.bosses@.len() ==> is_catalogue_key(#[trigger] file.bosses@[i].0@)) && (
        forall|j: int| 0 <= j < 11 ==> spec_identity_error(#[trigger] spec_boss_identities()[j], file)
            is None) && (forall|p: int, q: int|
            0 <= p < q < spec_parsed_mappings(file).len() ==> !mappings_conflict(
                #[trigger] spec_parsed_mappings(file)[p],
                #[trigger] spec_parsed_mappings(file)[q],
            ))),
        spec_validation_errors(file).len() == 0 ==> spec_configured_mappings(file)
            == spec_parsed_mappings(file),
{
    let bosses = file.bosses@;
    let ms = spec_parsed_mappings(file);
    lemma_unknown_empty_iff(bosses, bosses.len() as int);
    lemma_identity_errors_empty_iff(file, 11);
    lemma_pairwise_empty_iff(ms, ms.len() as int);
    if spec_validation_errors(file).len() == 0 {
        assert(pairwise_messages(ms, ms.len() as int).len() == 0);
        assert forall|k: int| 0 <= k < ms.len() implies !has_conflict(ms, k) by {
            if has_conflict(ms, k) {
                let j = choose|j: int| 0 <= j < ms.len() && j != k && #[trigger] mappings_conflict(ms[k], ms[j]);
                if k < j {
                    assert(!mappings_conflict(ms[k], ms[j]));
                } else {
                    assert(!mappings_conflict(ms[j], ms[k]));
                }
            }
        }
        lemma_unique_all(ms, ms.len() as int);
        assert(ms.subrange(0, ms.len() as int) =~= ms);
    }
}

proof fn lemma_unique_all(ms: Seq<ConfiguredBossAmiibo>, n: int)
    requires
        0 <= n <= ms.len(),
        forall|k: int| 0 <= k < ms.len() ==> !has_conflict(ms, k),
    ensures
        unique_mappings_upto(ms, n) == ms.subrange(0, n),
    decreases n,
{
    if n > 0 {
        lemma_unique_all(ms, n - 1);
        assert(!has_conflict(ms, n - 1));
        assert(ms.subrange(0, n) =~= ms.subrange(0, n - 1).push(ms[n - 1]));
    }
}

proof fn lemma_unknown_empty_iff(bosses: Seq<(String, AmiiboEntry)>, n: int)
    requires
        0 <= n <= bosses.len(),
    ensures
        spec_unknown_key_errors(bosses, n).len() == 0 <==> forall|i: int|
            0 <= i < n ==> is_catalogue_key(#[trigger] bosses[i].0@),
    decreases n,
{
    if n > 0 {
        lemma_unknown_empty_iff(bosses, n - 1);
        if !is_catalogue_key(bosses[n - 1].0@) {
            assert(!(forall|i: int| 0 <= i < n ==> is_catalogue_key(#[trigger] bosses[i].0@)));
        }
    }
}

proof fn lemma_identity_errors_empty_iff(file: AmiiboFile, n: int)
    requires
        0 <= n <= 11,
    ensures
        spec_identity_errors_upto(file, n).len() == 0 <==> forall|j: int|
            0 <= j < n ==> spec_identity_error(#[trigger] spec_boss_identities()[j], file) is None,
    decreases n,
{
    if n > 0 {
        lemma_identity_errors_empty_iff(file, n - 1);
        if spec_identity_error(spec_boss_identities()[n - 1], file) is Some {
            assert(!(forall|j: int|
                0 <= j < n ==> spec_identity_error(#[trigger] spec_boss_identities()[j], file)
                    is None));
        }
    }
}

proof fn lemma_row_empty_iff(ms: Seq<ConfiguredBossAmiibo>, i: int, end: int)
    requires
        0 <= i,
        i + 1 <= end <= ms.len(),
    ensures
        row_messages(ms, i, end).len() == 0 <==> forall|j: int|
            i < j < end ==> !mappings_conflict(ms[i], #[trigger] ms[j]),
    decreases end - i,
{
    if end > i + 1 {
        lemma_row_empty_iff(ms, i, end - 1);
        let a = ms[i];
        let b = ms[end - 1];
        assert(pair_messages(a, b).len() == 0 <==> !mappings_conflict(a, b));
        if mappings_conflict(a, b) {
            assert(!(forall|j: int| i < j < end ==> !mappings_conflict(ms[i], #[trigger] ms[j])));
        }
    }
}

proof fn lemma_pairwise_empty_iff(ms: Seq<ConfiguredBossAmiibo>, n: int)
    requires
        0 <= n <= ms.len(),
    ensures
        pairwise_messages(ms, n).len() == 0 <==> forall|p: int, q: int|
            0 <= p < n && p < q < ms.len() ==> !mappings_conflict(#[trigger] ms[p], #[trigger] ms[q]),
    decreases n,
{
    if n > 0 {
        lemma_pairwise_empty_iff(ms, n - 1);
        lemma_row_empty_iff(ms, n - 1, ms.len() as int);
        if pairwise_messages(ms, n).len() == 0 {
            assert forall|p: int, q: int|
                0 <= p < n && p < q < ms.len() implies !mappings_conflict(#[trigger] ms[p], #[trigger] ms[q]) by {
                if p == n - 1 {
                    assert(!mappings_conflict(ms[n - 1], ms[q]));
                }
            }
        } else {
            if row_messages(ms, n - 1, ms.len() as int).len() != 0 {
                let q = choose|q: int| n - 1 < q < ms.len() && mappings_conflict(ms[n - 1], #[trigger] ms[q]);
                assert(mappings_conflict(ms[n - 1], ms[q]));
            }
        }
    }
}

/// Where the mapping file was read from.
pub fn source_path(settings: &LoadedAmiiboFile) -> (r: Option<&str>)
    ensures
        match settings.path {
            Some(p) => r is Some && r->0@ == p@,
            None => r is None,
        },
{
    match &settings.path {
        Some(p) => Some(p.as_str()),
        None => None,
    }
}

/// Why the mapping file could not be read or parsed.
pub fn parse_error(settings: &LoadedAmiiboFile) -> (r: Option<&str>)
    ensures
        match settings.parse_error {
            Some(e) => r is Some && r->0@ == e@,
            None => r is None,
        },
{
    match &settings.parse_error {
        Some(e) => Some(e.as_str()),
        None => None,
    }
}

/// The text of each string, in order.
pub open spec fn texts(v: Seq<String>) -> Seq<Seq<char>> {
    v.map_values(|s: String| s@)
}

proof fn lemma_texts_push(v: Seq<String>, s: String)
    ensures
        texts(v.push(s)) == texts(v).push(s@),
{
    assert(texts(v.push(s)) =~= texts(v).push(s@));
}

pub open spec fn is_catalogue_key(key: Seq<char>) -> bool {
    exists|i: int| 0 <= i < 11 && #[trigger] spec_boss_identities()[i].key@ == key
}

pub open spec fn unknown_key_message(key: Seq<char>) -> Seq<char> {
    "unknown boss mapping key `"@ + key + "`"@
}

pub open spec fn identity_message(identity: BossAmiiboIdentity, detail: Seq<char>) -> Seq<char> {
    identity.name@ + " ("@ + identity.key@ + "): "@ + detail
}

/// The refusals of the first `n` keys of the file that name no boss.
pub open spec fn spec_unknown_key_errors(bosses: Seq<(String, AmiiboEntry)>, n: int) -> Seq<
    Seq<char>,
>
    decreases n,
{
    if n <= 0 || n > bosses.len() {
        Seq::empty()
    } else {
        spec_unknown_key_errors(bosses, n - 1) + if is_catalogue_key(bosses[n - 1].0@) {
            Seq::empty()
        } else {
            seq![unknown_key_message(bosses[n - 1].0@)]
        }
    }
}

/// The refusal of a boss's non-blank tag ID.
pub open spec fn spec_identity_error(identity: BossAmiiboIdentity, file: AmiiboFile) -> Option<
    Seq<char>,
> {
    match spec_lookup(file, identity.key@) {
        None => None,
        Some(entry) => match entry.amiibo_id {
            None => None,
            Some(raw) => if trim(raw@).len() == 0 {
                None
            } else {
                match spec_parse_tag_id(raw@) {
                    Err(e) => Some(identity_message(identity, tag_id_error_message(e))),
                    Ok((tag_id, _, _)) => if spec_has_private_virtual_layout_error(tag_id) {
                        Some(identity_message(identity, private_virtual_layout_message()))
                    } else {
                        None
                    },
                }
            },
        },
    }
}

pub open spec fn spec_identity_errors_upto(file: AmiiboFile, n: int) -> Seq<Seq<char>>
    decreases n,
{
    if n <= 0 || n > 11 {
        Seq::empty()
    } else {
        spec_identity_errors_upto(file, n - 1) + match spec_identity_error(
            spec_boss_identities()[n - 1],
            file,
        ) {
            Some(m) => seq![m],
            None => Seq::empty(),
        }
    }
}

pub open spec fn reuse_ui_message(a: ConfiguredBossAmiibo, b: ConfiguredBossAmiibo) -> Seq<char> {
    a.identity.name@ + " and "@ + b.identity.name@ + " reuse ui_amiibo_id 0x"@ + hex_digits(
        a.ui_amiibo_id as nat,
        10,
    ) + "; each boss needs a unique donor ID"@
}

pub open spec fn reuse_tag_message(a: ConfiguredBossAmiibo, b: ConfiguredBossAmiibo) -> Seq<char> {
    a.identity.name@ + " and "@ + b.identity.name@ + " reuse full amiibo ID 0x"@ + hex_digits(
        a.tag_id as nat,
        16,
    ) + "; each boss needs a unique donor ID"@
}

pub open spec fn reuse_nfp_message(
    a: ConfiguredBossAmiibo,
    b: ConfiguredBossAmiibo,
    key: NfpMatchKey,
) -> Seq<char> {
    a.identity.name@ + " and "@ + b.identity.name@ + " reuse native NFP key upper=0x"@
        + hex_digits(key.character_id_upper as nat, 4) + " lower=0x"@ + hex_digits(
        key.character_id_lower as nat,
        2,
    ) + " numbering=0x"@ + hex_digits(key.numbering_id as nat, 4)
        + "; private virtual IDs must use unique model numbers"@
}

/// What two mappings reuse, reported in the order ui_amiibo_id, tag ID, NFP key.
pub open spec fn pair_messages(a: ConfiguredBossAmiibo, b: ConfiguredBossAmiibo) -> Seq<Seq<char>> {
    (if a.ui_amiibo_id == b.ui_amiibo_id {
        seq![reuse_ui_message(a, b)]
    } else {
        Seq::empty()
    }) + (if a.tag_id == b.tag_id {
        seq![reuse_tag_message(a, b)]
    } else {
        Seq::empty()
    }) + (if !a.remap_existing && !b.remap_existing {
        match spec_duplicate_nfp_match_key(a.nfp_match_key, b.nfp_match_key) {
            Some(key) => seq![reuse_nfp_message(a, b, key)],
            None => Seq::empty(),
        }
    } else {
        Seq::empty()
    })
}

/// What mapping `i` reuses with the mappings after it, up to position `end`.
pub open spec fn row_messages(ms: Seq<ConfiguredBossAmiibo>, i: int, end: int) -> Seq<Seq<char>>
    decreases end - i,
{
    if i < 0 || end <= i + 1 || end > ms.len() {
        Seq::empty()
    } else {
        row_messages(ms, i, end - 1) + pair_messages(ms[i], ms[end - 1])
    }
}

pub open spec fn pairwise_messages(ms: Seq<ConfiguredBossAmiibo>, n: int) -> Seq<Seq<char>>
    decreases n,
{
    if n <= 0 || n > ms.len() {
        Seq::empty()
    } else {
        pairwise_messages(ms, n - 1) + row_messages(ms, n - 1, ms.len() as int)
    }
}

/// Every problem of the mapping file: keys that name no boss (in file
/// order), refused tag IDs (in catalogue order), then every pair of parsed
/// mappings that reuses an ID or an NFP key.
pub open spec fn spec_validation_errors(file: AmiiboFile) -> Seq<Seq<char>> {
    let ms = spec_parsed_mappings(file);
    spec_unknown_key_errors(file.bosses@, file.bosses@.len() as int) + spec_identity_errors_upto(
        file,
        11,
    ) + pairwise_messages(ms, ms.len() as int)
}

fn is_catalogue_key_exec(key: &str) -> (r: bool)
    ensures
        r == is_catalogue_key(key@),
{
    let identities = boss_identities();
    let mut i: usize = 0;
    while i < 11
        invariant
            i <= 11,
            identities@ == spec_boss_identities(),
            forall|j: int| 0 <= j < i ==> spec_boss_identities()[j].key@ != key@,
        decreases 11 - i,
    {
        if str_eq(identities[i].key, key) {
            return true;
        }
        i = i + 1;
    }
    false
}

fn identity_message_exec(identity: &BossAmiiboIdentity, detail: &str) -> (m: String)
    ensures
        m@ == identity_message(*identity, detail@),
{
    let mut m = String::from_str(identity.name);
    m.append(" (");
    m.append(identity.key);
    m.append("): ");
    m.append(detail);
    m
}

fn identity_error(identity: &BossAmiiboIdentity, file: &AmiiboFile) -> (r: Option<String>)
    ensures
        match spec_identity_error(*identity, *file) {
            Some(m) => r is Some && r->0@ == m,
            None => r is None,
        },
{
    let entry = match file.get(identity.key) {
        Some(e) => e,
        None => return None,
    };
    let raw_id = match &entry.amiibo_id {
        Some(raw) => raw.as_str(),
        None => return None,
    };
    if trim_str(raw_id).is_empty() {
        return None;
    }
    match parse_tag_id(raw_id) {
        Err(error) => Some(identity_message_exec(identity, error.as_str())),
        Ok((tag_id, _, _)) => match private_virtual_layout_error(tag_id) {
            Some(error) => Some(identity_message_exec(identity, error)),
            None => None,
        },
    }
}

fn reuse_message_exec(
    a: &ConfiguredBossAmiibo,
    b: &ConfiguredBossAmiibo,
    what: &str,
    hex: &str,
    tail: &str,
) -> (m: String)
    ensures
        m@ == a.identity.name@ + " and "@ + b.identity.name@ + what@ + hex@ + tail@,
{
    let mut m = String::from_str(a.identity.name);
    m.append(" and ");
    m.append(b.identity.name);
    m.append(what);
    m.append(hex);
    m.append(tail);
    m
}

fn pair_messages_exec(a: &ConfiguredBossAmiibo, b: &ConfiguredBossAmiibo, errors: &mut Vec<String>)
    ensures
        texts(final(errors)@) == texts(old(errors)@) + pair_messages(*a, *b),
{
    let ghost start = texts(errors@);
    if a.ui_amiibo_id == b.ui_amiibo_id {
        let hex = hex_padded(a.ui_amiibo_id, 10);
        let m = reuse_message_exec(
            a,
            b,
            " reuse ui_amiibo_id 0x",
            hex.as_str(),
            "; each boss needs a unique donor ID",
        );
        proof {
            lemma_texts_push(errors@, m);
        }
        errors.push(m);
    }
    let ghost after_ui = texts(errors@);
    if a.tag_id == b.tag_id {
        let hex = hex_padded(a.tag_id, 16);
        let m = reuse_message_exec(
            a,
            b,
            " reuse full amiibo ID 0x",
            hex.as_str(),
            "; each boss needs a unique donor ID",
        );
        proof {
            lemma_texts_push(errors@, m);
        }
        errors.push(m);
    }
    let ghost after_tag = texts(errors@);
    if !a.remap_existing && !b.remap_existing {
        match duplicate_nfp_match_key(a.nfp_match_key, b.nfp_match_key) {
            Some(key) => {
                let mut m = String::from_str(a.identity.name);
                m.append(" and ");
                m.append(b.identity.name);
                m.append(" reuse native NFP key upper=0x");
                let h1 = hex_padded(key.character_id_upper as u64, 4);
                m.append(h1.as_str());
                m.append(" lower=0x");
                let h2 = hex_padded(key.character_id_lower as u64, 2);
                m.append(h2.as_str());
                m.append(" numbering=0x");
                let h3 = hex_padded(key.numbering_id as u64, 4);
                m.append(h3.as_str());
                m.append("; private virtual IDs must use unique model numbers");
                proof {
                    lemma_texts_push(errors@, m);
                }
                errors.push(m);
            },
            None => {},
        }
    }
    assert(texts(errors@) =~= start + pair_messages(*a, *b));
}

/// Every problem of the mapping file, as the startup log reports it.
pub fn validation_errors(settings: &LoadedAmiiboFile) -> (r: Vec<String>)
    ensures
        texts(r@) == spec_validation_errors(settings.file),
{
    let file = &settings.file;
    let mut errors: Vec<String> = Vec::new();
    let n = file.bosses.len();
    let mut i: usize = 0;
    while i < n
        invariant
            n == file.bosses@.len(),
            i <= n,
            texts(errors@) == spec_unknown_key_errors(file.bosses@, i as int),
        decreases n - i,
    {
        let key = file.bosses[i].0.as_str();
        if !is_catalogue_key_exec(key) {
            let mut m = String::from_str("unknown boss mapping key `");
            m.append(key);
            m.append("`");
            proof {
                lemma_texts_push(errors@, m);
            }
            errors.push(m);
        }
        proof {
            assert(texts(errors@) =~= spec_unknown_key_errors(file.bosses@, i + 1));
        }
        i = i + 1;
    }
    let ghost unknown = texts(errors@);
    let identities = boss_identities();
    let mut k: usize = 0;
    while k < 11
        invariant
            k <= 11,
            identities@ == spec_boss_identities(),
            texts(errors@) == unknown + spec_identity_errors_upto(*file, k as int),
        decreases 11 - k,
    {
        match identity_error(&identities[k], file) {
            Some(m) => {
                proof {
                    lemma_texts_push(errors@, m);
                }
                errors.push(m);
            },
            None => {},
        }
        proof {
            assert(texts(errors@) =~= unknown + spec_identity_errors_upto(*file, k + 1));
        }
        k = k + 1;
    }
    let ghost before_pairs = texts(errors@);
    let mappings = parsed_configured_mappings(file);
    let m_len = mappings.len();
    let mut a: usize = 0;
    while a < m_len
        invariant
            m_len == mappings@.len(),
            a <= m_len,
            texts(errors@) == before_pairs + pairwise_messages(mappings@, a as int),
        decreases m_len - a,
    {
        let ghost row_start = texts(errors@);
        let mut b: usize = a + 1;
        while b < m_len
            invariant
                m_len == mappings@.len(),
                a < m_len,
                a + 1 <= b <= m_len,
                texts(errors@) == row_start + row_messages(mappings@, a as int, b as int),
            decreases m_len - b,
        {
            pair_messages_exec(&mappings[a], &mappings[b], &mut errors);
            proof {
                assert(row_messages(mappings@, a as int, b + 1) == row_messages(
                    mappings@,
                    a as int,
                    b as int,
                ) + pair_messages(mappings@[a as int], mappings@[b as int]));
                assert(texts(errors@) =~= row_start + row_messages(mappings@, a as int, b + 1));
            }
            b = b + 1;
        }
        proof {
            assert(texts(errors@) =~= before_pairs + pairwise_messages(mappings@, a + 1));
        }
        a = a + 1;
    }
    errors
}

/// The mapping file in the plugin's own folder.
pub const DEFAULT_MAPPING_PATH: &'static str = "sd:/ultimate/mods/Bosses/amiibo.toml";

/// Where the mapping file is looked for, in order.
pub open spec fn spec_mapping_paths() -> Seq<Seq<char>> {
    seq![
        DEFAULT_MAPPING_PATH@,
        "sd:/ultimate/comp_boss/amiibo.toml"@,
        "sd:/config/comp_boss/amiibo.toml"@,
        "sd:/comp_boss/amiibo.toml"@,
    ]
}

/// Where the mapping file is looked for, in order; the first that exists is
/// read.
pub fn mapping_paths() -> (r: Vec<String>)
    ensures
        texts(r@) == spec_mapping_paths(),
{
    let mut r: Vec<String> = Vec::new();
    r.push(DEFAULT_MAPPING_PATH.to_owned());
    r.push("sd:/ultimate/comp_boss/amiibo.toml".to_owned());
    r.push("sd:/config/comp_boss/amiibo.toml".to_owned());
    r.push("sd:/comp_boss/amiibo.toml".to_owned());
    assert(texts(r@) =~= spec_mapping_paths());
    r
}

/// The first of `paths` marked present, each path marked by the flag at its
/// place; a path without a flag counts as absent.
pub open spec fn first_present(paths: Seq<Seq<char>>, present: Seq<bool>) -> Option<Seq<char>>
    decreases paths.len(),
{
    if paths.len() == 0 || present.len() == 0 {
        None
    } else if present[0] {
        Some(paths[0])
    } else {
        first_present(paths.drop_first(), present.drop_first())
    }
}

/// Picks the mapping file to read: the first of `mapping_paths()` that
/// exists, given for each of them, in order, whether it exists; `None` when
/// none does.
pub fn first_existing_mapping_path(present: &Vec<bool>) -> (r: Option<String>)
    ensures
        r is None <==> first_present(spec_mapping_paths(), present@) is None,
        r is Some ==> r->0@ == first_present(spec_mapping_paths(), present@)->0,
{
    let paths = mapping_paths();
    let ghost all = texts(paths@);
    let n = paths.len();
    let m = present.len();
    let mut i: usize = 0;
    assert(all.subrange(0, n as int) =~= all);
    assert(present@.subrange(0, m as int) =~= present@);
    while i < n && i < m
        invariant
            all == texts(paths@),
            all == spec_mapping_paths(),
            n == paths@.len(),
            m == present@.len(),
            i <= n,
            i <= m,
            first_present(all, present@) == first_present(
                all.subrange(i as int, n as int),
                present@.subrange(i as int, m as int),
            ),
        decreases n - i,
    {
        let ghost ps = all.subrange(i as int, n as int);
        let ghost fs = present@.subrange(i as int, m as int);
        if present[i] {
            assert(fs[0] == present@[i as int]);
            assert(ps[0] == paths@[i as int]@);
            return Some(paths[i].clone());
        }
        assert(ps.drop_first() =~= all.subrange(i + 1, n as int));
        assert(fs.drop_first() =~= present@.subrange(i + 1, m as int));
        i = i + 1;
    }
    None
}

/// The mapping file as found: where no path exists, no boss tables and no
/// error; where one exists, its tables, or no boss tables and the error where
/// it could not be read or parsed. Either way without tables there are no
/// mappings and nothing to refuse.
pub fn loaded_mapping_file(path: Option<String>, parsed: Result<AmiiboFile, String>) -> (r:
    LoadedAmiiboFile)
    ensures
        r.path == path,
        path is None ==> r.file.bosses@.len() == 0 && r.parse_error is None,
        path is Some ==> match parsed {
            Ok(file) => r.file == file && r.parse_error is None,
            Err(e) => r.file.bosses@.len() == 0 && r.parse_error == Some(e),
        },
        (path is None || parsed is Err) ==> spec_configured_mappings(r.file).len() == 0
            && spec_validation_errors(r.file).len() == 0,
{
    let r = match path {
        None => LoadedAmiiboFile { path: None, file: AmiiboFile { bosses: Vec::new() }, parse_error: None },
        Some(p) => match parsed {
            Ok(file) => LoadedAmiiboFile { path: Some(p), file, parse_error: None },
            Err(e) => LoadedAmiiboFile {
                path: Some(p),
                file: AmiiboFile { bosses: Vec::new() },
                parse_error: Some(e),
            },
        },
    };
    proof {
        if r.file.bosses@.len() == 0 {
            lemma_file_without_tables(r.file);
        }
    }
    r
}

/// A mapping file without boss tables configures no boss and refuses
/// nothing.
pub proof fn lemma_file_without_tables(file: AmiiboFile)
    requires
        file.bosses@.len() == 0,
    ensures
        spec_parsed_mappings(file).len() == 0,
        spec_configured_mappings(file).len() == 0,
        spec_validation_errors(file).len() == 0,
{
    assert forall|n: int| 0 <= n <= 11 implies spec_parsed_mappings_upto(file, n).len() == 0
        && spec_identity_errors_upto(file, n).len() == 0 by {
        lemma_no_tables_upto(file, n);
    }
    assert(spec_parsed_mappings(file).len() == 0);
    assert(spec_unknown_key_errors(file.bosses@, 0).len() == 0);
    assert(pairwise_messages(spec_parsed_mappings(file), 0).len() == 0);
}

proof fn lemma_no_tables_upto(file: AmiiboFile, n: int)
    requires
        file.bosses@.len() == 0,
        0 <= n <= 11,
    ensures
        spec_parsed_mappings_upto(file, n).len() == 0,
        spec_identity_errors_upto(file, n).len() == 0,
    decreases n,
{
    if n > 0 {
        lemma_no_tables_upto(file, n - 1);
        assert(spec_lookup(file, spec_boss_identities()[n - 1].key@) is None);
    }
}

/// The catalogue names each boss once: no two identities share a key.
pub proof fn lemma_catalogue_keys_are_distinct()
    ensures
        forall|j: int, k: int|
            0 <= j < 11 && 0 <= k < 11 && j != k ==> #[trigger] spec_boss_identities()[j].key@
                != #[trigger] spec_boss_identities()[k].key@,
{
    let c = spec_boss_identities();
    reveal_strlit("master_hand");
    reveal_strlit("crazy_hand");
    reveal_strlit("wol_master_hand");
    reveal_strlit("galeem");
    reveal_strlit("dharkon");
    reveal_strlit("dracula");
    reveal_strlit("ganon_boss");
    reveal_strlit("galleom");
    reveal_strlit("rathalos");
    reveal_strlit("marx");
    reveal_strlit("giga_bowser");
    assert(c[0].key@.len() == 11 && c[0].key@[0] == 'm');
    assert(c[1].key@.len() == 10 && c[1].key@[0] == 'c');
    assert(c[2].key@.len() == 15);
    assert(c[3].key@.len() == 6);
    assert(c[4].key@.len() == 7 && c[4].key@[1] == 'h');
    assert(c[5].key@.len() == 7 && c[5].key@[1] == 'r');
    assert(c[6].key@.len() == 10 && c[6].key@[0] == 'g');
    assert(c[7].key@.len() == 7 && c[7].key@[1] == 'a');
    assert(c[8].key@.len() == 8);
    assert(c[9].key@.len() == 4);
    assert(c[10].key@.len() == 11 && c[10].key@[0] == 'g');
    assert forall|j: int, k: int|
        0 <= j < 11 && 0 <= k < 11 && j != k implies #[trigger] c[j].key@ != #[trigger] c[k].key@ by {
        assert(j == 0 || j == 1 || j == 2 || j == 3 || j == 4 || j == 5 || j == 6 || j == 7 || j
            == 8 || j == 9 || j == 10);
        assert(k == 0 || k == 1 || k == 2 || k == 3 || k == 4 || k == 5 || k == 6 || k == 7 || k
            == 8 || k == 9 || k == 10);
    }
}

} // verus!
