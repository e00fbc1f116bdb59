//! The Amiibo preview of a boss on the figure viewer stage: which bosses are
//! allowed there, how each one's presentation is acquired, the bounded
//! Rathalos acquisition probe, and the debug calibration targets. Transform
//! values (scales, rotations, offsets) stay with the plugin.
use crate::amiibo::{spec_boss_identities, ConfiguredBossAmiibo};
use crate::text::{
    ascii_lowercase, hex_digits, hex_padded, join_key, spec_ascii_lowercase, spec_contains,
    str_contains, str_eq,
};
use vstd::prelude::*;
use vstd::string::StringSliceAdditionalSpecFns;

verus! {

/// The most identities whose previews can be allowed at once.
pub const MAX_CONFIGURED_PREVIEW_IDENTITIES: usize = 11;

/// Frames that a new presentation is held still before native ownership.
pub const PREVIEW_TRANSFORM_STABILIZATION_FRAMES: u8 = 16;
pub const TRANSFORM_COMPARISON_SAMPLE_FRAMES: u8 = 4;
pub const INTERACTIVE_TRANSFORM_CHANGE_SAMPLES: u8 = 4;
pub const CALIBRATION_INPUT_PROBE_SAMPLES: u8 = 24;
/// Frames that ATTACK is held, with the calibration chord, to reset the
/// current target.
pub const CALIBRATION_RESET_HOLD_FRAMES: u16 = 60;
pub const NATIVE_HELD_DIAGNOSTIC_FRAMES: u8 = 16;

pub const MASTER_HAND_PREVIEW_KEY: &'static str = "master_hand";
pub const GALLEOM_PREVIEW_KEY: &'static str = "galleom";
pub const MARX_PREVIEW_KEY: &'static str = "marx";
pub const RATHALOS_PREVIEW_KEY: &'static str = "rathalos";

/// Frames the Rathalos host settles before its first request, frames
/// observed after a request, and the most requests made.
pub const RATHALOS_HOST_SETTLE_FRAMES: u8 = 16;
pub const RATHALOS_ACQUIRE_SETTLE_FRAMES: u8 = 16;
pub const RATHALOS_MAX_ACQUIRE_REQUESTS: u8 = 2;

/// The character-database lookups that the figure scanner makes directly:
/// their top three bytes are `c1 ff ff`.
pub const DIRECT_UI_LOOKUP_TAG_MASK: u64 = 0xFFFF_FF00_0000_0000;
pub const DIRECT_UI_LOOKUP_TAG: u64 = 0xC1FF_FF00_0000_0000;

/// Whether a raw lookup hash is a direct figure lookup rather than the
/// catalogue enumeration.
pub fn is_direct_amiibo_identity_lookup(raw_ui_hash: u64) -> (r: bool)
    ensures
        r == (raw_ui_hash & DIRECT_UI_LOOKUP_TAG_MASK == DIRECT_UI_LOOKUP_TAG),
{
    raw_ui_hash & DIRECT_UI_LOOKUP_TAG_MASK == DIRECT_UI_LOOKUP_TAG
}

/// The hash40 of a label: what `prc::hash40::hash40` computes from the
/// label's bytes.
pub uninterp spec fn hash40_of(bytes: Seq<u8>) -> u64;

/// Calls `prc::hash40::hash40` (the `hash40` crate's `Hash40::new`): the
/// CRC-32 of the label's ASCII-lower-cased bytes, with the byte count, taken
/// modulo 256, in bits 32 to 39. The CRC itself is left to the name
/// `hash40_of`; what is stated is the length byte and that the higher bits
/// are clear.
#[verifier::external_body]
pub(crate) fn label_hash40(label: &str) -> (r: u64)
    ensures
        r == hash40_of(label.spec_bytes()),
        r / 0x1_0000_0000 == label.spec_bytes().len() % 256,
{
    prc::hash40::hash40(label).0
}

/// Where an Amiibo preview identity came from.
#[derive(Debug, Clone, Copy, PartialEq, Eq, Structural)]
pub enum AmiiboPreviewIdentitySource {
    Unset,
    ProvisionalDirectUiLookup,
}

impl AmiiboPreviewIdentitySource {
    pub fn name(self) -> (r: &'static str)
        ensures
            r@ == match self {
                AmiiboPreviewIdentitySource::Unset => "none"@,
                AmiiboPreviewIdentitySource::ProvisionalDirectUiLookup =>
                    "provisional_direct_ui_lookup_candidate"@,
            },
    {
        match self {
            AmiiboPreviewIdentitySource::Unset => "none",
            AmiiboPreviewIdentitySource::ProvisionalDirectUiLookup =>
                "provisional_direct_ui_lookup_candidate",
        }
    }
}

/// The progress of the preview of one viewer generation.
#[derive(Debug, Clone, Copy, PartialEq, Eq, Structural)]
pub enum AmiiboPreviewPhase {
    Inactive,
    IdentityCaptured,
    WaitingForViewerHost,
    CreatingPresentation,
    AwaitingRathalosAcquire,
    Ready,
    DeferredUntilSupported,
}

impl AmiiboPreviewPhase {
    pub fn name(self) -> (r: &'static str)
        ensures
            r@ == match self {
                AmiiboPreviewPhase::Inactive => "inactive"@,
                AmiiboPreviewPhase::IdentityCaptured => "identity_captured"@,
                AmiiboPreviewPhase::WaitingForViewerHost => "waiting_for_viewer_host"@,
                AmiiboPreviewPhase::CreatingPresentation => "creating_presentation"@,
                AmiiboPreviewPhase::AwaitingRathalosAcquire => "awaiting_rathalos_acquire"@,
                AmiiboPreviewPhase::Ready => "ready"@,
                AmiiboPreviewPhase::DeferredUntilSupported => "deferred_until_supported"@,
            },
    {
        match self {
            AmiiboPreviewPhase::Inactive => "inactive",
            AmiiboPreviewPhase::IdentityCaptured => "identity_captured",
            AmiiboPreviewPhase::WaitingForViewerHost => "waiting_for_viewer_host",
            AmiiboPreviewPhase::CreatingPresentation => "creating_presentation",
            AmiiboPreviewPhase::AwaitingRathalosAcquire => "awaiting_rathalos_acquire",
            AmiiboPreviewPhase::Ready => "ready",
            AmiiboPreviewPhase::DeferredUntilSupported => "deferred_until_supported",
        }
    }
}

/// Who holds the presentation item.
#[derive(Debug, Clone, Copy, PartialEq, Eq, Structural)]
pub enum AmiiboPreviewOwnership {
    Unowned,
    HostSlot,
    DetachedNativeOwned,
}

impl AmiiboPreviewOwnership {
    pub fn name(self) -> (r: &'static str)
        ensures
            r@ == match self {
                AmiiboPreviewOwnership::Unowned => "none"@,
                AmiiboPreviewOwnership::HostSlot => "host_slot"@,
                AmiiboPreviewOwnership::DetachedNativeOwned => "detached_native_owned"@,
            },
    {
        match self {
            AmiiboPreviewOwnership::Unowned => "none",
            AmiiboPreviewOwnership::HostSlot => "host_slot",
            AmiiboPreviewOwnership::DetachedNativeOwned => "detached_native_owned",
        }
    }
}

/// Whether the viewer stage owns the item transform at once, or first
/// observes the host-held attachment.
#[derive(Debug, Clone, Copy, PartialEq, Eq, Structural)]
pub enum AmiiboAttachmentMode {
    ViewerAnchor,
    NativeHeldDiagnostic,
}

impl AmiiboAttachmentMode {
    /// Galleom observes the native attachment; every other boss is anchored.
    pub fn for_profile_key(key: &str) -> (r: AmiiboAttachmentMode)
        ensures
            r == if key@ == GALLEOM_PREVIEW_KEY@ {
                AmiiboAttachmentMode::NativeHeldDiagnostic
            } else {
                AmiiboAttachmentMode::ViewerAnchor
            },
    {
        if str_eq(key, GALLEOM_PREVIEW_KEY) {
            AmiiboAttachmentMode::NativeHeldDiagnostic
        } else {
            AmiiboAttachmentMode::ViewerAnchor
        }
    }

    pub fn name(self) -> (r: &'static str)
        ensures
            r@ == match self {
                AmiiboAttachmentMode::ViewerAnchor => "viewer_anchor"@,
                AmiiboAttachmentMode::NativeHeldDiagnostic => "native_held_diagnostic"@,
            },
    {
        match self {
            AmiiboAttachmentMode::ViewerAnchor => "viewer_anchor",
            AmiiboAttachmentMode::NativeHeldDiagnostic => "native_held_diagnostic",
        }
    }
}

/// How a boss is shown in the preview.
#[derive(Debug, Clone, Copy, PartialEq, Eq, Structural)]
pub enum BossAmiiboPreviewKind {
    ItemPresentation,
    NativeFighterPresentation,
}

/// How the presentation item is acquired on the viewer stage.
#[derive(Debug, Clone, Copy, PartialEq, Eq, Structural)]
pub enum ItemPresentationAcquireRecipe {
    Direct,
    /// Every known Dracula item crashes inside the item request on the
    /// viewer stage, so Dracula fails closed before any host change.
    DraculaAllBackingsBlocked,
    WolRathalosStaged,
}

impl ItemPresentationAcquireRecipe {
    pub fn name(self) -> (r: &'static str)
        ensures
            r@ == match self {
                ItemPresentationAcquireRecipe::Direct => "direct"@,
                ItemPresentationAcquireRecipe::DraculaAllBackingsBlocked =>
                    "dracula_all_known_item_backings_blocked"@,
                ItemPresentationAcquireRecipe::WolRathalosStaged => "wol_rathalos_staged"@,
            },
    {
        match self {
            ItemPresentationAcquireRecipe::Direct => "direct",
            ItemPresentationAcquireRecipe::DraculaAllBackingsBlocked =>
                "dracula_all_known_item_backings_blocked",
            ItemPresentationAcquireRecipe::WolRathalosStaged => "wol_rathalos_staged",
        }
    }

    /// Only the staged Rathalos recipe clears the host's item slots first.
    pub fn requires_empty_host_slots(self) -> (r: bool)
        ensures
            r == (self == ItemPresentationAcquireRecipe::WolRathalosStaged),
    {
        matches!(self, ItemPresentationAcquireRecipe::WolRathalosStaged)
    }

    /// Only the staged Rathalos recipe shrinks the host before the request.
    pub fn uses_tiny_host_before_request(self) -> (r: bool)
        ensures
            r == (self == ItemPresentationAcquireRecipe::WolRathalosStaged),
    {
        matches!(self, ItemPresentationAcquireRecipe::WolRathalosStaged)
    }

    /// Only the staged Rathalos recipe observes the item over later frames.
    pub fn uses_deferred_observation(self) -> (r: bool)
        ensures
            r == (self == ItemPresentationAcquireRecipe::WolRathalosStaged),
    {
        matches!(self, ItemPresentationAcquireRecipe::WolRathalosStaged)
    }

    /// The blocked Dracula recipe never requests an item.
    pub fn reaches_have_item(self) -> (r: bool)
        ensures
            r == (self != ItemPresentationAcquireRecipe::DraculaAllBackingsBlocked),
    {
        !matches!(self, ItemPresentationAcquireRecipe::DraculaAllBackingsBlocked)
    }

    /// The blocked Dracula recipe never requests an item again either.
    pub fn allows_native_reacquire(self) -> (r: bool)
        ensures
            r == (self != ItemPresentationAcquireRecipe::DraculaAllBackingsBlocked),
    {
        !matches!(self, ItemPresentationAcquireRecipe::DraculaAllBackingsBlocked)
    }
}

/// A recipe that prepares the host also requests an item: no recipe clears
/// the host for a request it never makes.
pub proof fn lemma_host_preparation_implies_request(recipe: ItemPresentationAcquireRecipe)
    ensures
        recipe == ItemPresentationAcquireRecipe::WolRathalosStaged ==> recipe
            != ItemPresentationAcquireRecipe::DraculaAllBackingsBlocked,
{
}

/// Which host channels carry a boss's static orientation.
#[derive(Debug, Clone, Copy, PartialEq, Eq, Structural)]
pub enum AmiiboHostOrientationRecipe {
    NativeHost,
    RootOnly,
    GaleemDharkon,
    NativeFighter,
}

impl AmiiboHostOrientationRecipe {
    pub fn name(self) -> (r: &'static str)
        ensures
            r@ == match self {
                AmiiboHostOrientationRecipe::NativeHost => "stage135_native_host"@,
                AmiiboHostOrientationRecipe::RootOnly => "wol_root_only"@,
                AmiiboHostOrientationRecipe::GaleemDharkon => "wol_galeem_dharkon"@,
                AmiiboHostOrientationRecipe::NativeFighter => "native_fighter"@,
            },
    {
        match self {
            AmiiboHostOrientationRecipe::NativeHost => "stage135_native_host",
            AmiiboHostOrientationRecipe::RootOnly => "wol_root_only",
            AmiiboHostOrientationRecipe::GaleemDharkon => "wol_galeem_dharkon",
            AmiiboHostOrientationRecipe::NativeFighter => "native_fighter",
        }
    }

    /// The host posture written for the recipe, as the logs name it.
    pub fn posture_rotation_name(self) -> (r: &'static str)
        ensures
            r@ == match self {
                AmiiboHostOrientationRecipe::NativeHost => "native"@,
                AmiiboHostOrientationRecipe::RootOnly => "native"@,
                AmiiboHostOrientationRecipe::GaleemDharkon => "(-180.0,90.0,0.0)"@,
                AmiiboHostOrientationRecipe::NativeFighter => "not_applied"@,
            },
    {
        match self {
            AmiiboHostOrientationRecipe::NativeHost => "native",
            AmiiboHostOrientationRecipe::RootOnly => "native",
            AmiiboHostOrientationRecipe::GaleemDharkon => "(-180.0,90.0,0.0)",
            AmiiboHostOrientationRecipe::NativeFighter => "not_applied",
        }
    }

    /// Only the Galeem/Dharkon recipe writes the host posture.
    pub fn writes_host_posture(self) -> (r: bool)
        ensures
            r == (self == AmiiboHostOrientationRecipe::GaleemDharkon),
    {
        matches!(self, AmiiboHostOrientationRecipe::GaleemDharkon)
    }

    /// The root-only and Galeem/Dharkon recipes write the host root joint.
    pub fn writes_host_root(self) -> (r: bool)
        ensures
            r == (self == AmiiboHostOrientationRecipe::RootOnly || self
                == AmiiboHostOrientationRecipe::GaleemDharkon),
    {
        matches!(
            self,
            AmiiboHostOrientationRecipe::RootOnly | AmiiboHostOrientationRecipe::GaleemDharkon
        )
    }
}

/// The routing of one boss's preview: its keys, how it is presented and
/// acquired. Its transform values are kept by the plugin, by key.
#[derive(Debug, Clone, Copy)]
pub struct PreviewRoute {
    pub key: &'static str,
    pub ui_chara_id: &'static str,
    pub preview_kind: BossAmiiboPreviewKind,
    pub preview_source: &'static str,
    pub idle_motion: &'static str,
    pub host_orientation_recipe: AmiiboHostOrientationRecipe,
    pub item_acquire_recipe: ItemPresentationAcquireRecipe,
}

pub open spec fn spec_preview_routes() -> Seq<PreviewRoute> {
    seq![
        route("master_hand", "ui_chara_masterhand", BossAmiiboPreviewKind::ItemPresentation, "item:masterhand", "wait", AmiiboHostOrientationRecipe::NativeHost, ItemPresentationAcquireRecipe::Direct),
        route("crazy_hand", "ui_chara_crazyhand", BossAmiiboPreviewKind::ItemPresentation, "item:crazyhand", "wait", AmiiboHostOrientationRecipe::RootOnly, ItemPresentationAcquireRecipe::Direct),
        route("wol_master_hand", "ui_chara_mewtwo_masterhand", BossAmiiboPreviewKind::ItemPresentation, "item:masterhand_wol_preview", "wait", AmiiboHostOrientationRecipe::RootOnly, ItemPresentationAcquireRecipe::Direct),
        route("galeem", "ui_chara_kiila", BossAmiiboPreviewKind::ItemPresentation, "item:kiilacore", "wait", AmiiboHostOrientationRecipe::GaleemDharkon, ItemPresentationAcquireRecipe::Direct),
        route("dharkon", "ui_chara_darz", BossAmiiboPreviewKind::ItemPresentation, "item:darzcentipede", "wait", AmiiboHostOrientationRecipe::GaleemDharkon, ItemPresentationAcquireRecipe::Direct),
        route("dracula", "ui_chara_dracula", BossAmiiboPreviewKind::ItemPresentation, "item:dracula_blocked", "wait", AmiiboHostOrientationRecipe::RootOnly, ItemPresentationAcquireRecipe::DraculaAllBackingsBlocked),
        route("ganon_boss", "ui_chara_ganonboss", BossAmiiboPreviewKind::ItemPresentation, "item:ganonboss", "body_attack_start", AmiiboHostOrientationRecipe::RootOnly, ItemPresentationAcquireRecipe::Direct),
        route("galleom", "ui_chara_galleom", BossAmiiboPreviewKind::ItemPresentation, "item:galleom", "wait", AmiiboHostOrientationRecipe::RootOnly, ItemPresentationAcquireRecipe::Direct),
        route("rathalos", "ui_chara_lioleus", BossAmiiboPreviewKind::ItemPresentation, "item:lioleusboss", "hovering_move", AmiiboHostOrientationRecipe::RootOnly, ItemPresentationAcquireRecipe::WolRathalosStaged),
        route("marx", "ui_chara_marx", BossAmiiboPreviewKind::ItemPresentation, "item:marx", "wait", AmiiboHostOrientationRecipe::NativeHost, ItemPresentationAcquireRecipe::Direct),
        route("giga_bowser", "ui_chara_koopag", BossAmiiboPreviewKind::NativeFighterPresentation, "fighter:koopag", "wait", AmiiboHostOrientationRecipe::NativeFighter, ItemPresentationAcquireRecipe::Direct),
    ]
}

pub open spec fn route(
    key: &'static str,
    ui_chara_id: &'static str,
    preview_kind: BossAmiiboPreviewKind,
    preview_source: &'static str,
    idle_motion: &'static str,
    host_orientation_recipe: AmiiboHostOrientationRecipe,
    item_acquire_recipe: ItemPresentationAcquireRecipe,
) -> PreviewRoute {
    PreviewRoute {
        key,
        ui_chara_id,
        preview_kind,
        preview_source,
        idle_motion,
        host_orientation_recipe,
        item_acquire_recipe,
    }
}

/// The preview routing of every boss, one per catalogue identity, in
/// catalogue order.
pub fn preview_routes() -> (r: [PreviewRoute; 11])
    ensures
        r@ == spec_preview_routes(),
{
    let r = [
        PreviewRoute { key: "master_hand", ui_chara_id: "ui_chara_masterhand", preview_kind: BossAmiiboPreviewKind::ItemPresentation, preview_source: "item:masterhand", idle_motion: "wait", host_orientation_recipe: AmiiboHostOrientationRecipe::NativeHost, item_acquire_recipe: ItemPresentationAcquireRecipe::Direct },
        PreviewRoute { key: "crazy_hand", ui_chara_id: "ui_chara_crazyhand", preview_kind: BossAmiiboPreviewKind::ItemPresentation, preview_source: "item:crazyhand", idle_motion: "wait", host_orientation_recipe: AmiiboHostOrientationRecipe::RootOnly, item_acquire_recipe: ItemPresentationAcquireRecipe::Direct },
        PreviewRoute { key: "wol_master_hand", ui_chara_id: "ui_chara_mewtwo_masterhand", preview_kind: BossAmiiboPreviewKind::ItemPresentation, preview_source: "item:masterhand_wol_preview", idle_motion: "wait", host_orientation_recipe: AmiiboHostOrientationRecipe::RootOnly, item_acquire_recipe: ItemPresentationAcquireRecipe::Direct },
        PreviewRoute { key: "galeem", ui_chara_id: "ui_chara_kiila", preview_kind: BossAmiiboPreviewKind::ItemPresentation, preview_source: "item:kiilacore", idle_motion: "wait", host_orientation_recipe: AmiiboHostOrientationRecipe::GaleemDharkon, item_acquire_recipe: ItemPresentationAcquireRecipe::Direct },
        PreviewRoute { key: "dharkon", ui_chara_id: "ui_chara_darz", preview_kind: BossAmiiboPreviewKind::ItemPresentation, preview_source: "item:darzcentipede", idle_motion: "wait", host_orientation_recipe: AmiiboHostOrientationRecipe::GaleemDharkon, item_acquire_recipe: ItemPresentationAcquireRecipe::Direct },
        PreviewRoute { key: "dracula", ui_chara_id: "ui_chara_dracula", preview_kind: BossAmiiboPreviewKind::ItemPresentation, preview_source: "item:dracula_blocked", idle_motion: "wait", host_orientation_recipe: AmiiboHostOrientationRecipe::RootOnly, item_acquire_recipe: ItemPresentationAcquireRecipe::DraculaAllBackingsBlocked },
        PreviewRoute { key: "ganon_boss", ui_chara_id: "ui_chara_ganonboss", preview_kind: BossAmiiboPreviewKind::ItemPresentation, preview_source: "item:ganonboss", idle_motion: "body_attack_start", host_orientation_recipe: AmiiboHostOrientationRecipe::RootOnly, item_acquire_recipe: ItemPresentationAcquireRecipe::Direct },
        PreviewRoute { key: "galleom", ui_chara_id: "ui_chara_galleom", preview_kind: BossAmiiboPreviewKind::ItemPresentation, preview_source: "item:galleom", idle_motion: "wait", host_orientation_recipe: AmiiboHostOrientationRecipe::RootOnly, item_acquire_recipe: ItemPresentationAcquireRecipe::Direct },
        PreviewRoute { key: "rathalos", ui_chara_id: "ui_chara_lioleus", preview_kind: BossAmiiboPreviewKind::ItemPresentation, preview_source: "item:lioleusboss", idle_motion: "hovering_move", host_orientation_recipe: AmiiboHostOrientationRecipe::RootOnly, item_acquire_recipe: ItemPresentationAcquireRecipe::WolRathalosStaged },
        PreviewRoute { key: "marx", ui_chara_id: "ui_chara_marx", preview_kind: BossAmiiboPreviewKind::ItemPresentation, preview_source: "item:marx", idle_motion: "wait", host_orientation_recipe: AmiiboHostOrientationRecipe::NativeHost, item_acquire_recipe: ItemPresentationAcquireRecipe::Direct },
        PreviewRoute { key: "giga_bowser", ui_chara_id: "ui_chara_koopag", preview_kind: BossAmiiboPreviewKind::NativeFighterPresentation, preview_source: "fighter:koopag", idle_motion: "wait", host_orientation_recipe: AmiiboHostOrientationRecipe::NativeFighter, item_acquire_recipe: ItemPresentationAcquireRecipe::Direct },
    ];
    assert(r@ =~= spec_preview_routes());
    r
}

/// The first route, from `i` on, whose character id is `ui_chara_id`.
pub open spec fn route_index_from(routes: Seq<PreviewRoute>, ui_chara_id: Seq<char>, i: int) -> Option<int>
    decreases routes.len() - i,
{
    if i < 0 || i >= routes.len() {
        None
    } else if routes[i].ui_chara_id@ == ui_chara_id {
        Some(i)
    } else {
        route_index_from(routes, ui_chara_id, i + 1)
    }
}

/// The preview route of a character id.
pub fn profile_for_ui_chara_id(ui_chara_id: &str) -> (r: Option<PreviewRoute>)
    ensures
        match route_index_from(spec_preview_routes(), ui_chara_id@, 0) {
            Some(i) => r == Some(spec_preview_routes()[i]),
            None => r is None,
        },
{
    let routes = preview_routes();
    let mut i: usize = 0;
    while i < 11
        invariant
            i <= 11,
            routes@ == spec_preview_routes(),
            route_index_from(spec_preview_routes(), ui_chara_id@, 0) == route_index_from(
                spec_preview_routes(),
                ui_chara_id@,
                i as int,
            ),
        decreases 11 - i,
    {
        if str_eq(routes[i].ui_chara_id, ui_chara_id) {
            return Some(routes[i]);
        }
        i = i + 1;
    }
    None
}

/// The first route, from `i` on, whose character id hashes to `hash`.
pub open spec fn route_hash_index_from(routes: Seq<PreviewRoute>, hash: u64, i: int) -> Option<int>
    decreases routes.len() - i,
{
    if i < 0 || i >= routes.len() {
        None
    } else if hash40_of(routes[i].ui_chara_id.spec_bytes()) == hash {
        Some(i)
    } else {
        route_hash_index_from(routes, hash, i + 1)
    }
}

proof fn lemma_route_hash_index_bounds(routes: Seq<PreviewRoute>, hash: u64, from: int)
    requires
        0 <= from,
    ensures
        route_hash_index_from(routes, hash, from) matches Some(i) ==> from <= i < routes.len(),
    decreases routes.len() - from,
{
    if from < routes.len() {
        lemma_route_hash_index_bounds(routes, hash, from + 1);
    }
}

/// The place of the preview route whose character id hashes to
/// `ui_chara_hash`.
pub fn route_index_for_hash(ui_chara_hash: u64) -> (r: Option<usize>)
    ensures
        match route_hash_index_from(spec_preview_routes(), ui_chara_hash, 0) {
            Some(i) => r == Some(i as usize),
            None => r is None,
        },
        r matches Some(i) ==> i < 11,
{
    let routes = preview_routes();
    proof {
        lemma_route_hash_index_bounds(spec_preview_routes(), ui_chara_hash, 0);
    }
    let mut i: usize = 0;
    while i < 11
        invariant
            i <= 11,
            routes@ == spec_preview_routes(),
            route_hash_index_from(spec_preview_routes(), ui_chara_hash, 0)
                == route_hash_index_from(spec_preview_routes(), ui_chara_hash, i as int),
        decreases 11 - i,
    {
        if label_hash40(routes[i].ui_chara_id) == ui_chara_hash {
            return Some(i);
        }
        i = i + 1;
    }
    None
}

/// The preview route whose character id hashes to `ui_chara_hash`.
pub fn profile_for_ui_chara_hash(ui_chara_hash: u64) -> (r: Option<PreviewRoute>)
    ensures
        match route_hash_index_from(spec_preview_routes(), ui_chara_hash, 0) {
            Some(i) => r == Some(spec_preview_routes()[i]),
            None => r is None,
        },
{
    proof {
        lemma_route_hash_index_bounds(spec_preview_routes(), ui_chara_hash, 0);
    }
    match route_index_for_hash(ui_chara_hash) {
        Some(i) => {
            let routes = preview_routes();
            Some(routes[i])
        },
        None => None,
    }
}

/// Item presentations are rolled out; the native fighter route (Giga
/// Bowser) is not.
pub fn profile_rollout_enabled(route: &PreviewRoute) -> (r: bool)
    ensures
        r == (route.preview_kind == BossAmiiboPreviewKind::ItemPresentation),
{
    matches!(route.preview_kind, BossAmiiboPreviewKind::ItemPresentation)
}

/// The Master Hand and Marx previews carry the transform experiments.
pub fn is_transform_proof_pair_profile(route: &PreviewRoute) -> (r: bool)
    ensures
        r == (route.key@ == MASTER_HAND_PREVIEW_KEY@ || route.key@ == MARX_PREVIEW_KEY@),
{
    str_eq(route.key, MASTER_HAND_PREVIEW_KEY) || str_eq(route.key, MARX_PREVIEW_KEY)
}

/// The transform comparison is scoped to the same pair.
pub fn is_transform_comparison_profile(route: &PreviewRoute) -> (r: bool)
    ensures
        r == (route.key@ == MASTER_HAND_PREVIEW_KEY@ || route.key@ == MARX_PREVIEW_KEY@),
{
    str_eq(route.key, MASTER_HAND_PREVIEW_KEY) || str_eq(route.key, MARX_PREVIEW_KEY)
}

/// What backs a preview: one of the game's items, or a native fighter.
#[derive(Debug, Clone, Copy, PartialEq, Eq, Structural)]
pub enum PreviewBackingKind {
    Item,
    NativeFighter,
}

/// A presentation backing that the battle or World of Light paths already
/// use, with the name of the game constant of its kind.
#[derive(Debug, Clone, Copy)]
pub struct VerifiedPreviewBacking {
    pub kind: PreviewBackingKind,
    pub source: &'static str,
}

pub open spec fn spec_backing_source(key: Seq<char>) -> Option<(PreviewBackingKind, Seq<char>)> {
    if key == "master_hand"@ {
        Some((PreviewBackingKind::Item, "ITEM_KIND_MASTERHAND"@))
    } else if key == "crazy_hand"@ {
        Some((PreviewBackingKind::Item, "ITEM_KIND_CRAZYHAND"@))
    } else if key == "wol_master_hand"@ {
        Some((PreviewBackingKind::Item, "ITEM_KIND_MASTERHAND (WOL preview)"@))
    } else if key == "galeem"@ {
        Some((PreviewBackingKind::Item, "ITEM_KIND_KIILACORE"@))
    } else if key == "dharkon"@ {
        Some((PreviewBackingKind::Item, "ITEM_KIND_DARZCENTIPEDE"@))
    } else if key == "dracula"@ {
        Some((PreviewBackingKind::Item, "ITEM_KIND_DRACULA2 (blocked: stage 0x135 have_item crash)"@))
    } else if key == "ganon_boss"@ {
        Some((PreviewBackingKind::Item, "ITEM_KIND_GANONBOSS"@))
    } else if key == "galleom"@ {
        Some((PreviewBackingKind::Item, "ITEM_KIND_GALLEOM"@))
    } else if key == "rathalos"@ {
        Some((PreviewBackingKind::Item, "ITEM_KIND_LIOLEUSBOSS"@))
    } else if key == "marx"@ {
        Some((PreviewBackingKind::Item, "ITEM_KIND_MARX"@))
    } else if key == "giga_bowser"@ {
        Some((PreviewBackingKind::NativeFighter, "FIGHTER_KIND_KOOPAG"@))
    } else {
        None
    }
}

fn backing(kind: PreviewBackingKind, source: &'static str) -> (r: Option<VerifiedPreviewBacking>)
    ensures
        r matches Some(b) && b.kind == kind && b.source == source,
{
    Some(VerifiedPreviewBacking { kind, source })
}

/// The presentation backing of a boss key.
pub fn verified_presentation_backing(key: &str) -> (r: Option<VerifiedPreviewBacking>)
    ensures
        match spec_backing_source(key@) {
            Some((kind, source)) => r matches Some(b) && b.kind == kind && b.source@ == source,
            None => r is None,
        },
{
    if str_eq(key, "master_hand") {
        backing(PreviewBackingKind::Item, "ITEM_KIND_MASTERHAND")
    } else if str_eq(key, "crazy_hand") {
        backing(PreviewBackingKind::Item, "ITEM_KIND_CRAZYHAND")
    } else if str_eq(key, "wol_master_hand") {
        backing(PreviewBackingKind::Item, "ITEM_KIND_MASTERHAND (WOL preview)")
    } else if str_eq(key, "galeem") {
        backing(PreviewBackingKind::Item, "ITEM_KIND_KIILACORE")
    } else if str_eq(key, "dharkon") {
        backing(PreviewBackingKind::Item, "ITEM_KIND_DARZCENTIPEDE")
    } else if str_eq(key, "dracula") {
        backing(
            PreviewBackingKind::Item,
            "ITEM_KIND_DRACULA2 (blocked: stage 0x135 have_item crash)",
        )
    } else if str_eq(key, "ganon_boss") {
        backing(PreviewBackingKind::Item, "ITEM_KIND_GANONBOSS")
    } else if str_eq(key, "galleom") {
        backing(PreviewBackingKind::Item, "ITEM_KIND_GALLEOM")
    } else if str_eq(key, "rathalos") {
        backing(PreviewBackingKind::Item, "ITEM_KIND_LIOLEUSBOSS")
    } else if str_eq(key, "marx") {
        backing(PreviewBackingKind::Item, "ITEM_KIND_MARX")
    } else if str_eq(key, "giga_bowser") {
        backing(PreviewBackingKind::NativeFighter, "FIGHTER_KIND_KOOPAG")
    } else {
        None
    }
}

pub open spec fn spec_mapping_runtime_status(
    route: PreviewRoute,
    backing: Option<PreviewBackingKind>,
) -> Seq<char> {
    if route.item_acquire_recipe == ItemPresentationAcquireRecipe::DraculaAllBackingsBlocked {
        "acquisition_blocked_all_known_item_backings_crash_fail_closed"@
    } else {
        match backing {
            Some(PreviewBackingKind::Item) => if route.preview_kind
                == BossAmiiboPreviewKind::ItemPresentation {
                "stage_135_runtime_enabled"@
            } else {
                "typed_item_backing_hardware_verification_required"@
            },
            Some(PreviewBackingKind::NativeFighter) =>
                "native_fighter_presentation_hardware_verification_required"@,
            None => "verified_presentation_backing_missing"@,
        }
    }
}

/// A preview is reported enabled only for a recipe that reaches the item
/// request, with an item backing, on a rolled-out item route; a blocked
/// recipe is always reported as blocked, whatever its backing.
pub proof fn lemma_blocked_recipe_is_never_enabled(route: PreviewRoute, backing: Option<PreviewBackingKind>)
    ensures
        spec_mapping_runtime_status(route, backing) == "stage_135_runtime_enabled"@ ==> route.item_acquire_recipe
            != ItemPresentationAcquireRecipe::DraculaAllBackingsBlocked && backing == Some(
            PreviewBackingKind::Item,
        ) && route.preview_kind == BossAmiiboPreviewKind::ItemPresentation,
        route.item_acquire_recipe == ItemPresentationAcquireRecipe::DraculaAllBackingsBlocked
            ==> spec_mapping_runtime_status(route, backing)
            == "acquisition_blocked_all_known_item_backings_crash_fail_closed"@,
{
    reveal_strlit("stage_135_runtime_enabled");
    reveal_strlit("acquisition_blocked_all_known_item_backings_crash_fail_closed");
    reveal_strlit("typed_item_backing_hardware_verification_required");
    reveal_strlit("native_fighter_presentation_hardware_verification_required");
    reveal_strlit("verified_presentation_backing_missing");
    assert("stage_135_runtime_enabled"@.len() != "acquisition_blocked_all_known_item_backings_crash_fail_closed"@.len());
    assert("stage_135_runtime_enabled"@.len() != "typed_item_backing_hardware_verification_required"@.len());
    assert("stage_135_runtime_enabled"@.len() != "native_fighter_presentation_hardware_verification_required"@.len());
    assert("stage_135_runtime_enabled"@.len() != "verified_presentation_backing_missing"@.len());
}

/// The startup status of a configured mapping's preview. A blocked recipe is
/// never reported as enabled.
pub fn mapping_runtime_status(route: &PreviewRoute, backing: Option<VerifiedPreviewBacking>) -> (r:
    &'static str)
    ensures
        r@ == spec_mapping_runtime_status(
            *route,
            match backing {
                Some(b) => Some(b.kind),
                None => None,
            },
        ),
{
    if !route.item_acquire_recipe.reaches_have_item() {
        return "acquisition_blocked_all_known_item_backings_crash_fail_closed";
    }
    match backing {
        Some(b) => match b.kind {
            PreviewBackingKind::Item => if profile_rollout_enabled(route) {
                "stage_135_runtime_enabled"
            } else {
                "typed_item_backing_hardware_verification_required"
            },
            PreviewBackingKind::NativeFighter =>
                "native_fighter_presentation_hardware_verification_required",
        },
        None => "verified_presentation_backing_missing",
    }
}

/// The identities whose previews are allowed: the character hashes of the
/// first configured mappings, at most eleven.
pub struct PreviewAllowlist {
    pub hashes: Vec<u64>,
}

pub open spec fn spec_allowed_hashes(mappings: Seq<ConfiguredBossAmiibo>) -> Seq<u64> {
    mappings.take(
        if mappings.len() < MAX_CONFIGURED_PREVIEW_IDENTITIES {
            mappings.len() as int
        } else {
            MAX_CONFIGURED_PREVIEW_IDENTITIES as int
        },
    ).map_values(|m: ConfiguredBossAmiibo| hash40_of(m.identity.ui_chara_id.spec_bytes()))
}

impl PreviewAllowlist {
    /// Allows the previews of the configured mappings; the list does not
    /// depend on whether logging is on.
    pub fn configure_mapping_profiles(mappings: &[ConfiguredBossAmiibo]) -> (r: PreviewAllowlist)
        ensures
            r.hashes@ == spec_allowed_hashes(mappings@),
    {
        let n = if mappings.len() < MAX_CONFIGURED_PREVIEW_IDENTITIES {
            mappings.len()
        } else {
            MAX_CONFIGURED_PREVIEW_IDENTITIES
        };
        let mut hashes: Vec<u64> = Vec::new();
        let mut i: usize = 0;
        while i < n
            invariant
                n <= mappings@.len(),
                n == if mappings@.len() < MAX_CONFIGURED_PREVIEW_IDENTITIES {
                    mappings@.len()
                } else {
                    MAX_CONFIGURED_PREVIEW_IDENTITIES as nat
                },
                i <= n,
                hashes@ == mappings@.take(i as int).map_values(
                    |m: ConfiguredBossAmiibo| hash40_of(m.identity.ui_chara_id.spec_bytes()),
                ),
            decreases n - i,
        {
            let h = label_hash40(mappings[i].identity.ui_chara_id);
            hashes.push(h);
            proof {
                assert(mappings@.take(i + 1).map_values(
                    |m: ConfiguredBossAmiibo| hash40_of(m.identity.ui_chara_id.spec_bytes()),
                ) =~= mappings@.take(i as int).map_values(
                    |m: ConfiguredBossAmiibo| hash40_of(m.identity.ui_chara_id.spec_bytes()),
                ).push(h));
            }
            i = i + 1;
        }
        PreviewAllowlist { hashes }
    }

    /// Whether the preview of an identity is allowed.
    pub fn configured_for_preview(&self, ui_chara_hash: u64) -> (r: bool)
        ensures
            r == self.hashes@.contains(ui_chara_hash),
    {
        let n = self.hashes.len();
        let mut i: usize = 0;
        while i < n
            invariant
                n == self.hashes@.len(),
                i <= n,
                forall|j: int| 0 <= j < i ==> self.hashes@[j] != ui_chara_hash,
            decreases n - i,
        {
            if self.hashes[i] == ui_chara_hash {
                return true;
            }
            i = i + 1;
        }
        false
    }
}

/// The bounded acquisition of the Rathalos presentation: the host settles,
/// then at most two requests are made, each observed for a window.
#[derive(Debug, Clone, Copy, PartialEq, Eq, Structural)]
pub struct RathalosAcquireProbe {
    pub request_count: u8,
    pub host_settle_frames: u8,
    pub frames_since_request: u8,
}

impl RathalosAcquireProbe {
    pub open spec fn spec_empty() -> RathalosAcquireProbe {
        RathalosAcquireProbe { request_count: 0, host_settle_frames: 0, frames_since_request: 0 }
    }

    pub fn empty() -> (r: RathalosAcquireProbe)
        ensures
            r == RathalosAcquireProbe::spec_empty(),
    {
        RathalosAcquireProbe { request_count: 0, host_settle_frames: 0, frames_since_request: 0 }
    }

    pub fn host_settled(self) -> (r: bool)
        ensures
            r == (self.host_settle_frames >= RATHALOS_HOST_SETTLE_FRAMES),
    {
        self.host_settle_frames >= RATHALOS_HOST_SETTLE_FRAMES
    }

    pub fn can_retry(self) -> (r: bool)
        ensures
            r == (self.request_count < RATHALOS_MAX_ACQUIRE_REQUESTS),
    {
        self.request_count < RATHALOS_MAX_ACQUIRE_REQUESTS
    }

    pub fn observation_window_elapsed(self) -> (r: bool)
        ensures
            r == (self.frames_since_request >= RATHALOS_ACQUIRE_SETTLE_FRAMES),
    {
        self.frames_since_request >= RATHALOS_ACQUIRE_SETTLE_FRAMES
    }

    /// Records a request: one more request, and its window starts.
    pub fn record_request(&mut self)
        ensures
            final(self).request_count == if old(self).request_count == u8::MAX {
                u8::MAX
            } else {
                (old(self).request_count + 1) as u8
            },
            final(self).frames_since_request == 0,
            final(self).host_settle_frames == old(self).host_settle_frames,
    {
        self.request_count = self.request_count.saturating_add(1);
        self.frames_since_request = 0;
    }
}

/// What one frame of the Rathalos acquisition does next.
#[derive(Debug, Clone, Copy, PartialEq, Eq, Structural)]
pub enum RathalosAcquireDecision {
    /// The host is still settling; `first` on the first such frame.
    AwaitHostSettle { first: bool },
    /// Make the first request now.
    RequestInitial,
    /// The requested item is held: activate the presentation.
    Activate,
    /// Keep observing the last request.
    WaitForItem,
    /// Make the one settled retry now.
    RequestRetry,
    /// Give up: a foreign item sits on the host before the first request.
    ExhaustedForeignBeforeInitial,
    /// Give up: a foreign item sits on the host before the retry.
    ExhaustedForeignBeforeRetry,
    /// Give up: both requests went unanswered.
    ExhaustedAfterRequests,
}

pub open spec fn sat_inc(x: u8) -> u8 {
    if x == u8::MAX {
        u8::MAX
    } else {
        (x + 1) as u8
    }
}

/// The probe once a request is made: one more request, and its window
/// starts.
pub open spec fn spec_recorded(p: RathalosAcquireProbe) -> RathalosAcquireProbe {
    RathalosAcquireProbe { request_count: sat_inc(p.request_count), frames_since_request: 0, ..p }
}

/// One frame of the Rathalos acquisition, from the probe, whether the
/// requested item is held now, and whether a foreign item sits on the host.
/// A decision to request records the request; a decision to give up leaves
/// an empty probe.
pub open spec fn spec_rathalos_step(p: RathalosAcquireProbe, item_held: bool, foreign_item: bool) -> (
    RathalosAcquireProbe,
    RathalosAcquireDecision,
) {
    if p.request_count == 0 {
        let settled = RathalosAcquireProbe { host_settle_frames: sat_inc(p.host_settle_frames), ..p };
        if settled.host_settle_frames < RATHALOS_HOST_SETTLE_FRAMES {
            (settled, RathalosAcquireDecision::AwaitHostSettle { first: settled.host_settle_frames == 1 })
        } else if foreign_item {
            (RathalosAcquireProbe::spec_empty(), RathalosAcquireDecision::ExhaustedForeignBeforeInitial)
        } else {
            (spec_recorded(settled), RathalosAcquireDecision::RequestInitial)
        }
    } else if item_held {
        (p, RathalosAcquireDecision::Activate)
    } else {
        let waited = RathalosAcquireProbe { frames_since_request: sat_inc(p.frames_since_request), ..p };
        if waited.frames_since_request < RATHALOS_ACQUIRE_SETTLE_FRAMES {
            (waited, RathalosAcquireDecision::WaitForItem)
        } else if waited.request_count < RATHALOS_MAX_ACQUIRE_REQUESTS {
            if foreign_item {
                (RathalosAcquireProbe::spec_empty(), RathalosAcquireDecision::ExhaustedForeignBeforeRetry)
            } else {
                (spec_recorded(waited), RathalosAcquireDecision::RequestRetry)
            }
        } else {
            (RathalosAcquireProbe::spec_empty(), RathalosAcquireDecision::ExhaustedAfterRequests)
        }
    }
}

/// Decides one frame of the Rathalos acquisition. `RequestInitial` and
/// `RequestRetry` are recorded in the probe; the caller then makes the
/// request.
pub fn rathalos_acquire_step(probe: &mut RathalosAcquireProbe, item_held: bool, foreign_item: bool) -> (r:
    RathalosAcquireDecision)
    ensures
        (*final(probe), r) == spec_rathalos_step(*old(probe), item_held, foreign_item),
{
    if probe.request_count == 0 {
        probe.host_settle_frames = probe.host_settle_frames.saturating_add(1);
        if !probe.host_settled() {
            return RathalosAcquireDecision::AwaitHostSettle { first: probe.host_settle_frames == 1 };
        }
        if foreign_item {
            *probe = RathalosAcquireProbe::empty();
            return RathalosAcquireDecision::ExhaustedForeignBeforeInitial;
        }
        probe.record_request();
        return RathalosAcquireDecision::RequestInitial;
    }
    if item_held {
        return RathalosAcquireDecision::Activate;
    }
    probe.frames_since_request = probe.frames_since_request.saturating_add(1);
    if !probe.observation_window_elapsed() {
        return RathalosAcquireDecision::WaitForItem;
    }
    if probe.can_retry() {
        if foreign_item {
            *probe = RathalosAcquireProbe::empty();
            return RathalosAcquireDecision::ExhaustedForeignBeforeRetry;
        }
        probe.record_request();
        return RathalosAcquireDecision::RequestRetry;
    }
    *probe = RathalosAcquireProbe::empty();
    RathalosAcquireDecision::ExhaustedAfterRequests
}

/// A request is only ever decided while fewer than two have been made: the
/// first with none made, the retry with one.
pub proof fn lemma_rathalos_requests_are_bounded(
    p: RathalosAcquireProbe,
    item_held: bool,
    foreign_item: bool,
)
    ensures
        spec_rathalos_step(p, item_held, foreign_item).1 == RathalosAcquireDecision::RequestInitial
            ==> p.request_count == 0,
        spec_rathalos_step(p, item_held, foreign_item).1 == RathalosAcquireDecision::RequestRetry
            ==> 0 < p.request_count < RATHALOS_MAX_ACQUIRE_REQUESTS,
{
}

/// Whether a decision ends the acquisition of the generation: the item is
/// activated, or the acquisition gives up.
pub open spec fn rathalos_decision_ends(d: RathalosAcquireDecision) -> bool {
    d == RathalosAcquireDecision::Activate || d == RathalosAcquireDecision::ExhaustedForeignBeforeInitial
        || d == RathalosAcquireDecision::ExhaustedForeignBeforeRetry || d
        == RathalosAcquireDecision::ExhaustedAfterRequests
}

pub open spec fn is_request(d: RathalosAcquireDecision) -> bool {
    d == RathalosAcquireDecision::RequestInitial || d == RathalosAcquireDecision::RequestRetry
}

/// The requests made over a run of frames, each a pair of whether the item
/// is held and whether a foreign item sits on the host, up to the frame that
/// ends the acquisition.
pub open spec fn spec_rathalos_requests(p: RathalosAcquireProbe, frames: Seq<(bool, bool)>) -> nat
    decreases frames.len(),
{
    if frames.len() == 0 {
        0
    } else {
        let (q, d) = spec_rathalos_step(p, frames[0].0, frames[0].1);
        if rathalos_decision_ends(d) {
            0
        } else {
            (if is_request(d) {
                1nat
            } else {
                0nat
            }) + spec_rathalos_requests(q, frames.drop_first())
        }
    }
}

/// A generation makes at most two Rathalos requests: from a probe that has
/// made `k` of them, whatever the frames bring, at most `2 - k` more are
/// made before the acquisition ends.
pub proof fn lemma_rathalos_generation_requests_at_most_two(
    p: RathalosAcquireProbe,
    frames: Seq<(bool, bool)>,
)
    requires
        p.request_count <= RATHALOS_MAX_ACQUIRE_REQUESTS,
    ensures
        spec_rathalos_requests(p, frames) + p.request_count <= RATHALOS_MAX_ACQUIRE_REQUESTS,
    decreases frames.len(),
{
    if frames.len() > 0 {
        let (q, d) = spec_rathalos_step(p, frames[0].0, frames[0].1);
        if !rathalos_decision_ends(d) {
            assert(is_request(d) ==> q.request_count == p.request_count + 1);
            assert(!is_request(d) ==> q.request_count == p.request_count);
            lemma_rathalos_generation_requests_at_most_two(q, frames.drop_first());
        }
    }
}

/// No request is made while the host settles: before any request, a run of
/// frames too short to complete the settling makes none.
pub proof fn lemma_rathalos_no_request_while_host_settles(
    p: RathalosAcquireProbe,
    frames: Seq<(bool, bool)>,
)
    requires
        p.request_count == 0,
        p.host_settle_frames + frames.len() < RATHALOS_HOST_SETTLE_FRAMES,
    ensures
        spec_rathalos_requests(p, frames) == 0,
    decreases frames.len(),
{
    if frames.len() > 0 {
        let (q, d) = spec_rathalos_step(p, frames[0].0, frames[0].1);
        assert(q.request_count == 0 && q.host_settle_frames == p.host_settle_frames + 1);
        assert(!is_request(d));
        lemma_rathalos_no_request_while_host_settles(q, frames.drop_first());
    }
}

/// A request is observed for its whole window before the next one: after a
/// request, a run of frames too short to close its window makes none.
pub proof fn lemma_rathalos_no_request_within_window(p: RathalosAcquireProbe, frames: Seq<(bool, bool)>)
    requires
        p.request_count > 0,
        p.frames_since_request + frames.len() < RATHALOS_ACQUIRE_SETTLE_FRAMES,
    ensures
        spec_rathalos_requests(p, frames) == 0,
    decreases frames.len(),
{
    if frames.len() > 0 {
        let (q, d) = spec_rathalos_step(p, frames[0].0, frames[0].1);
        if !rathalos_decision_ends(d) {
            assert(q.request_count == p.request_count);
            assert(q.frames_since_request == p.frames_since_request + 1);
            assert(!is_request(d));
            lemma_rathalos_no_request_within_window(q, frames.drop_first());
        }
    }
}

/// The interactive transform probe of a proof-pair preview, but for the
/// host posture it compares against, which the plugin keeps.
#[derive(Debug, Clone, Copy, PartialEq, Eq, Structural)]
pub struct InteractiveTransformProbe {
    pub stable_phase_entered: bool,
    pub stable_state_logged: bool,
    pub change_samples_remaining: u8,
    pub has_last_host_posture: bool,
}

/// What one callback of the interactive transform probe does: whether the
/// plugin captures the host posture as the one to compare against, whether
/// the stable-state line is written, and the number of the posture-change
/// sample written, if any.
#[derive(Debug, Clone, Copy, PartialEq, Eq, Structural)]
pub struct InteractiveProbeEmit {
    pub capture_posture: bool,
    pub stable_line: bool,
    pub change_sample: Option<u8>,
}

impl InteractiveTransformProbe {
    pub open spec fn spec_empty() -> InteractiveTransformProbe {
        InteractiveTransformProbe {
            stable_phase_entered: false,
            stable_state_logged: false,
            change_samples_remaining: 0,
            has_last_host_posture: false,
        }
    }

    /// Nothing observed yet.
    pub fn empty() -> (r: InteractiveTransformProbe)
        ensures
            r == InteractiveTransformProbe::spec_empty(),
    {
        InteractiveTransformProbe {
            stable_phase_entered: false,
            stable_state_logged: false,
            change_samples_remaining: 0,
            has_last_host_posture: false,
        }
    }
}

/// One callback of the interactive transform probe once its gate is open:
/// entering the stable phase opens a window of posture-change samples; the
/// first callback writes the stable state; later callbacks write a sample
/// for each change of the host posture while the window lasts.
pub open spec fn spec_interactive_probe_step(p: InteractiveTransformProbe, posture_changed: bool) -> (
    InteractiveTransformProbe,
    InteractiveProbeEmit,
) {
    let entered = !p.stable_phase_entered;
    let p1 = if entered {
        InteractiveTransformProbe {
            stable_phase_entered: true,
            change_samples_remaining: INTERACTIVE_TRANSFORM_CHANGE_SAMPLES,
            has_last_host_posture: true,
            ..p
        }
    } else {
        p
    };
    if !p1.stable_state_logged {
        (
            InteractiveTransformProbe { stable_state_logged: true, ..p1 },
            InteractiveProbeEmit { capture_posture: entered, stable_line: true, change_sample: None },
        )
    } else if p1.change_samples_remaining == 0 || !p1.has_last_host_posture || !posture_changed {
        (p1, InteractiveProbeEmit { capture_posture: entered, stable_line: false, change_sample: None })
    } else {
        let remaining = (p1.change_samples_remaining - 1) as u8;
        (
            InteractiveTransformProbe { change_samples_remaining: remaining, ..p1 },
            InteractiveProbeEmit {
                capture_posture: true,
                stable_line: false,
                change_sample: Some((INTERACTIVE_TRANSFORM_CHANGE_SAMPLES - remaining) as u8),
            },
        )
    }
}

/// One callback of the interactive transform probe. Only with debug logs
/// on, for a proof-pair preview whose host and item objects are present,
/// does it observe anything; otherwise the probe stays as it is.
/// `posture_changed` says whether the host posture differs from the one
/// last captured.
pub fn interactive_probe_step(
    probe: &mut InteractiveTransformProbe,
    route: &PreviewRoute,
    debug: bool,
    objects_present: bool,
    posture_changed: bool,
) -> (r: InteractiveProbeEmit)
    requires
        old(probe).change_samples_remaining <= INTERACTIVE_TRANSFORM_CHANGE_SAMPLES,
    ensures
        final(probe).change_samples_remaining <= INTERACTIVE_TRANSFORM_CHANGE_SAMPLES,
        !(debug && (route.key@ == MASTER_HAND_PREVIEW_KEY@ || route.key@ == MARX_PREVIEW_KEY@)
            && objects_present) ==> *final(probe) == *old(probe) && r == (InteractiveProbeEmit {
            capture_posture: false,
            stable_line: false,
            change_sample: None,
        }),
        (debug && (route.key@ == MASTER_HAND_PREVIEW_KEY@ || route.key@ == MARX_PREVIEW_KEY@)
            && objects_present) ==> (*final(probe), r) == spec_interactive_probe_step(
            *old(probe),
            posture_changed,
        ),
{
    if !is_transform_proof_pair_profile(route) || !debug || !objects_present {
        return InteractiveProbeEmit { capture_posture: false, stable_line: false, change_sample: None };
    }
    let entered = !probe.stable_phase_entered;
    if entered {
        probe.stable_phase_entered = true;
        probe.change_samples_remaining = INTERACTIVE_TRANSFORM_CHANGE_SAMPLES;
        probe.has_last_host_posture = true;
    }
    if !probe.stable_state_logged {
        probe.stable_state_logged = true;
        return InteractiveProbeEmit { capture_posture: entered, stable_line: true, change_sample: None };
    }
    if probe.change_samples_remaining == 0 || !probe.has_last_host_posture || !posture_changed {
        return InteractiveProbeEmit { capture_posture: entered, stable_line: false, change_sample: None };
    }
    probe.change_samples_remaining = probe.change_samples_remaining - 1;
    let sample = INTERACTIVE_TRANSFORM_CHANGE_SAMPLES - probe.change_samples_remaining;
    InteractiveProbeEmit { capture_posture: true, stable_line: false, change_sample: Some(sample) }
}

/// The probe writes at most its window of posture-change samples: a sample
/// is only ever written while the window has room, and it uses that room.
pub proof fn lemma_interactive_probe_is_bounded(p: InteractiveTransformProbe, posture_changed: bool)
    requires
        p.change_samples_remaining <= INTERACTIVE_TRANSFORM_CHANGE_SAMPLES,
    ensures
        ({
            let (q, e) = spec_interactive_probe_step(p, posture_changed);
            &&& q.change_samples_remaining <= INTERACTIVE_TRANSFORM_CHANGE_SAMPLES
            &&& e.change_sample is Some ==> q.change_samples_remaining + 1 == (if p.stable_phase_entered {
                p.change_samples_remaining
            } else {
                INTERACTIVE_TRANSFORM_CHANGE_SAMPLES
            })
            &&& e.change_sample is Some ==> 1 <= e.change_sample->0 <= INTERACTIVE_TRANSFORM_CHANGE_SAMPLES
        }),
{
}

/// The bounded window of the Galleom native-held attachment probe.
#[derive(Debug, Clone, Copy, PartialEq, Eq, Structural)]
pub struct NativeHeldAttachmentProbe {
    pub observed_frames: u8,
    pub observation_complete: bool,
    pub detachment_logged: bool,
}

impl NativeHeldAttachmentProbe {
    pub open spec fn spec_empty() -> NativeHeldAttachmentProbe {
        NativeHeldAttachmentProbe { observed_frames: 0, observation_complete: false, detachment_logged: false }
    }

    pub fn empty() -> (r: NativeHeldAttachmentProbe)
        ensures
            r == NativeHeldAttachmentProbe::spec_empty(),
    {
        NativeHeldAttachmentProbe {
            observed_frames: 0,
            observation_complete: false,
            detachment_logged: false,
        }
    }

    /// The native attachment is kept while the window runs and the host
    /// still holds the item.
    pub fn preserves_native_attachment(self, slot_still_held: bool) -> (r: bool)
        ensures
            r == (!self.observation_complete && slot_still_held && self.observed_frames
                < NATIVE_HELD_DIAGNOSTIC_FRAMES),
    {
        !self.observation_complete && slot_still_held && self.observed_frames
            < NATIVE_HELD_DIAGNOSTIC_FRAMES
    }
}

/// Whether the viewer leaves the attachment to the native hold this frame.
pub fn observing_native_held_attachment(
    mode: AmiiboAttachmentMode,
    probe: NativeHeldAttachmentProbe,
    slot_still_held: bool,
) -> (r: bool)
    ensures
        r == (mode == AmiiboAttachmentMode::NativeHeldDiagnostic && !probe.observation_complete
            && slot_still_held && probe.observed_frames < NATIVE_HELD_DIAGNOSTIC_FRAMES),
{
    mode == AmiiboAttachmentMode::NativeHeldDiagnostic && probe.preserves_native_attachment(
        slot_still_held,
    )
}

/// What one callback of the native-held probe observed, for the plugin to
/// log.
#[derive(Debug, Clone, Copy, PartialEq, Eq, Structural)]
pub enum NativeHeldProbeEvent {
    /// The viewer is not in the native-held diagnostic mode.
    NotDiagnostic,
    /// The host let go of the item: the window is over. `first` says whether
    /// this is the first time the detachment is seen.
    Detached { first: bool },
    /// The native attachment is not being observed this callback.
    NotObserving,
    /// A frame of the window was observed; `window_complete` says whether
    /// it was the last.
    Observed { frame: u8, creation: bool, window_complete: bool },
}

/// The probe after one callback, and what the callback observed.
pub open spec fn spec_native_held_probe_step(
    p: NativeHeldAttachmentProbe,
    mode: AmiiboAttachmentMode,
    slot_still_held: bool,
    observing: bool,
    creation_frame: bool,
) -> (NativeHeldAttachmentProbe, NativeHeldProbeEvent) {
    if mode != AmiiboAttachmentMode::NativeHeldDiagnostic {
        (p, NativeHeldProbeEvent::NotDiagnostic)
    } else if !slot_still_held && !p.observation_complete {
        (
            NativeHeldAttachmentProbe { observation_complete: true, detachment_logged: true, ..p },
            NativeHeldProbeEvent::Detached { first: !p.detachment_logged },
        )
    } else if !observing {
        (p, NativeHeldProbeEvent::NotObserving)
    } else if creation_frame {
        (p, NativeHeldProbeEvent::Observed { frame: 0, creation: true, window_complete: false })
    } else {
        let frame: u8 = if p.observed_frames < 255 {
            (p.observed_frames + 1) as u8
        } else {
            255
        };
        let complete = frame >= NATIVE_HELD_DIAGNOSTIC_FRAMES;
        (
            NativeHeldAttachmentProbe {
                observed_frames: frame,
                observation_complete: p.observation_complete || complete,
                ..p
            },
            NativeHeldProbeEvent::Observed { frame, creation: false, window_complete: complete },
        )
    }
}

impl NativeHeldAttachmentProbe {
    /// One callback of the probe. `observing` says whether the viewer left
    /// the item to the native hold this callback, `creation_frame` whether
    /// the item was created in it.
    pub fn observe(
        &mut self,
        mode: AmiiboAttachmentMode,
        slot_still_held: bool,
        observing: bool,
        creation_frame: bool,
    ) -> (r: NativeHeldProbeEvent)
        ensures
            (*final(self), r) == spec_native_held_probe_step(
                *old(self),
                mode,
                slot_still_held,
                observing,
                creation_frame,
            ),
    {
        match mode {
            AmiiboAttachmentMode::NativeHeldDiagnostic => {},
            _ => return NativeHeldProbeEvent::NotDiagnostic,
        }
        if !slot_still_held && !self.observation_complete {
            self.observation_complete = true;
            let first = !self.detachment_logged;
            self.detachment_logged = true;
            return NativeHeldProbeEvent::Detached { first };
        }
        if !observing {
            return NativeHeldProbeEvent::NotObserving;
        }
        if creation_frame {
            return NativeHeldProbeEvent::Observed { frame: 0, creation: true, window_complete: false };
        }
        let frame = self.observed_frames.saturating_add(1);
        self.observed_frames = frame;
        let complete = frame >= NATIVE_HELD_DIAGNOSTIC_FRAMES;
        if complete {
            self.observation_complete = true;
        }
        NativeHeldProbeEvent::Observed { frame, creation: false, window_complete: complete }
    }
}

/// The probe is bounded: where the viewer observes the native hold only
/// while the window is open, the probe never counts past the window, a
/// completed window stays completed, and the detachment is reported as new
/// at most once.
pub proof fn lemma_native_held_probe_is_bounded(
    p: NativeHeldAttachmentProbe,
    mode: AmiiboAttachmentMode,
    slot_still_held: bool,
    observing: bool,
    creation_frame: bool,
)
    requires
        p.observed_frames <= NATIVE_HELD_DIAGNOSTIC_FRAMES,
        observing ==> !p.observation_complete && p.observed_frames < NATIVE_HELD_DIAGNOSTIC_FRAMES,
    ensures
        ({
            let (q, event) = spec_native_held_probe_step(p, mode, slot_still_held, observing, creation_frame);
            &&& q.observed_frames <= NATIVE_HELD_DIAGNOSTIC_FRAMES
            &&& p.observation_complete ==> q.observation_complete
            &&& p.detachment_logged ==> !(event matches NativeHeldProbeEvent::Detached { first } && first)
        }),
{
}

/// The plugin-owned channel that the debug calibration dials.
#[derive(Debug, Clone, Copy, PartialEq, Eq, Structural)]
pub enum CalibrationTarget {
    ItemRoot,
    ItemPosture,
    HostRoot,
}

pub const CALIBRATION_TARGET_COUNT: usize = 3;

impl CalibrationTarget {
    pub open spec fn spec_index(self) -> usize {
        match self {
            CalibrationTarget::ItemRoot => 0,
            CalibrationTarget::ItemPosture => 1,
            CalibrationTarget::HostRoot => 2,
        }
    }

    pub open spec fn spec_next(self) -> CalibrationTarget {
        match self {
            CalibrationTarget::ItemRoot => CalibrationTarget::ItemPosture,
            CalibrationTarget::ItemPosture => CalibrationTarget::HostRoot,
            CalibrationTarget::HostRoot => CalibrationTarget::ItemRoot,
        }
    }

    pub fn index(self) -> (r: usize)
        ensures
            r == self.spec_index(),
            r < CALIBRATION_TARGET_COUNT,
    {
        match self {
            CalibrationTarget::ItemRoot => 0,
            CalibrationTarget::ItemPosture => 1,
            CalibrationTarget::HostRoot => 2,
        }
    }

    pub fn name(self) -> (r: &'static str)
        ensures
            r@ == match self {
                CalibrationTarget::ItemRoot => "item_root"@,
                CalibrationTarget::ItemPosture => "item_posture"@,
                CalibrationTarget::HostRoot => "host_root"@,
            },
    {
        match self {
            CalibrationTarget::ItemRoot => "item_root",
            CalibrationTarget::ItemPosture => "item_posture",
            CalibrationTarget::HostRoot => "host_root",
        }
    }

    /// The next target in the cycle.
    pub fn next(self) -> (r: CalibrationTarget)
        ensures
            r == self.spec_next(),
    {
        match self {
            CalibrationTarget::ItemRoot => CalibrationTarget::ItemPosture,
            CalibrationTarget::ItemPosture => CalibrationTarget::HostRoot,
            CalibrationTarget::HostRoot => CalibrationTarget::ItemRoot,
        }
    }
}

/// The target cycle visits the three channels and comes back: three steps
/// return to the start, and each target has its own index.
pub proof fn lemma_calibration_cycle(t: CalibrationTarget, u: CalibrationTarget)
    ensures
        t.spec_next().spec_next().spec_next() == t,
        t.spec_next() != t,
        t.spec_next().spec_next() != t,
        t.spec_index() == u.spec_index() ==> t == u,
{
}

/// The name of a calibration axis.
pub fn calibration_axis_name(axis: usize) -> (r: &'static str)
    requires
        axis < 3,
    ensures
        r@ == if axis == 0 {
            "x"@
        } else if axis == 1 {
            "y"@
        } else {
            "z"@
        },
{
    if axis == 0 {
        "x"
    } else if axis == 1 {
        "y"
    } else {
        "z"
    }
}

/// Degrees that the coarse and fine calibration buttons turn an axis.
pub const CALIBRATION_COARSE_STEP: i32 = 15;
pub const CALIBRATION_FINE_STEP: i32 = 5;

/// The input side of the debug calibration state: which target and axis are
/// dialed, the chord and ATTACK hold, and the bounded input log. The dialed
/// angles themselves are kept by the plugin.
#[derive(Debug, Clone, Copy, PartialEq, Eq, Structural)]
pub struct CalibrationInputState {
    pub target: CalibrationTarget,
    pub axis: usize,
    pub chord_engaged: bool,
    pub attack_hold_frames: u16,
    pub attack_reset_consumed: bool,
    pub input_probe_samples_remaining: u8,
    pub last_input_bits: i32,
    pub has_last_input_bits: bool,
}

impl CalibrationInputState {
    pub open spec fn spec_empty() -> CalibrationInputState {
        CalibrationInputState {
            target: CalibrationTarget::ItemRoot,
            axis: 0,
            chord_engaged: false,
            attack_hold_frames: 0,
            attack_reset_consumed: false,
            input_probe_samples_remaining: CALIBRATION_INPUT_PROBE_SAMPLES,
            last_input_bits: 0,
            has_last_input_bits: false,
        }
    }

    /// The state of a new viewer generation: item root, x axis, nothing held,
    /// the full input log budget.
    pub fn empty() -> (r: CalibrationInputState)
        ensures
            r == CalibrationInputState::spec_empty(),
    {
        CalibrationInputState {
            target: CalibrationTarget::ItemRoot,
            axis: 0,
            chord_engaged: false,
            attack_hold_frames: 0,
            attack_reset_consumed: false,
            input_probe_samples_remaining: CALIBRATION_INPUT_PROBE_SAMPLES,
            last_input_bits: 0,
            has_last_input_bits: false,
        }
    }
}

/// The buttons read on one frame: the raw bits, what is held, and which
/// buttons were pressed this frame.
#[derive(Debug, Clone, Copy, PartialEq, Eq, Structural)]
pub struct CalibrationInput {
    pub raw_buttons: i32,
    pub guard: bool,
    pub catch: bool,
    pub attack: bool,
    pub jump_pressed: bool,
    pub appeal_hi_pressed: bool,
    pub appeal_lw_pressed: bool,
    pub appeal_s_r_pressed: bool,
    pub appeal_s_l_pressed: bool,
}

/// What one frame of calibration input asks the plugin to do, in this
/// order: log the input, log a snapshot, reset the target, log the axis or
/// target change, and turn the current axis by `delta_degrees`.
#[derive(Debug, Clone, Copy, PartialEq, Eq, Structural)]
pub struct CalibrationEffects {
    pub log_input: bool,
    pub snapshot: bool,
    pub reset_target: bool,
    pub axis_cycled: bool,
    pub target_cycled: bool,
    pub delta_degrees: i32,
}

pub open spec fn no_effects(log_input: bool) -> CalibrationEffects {
    CalibrationEffects {
        log_input,
        snapshot: false,
        reset_target: false,
        axis_cycled: false,
        target_cycled: false,
        delta_degrees: 0,
    }
}

pub open spec fn spec_calibration_delta(input: CalibrationInput) -> i32 {
    ((if input.appeal_hi_pressed {
        CALIBRATION_COARSE_STEP
    } else {
        0i32
    }) - (if input.appeal_lw_pressed {
        CALIBRATION_COARSE_STEP
    } else {
        0i32
    }) + (if input.appeal_s_r_pressed {
        CALIBRATION_FINE_STEP
    } else {
        0i32
    }) - (if input.appeal_s_l_pressed {
        CALIBRATION_FINE_STEP
    } else {
        0i32
    })) as i32
}

/// One frame of calibration input. Changed button bits are logged while the
/// log budget lasts. Without the GUARD+CATCH chord everything held is
/// released. With it: the first frame takes a snapshot; holding ATTACK for
/// the reset time resets the target once per hold, a shorter press cycles
/// the axis; JUMP cycles the target; the appeal buttons turn the axis.
pub open spec fn spec_calibration_step(s: CalibrationInputState, input: CalibrationInput) -> (
    CalibrationInputState,
    CalibrationEffects,
) {
    let changed = !s.has_last_input_bits || input.raw_buttons != s.last_input_bits;
    let log_input = changed && s.input_probe_samples_remaining > 0;
    let s1 = CalibrationInputState {
        last_input_bits: input.raw_buttons,
        has_last_input_bits: true,
        input_probe_samples_remaining: if log_input {
            (s.input_probe_samples_remaining - 1) as u8
        } else {
            s.input_probe_samples_remaining
        },
        ..s
    };
    if !(input.guard && input.catch) {
        (
            CalibrationInputState {
                chord_engaged: false,
                attack_hold_frames: 0,
                attack_reset_consumed: false,
                ..s1
            },
            no_effects(log_input),
        )
    } else {
        let snapshot = !s1.chord_engaged;
        let hold = if s1.attack_hold_frames == u16::MAX {
            u16::MAX
        } else {
            (s1.attack_hold_frames + 1) as u16
        };
        let reset = input.attack && hold >= CALIBRATION_RESET_HOLD_FRAMES && !s1.attack_reset_consumed;
        let cycle_axis = !input.attack && s1.attack_hold_frames > 0 && s1.attack_hold_frames
            < CALIBRATION_RESET_HOLD_FRAMES && !s1.attack_reset_consumed;
        let s2 = CalibrationInputState {
            chord_engaged: true,
            attack_hold_frames: if input.attack {
                hold
            } else {
                0
            },
            attack_reset_consumed: if input.attack {
                s1.attack_reset_consumed || reset
            } else {
                false
            },
            axis: if cycle_axis {
                ((s1.axis + 1) % 3) as usize
            } else {
                s1.axis
            },
            target: if input.jump_pressed {
                s1.target.spec_next()
            } else {
                s1.target
            },
            ..s1
        };
        (
            s2,
            CalibrationEffects {
                log_input,
                snapshot,
                reset_target: reset,
                axis_cycled: cycle_axis,
                target_cycled: input.jump_pressed,
                delta_degrees: spec_calibration_delta(input),
            },
        )
    }
}

/// Applies one frame of calibration input to the state and says what the
/// plugin does next. Only with debug logs on, for a proof-pair preview whose
/// host and item objects are both present, is the input read; otherwise the
/// state stays as it is and nothing is done.
pub fn process_transform_calibration_input(
    state: &mut CalibrationInputState,
    route: &PreviewRoute,
    debug: bool,
    objects_present: bool,
    input: &CalibrationInput,
) -> (r: CalibrationEffects)
    requires
        old(state).axis < 3,
    ensures
        !(debug && (route.key@ == MASTER_HAND_PREVIEW_KEY@ || route.key@ == MARX_PREVIEW_KEY@)
            && objects_present) ==> *final(state) == *old(state) && r == no_effects(false),
        (debug && (route.key@ == MASTER_HAND_PREVIEW_KEY@ || route.key@ == MARX_PREVIEW_KEY@)
            && objects_present) ==> (*final(state), r) == spec_calibration_step(*old(state), *input),
        final(state).axis < 3,
{
    if !debug || !is_transform_proof_pair_profile(route) || !objects_present {
        return CalibrationEffects {
            log_input: false,
            snapshot: false,
            reset_target: false,
            axis_cycled: false,
            target_cycled: false,
            delta_degrees: 0,
        };
    }
    let changed = !state.has_last_input_bits || input.raw_buttons != state.last_input_bits;
    state.last_input_bits = input.raw_buttons;
    state.has_last_input_bits = true;
    let log_input = changed && state.input_probe_samples_remaining > 0;
    if log_input {
        state.input_probe_samples_remaining = state.input_probe_samples_remaining - 1;
    }
    if !(input.guard && input.catch) {
        state.chord_engaged = false;
        state.attack_hold_frames = 0;
        state.attack_reset_consumed = false;
        return CalibrationEffects {
            log_input,
            snapshot: false,
            reset_target: false,
            axis_cycled: false,
            target_cycled: false,
            delta_degrees: 0,
        };
    }
    let snapshot = !state.chord_engaged;
    state.chord_engaged = true;
    let mut reset_target = false;
    let mut axis_cycled = false;
    if input.attack {
        state.attack_hold_frames = state.attack_hold_frames.saturating_add(1);
        if state.attack_hold_frames >= CALIBRATION_RESET_HOLD_FRAMES && !state.attack_reset_consumed {
            state.attack_reset_consumed = true;
            reset_target = true;
        }
    } else {
        let held_frames = state.attack_hold_frames;
        let reset_consumed = state.attack_reset_consumed;
        state.attack_hold_frames = 0;
        state.attack_reset_consumed = false;
        if held_frames > 0 && held_frames < CALIBRATION_RESET_HOLD_FRAMES && !reset_consumed {
            state.axis = (state.axis + 1) % 3;
            axis_cycled = true;
        }
    }
    if input.jump_pressed {
        state.target = state.target.next();
    }
    let mut delta: i32 = 0;
    if input.appeal_hi_pressed {
        delta = delta + CALIBRATION_COARSE_STEP;
    }
    if input.appeal_lw_pressed {
        delta = delta - CALIBRATION_COARSE_STEP;
    }
    if input.appeal_s_r_pressed {
        delta = delta + CALIBRATION_FINE_STEP;
    }
    if input.appeal_s_l_pressed {
        delta = delta - CALIBRATION_FINE_STEP;
    }
    CalibrationEffects {
        log_input,
        snapshot,
        reset_target,
        axis_cycled,
        target_cycled: input.jump_pressed,
        delta_degrees: delta,
    }
}

/// A reset happens at most once per ATTACK hold: once it has happened, the
/// frames that keep holding ATTACK do not reset again.
pub proof fn lemma_reset_once_per_hold(s: CalibrationInputState, input: CalibrationInput)
    requires
        s.attack_reset_consumed,
        input.attack,
    ensures
        !spec_calibration_step(s, input).1.reset_target,
        input.guard && input.catch ==> spec_calibration_step(s, input).0.attack_reset_consumed,
{
}

/// Releasing the chord forgets the ATTACK hold, so a later chord starts from
/// a clean hold and takes a fresh snapshot.
pub proof fn lemma_chord_release_clears_the_hold(s: CalibrationInputState, input: CalibrationInput)
    requires
        !(input.guard && input.catch),
    ensures
        !spec_calibration_step(s, input).0.chord_engaged,
        spec_calibration_step(s, input).0.attack_hold_frames == 0,
        !spec_calibration_step(s, input).0.attack_reset_consumed,
        spec_calibration_step(s, input).1.delta_degrees == 0,
{
}

/// The input log is bounded: it never logs more frames than its budget, and
/// each logged frame spends one.
pub proof fn lemma_input_log_is_bounded(s: CalibrationInputState, input: CalibrationInput)
    ensures
        spec_calibration_step(s, input).1.log_input ==> s.input_probe_samples_remaining > 0
            && spec_calibration_step(s, input).0.input_probe_samples_remaining
            == s.input_probe_samples_remaining - 1,
        !spec_calibration_step(s, input).1.log_input ==> spec_calibration_step(
            s,
            input,
        ).0.input_probe_samples_remaining == s.input_probe_samples_remaining,
{
}

/// What a frame of the figure viewer does before any presentation work.
#[derive(Debug, Clone, Copy, PartialEq, Eq, Structural)]
pub enum ViewerFrameStart {
    /// The viewer stage was left while a preview ran: reset it.
    LeaveViewer,
    /// Nothing to do this frame.
    Idle,
    /// The captured identity has no preview route: reset the preview.
    ResetMissingProfile,
    /// The boss cannot be shown here yet; `newly` when the preview enters
    /// the deferred phase on this frame.
    Defer { newly: bool },
    /// Show the boss from its item backing.
    Proceed,
}

/// How one viewer frame starts: outside the viewer stage a running preview
/// is reset; an inactive preview or a missing Mario host does nothing; the
/// captured identity must have a route; a native fighter route, a missing
/// backing, or a route not rolled out defers the preview.
pub open spec fn spec_viewer_frame_start(
    stage_id: i32,
    phase: AmiiboPreviewPhase,
    host_ready: bool,
    route: Option<PreviewRoute>,
) -> ViewerFrameStart {
    let newly = phase != AmiiboPreviewPhase::DeferredUntilSupported;
    if stage_id != crate::boss_helpers::STAGE_ID_AMIIBO_PREVIEW {
        if phase != AmiiboPreviewPhase::Inactive {
            ViewerFrameStart::LeaveViewer
        } else {
            ViewerFrameStart::Idle
        }
    } else if phase == AmiiboPreviewPhase::Inactive || !host_ready {
        ViewerFrameStart::Idle
    } else {
        match route {
            None => ViewerFrameStart::ResetMissingProfile,
            Some(r) => match spec_backing_source(r.key@) {
                Some((PreviewBackingKind::Item, _)) => if r.preview_kind
                    == BossAmiiboPreviewKind::ItemPresentation {
                    ViewerFrameStart::Proceed
                } else {
                    ViewerFrameStart::Defer { newly }
                },
                _ => ViewerFrameStart::Defer { newly },
            },
        }
    }
}

/// A viewer frame only shows a boss on the viewer stage, with an active
/// preview, its Mario host ready, and a route whose backing is an item that
/// is rolled out; leaving the viewer stage resets exactly a running preview;
/// Giga Bowser's native fighter route is always deferred; and a deferral is
/// news only for a preview not deferred already.
pub proof fn lemma_viewer_frame_proceeds_only_for_item_routes(
    stage_id: i32,
    phase: AmiiboPreviewPhase,
    host_ready: bool,
    route: Option<PreviewRoute>,
)
    ensures
        ({
            let start = spec_viewer_frame_start(stage_id, phase, host_ready, route);
            &&& start == ViewerFrameStart::Proceed ==> stage_id
                == crate::boss_helpers::STAGE_ID_AMIIBO_PREVIEW && phase
                != AmiiboPreviewPhase::Inactive && host_ready && route is Some
                && route->0.preview_kind == BossAmiiboPreviewKind::ItemPresentation
                && (spec_backing_source(route->0.key@) matches Some((kind, _)) && kind
                == PreviewBackingKind::Item)
            &&& stage_id != crate::boss_helpers::STAGE_ID_AMIIBO_PREVIEW ==> (start
                == ViewerFrameStart::LeaveViewer <==> phase != AmiiboPreviewPhase::Inactive)
            &&& stage_id != crate::boss_helpers::STAGE_ID_AMIIBO_PREVIEW ==> (start
                == ViewerFrameStart::LeaveViewer || start == ViewerFrameStart::Idle)
            &&& phase == AmiiboPreviewPhase::Inactive ==> start != ViewerFrameStart::Proceed
            &&& !host_ready ==> start != ViewerFrameStart::Proceed
            &&& route is Some && route->0.preview_kind == BossAmiiboPreviewKind::NativeFighterPresentation
                ==> start != ViewerFrameStart::Proceed
            &&& start == (ViewerFrameStart::Defer { newly: false }) ==> phase
                == AmiiboPreviewPhase::DeferredUntilSupported
            &&& start == (ViewerFrameStart::Defer { newly: true }) ==> phase
                != AmiiboPreviewPhase::DeferredUntilSupported
        }),
{
}

/// Decides how one viewer frame starts. `host_ready` is whether the frame's
/// fighter is the active Mario host; `route` is the route of the captured
/// identity.
pub fn viewer_frame_start(
    stage_id: i32,
    phase: AmiiboPreviewPhase,
    host_ready: bool,
    route: Option<PreviewRoute>,
) -> (r: ViewerFrameStart)
    ensures
        r == spec_viewer_frame_start(stage_id, phase, host_ready, route),
{
    let newly = match phase {
        AmiiboPreviewPhase::DeferredUntilSupported => false,
        _ => true,
    };
    let inactive = match phase {
        AmiiboPreviewPhase::Inactive => true,
        _ => false,
    };
    if stage_id != crate::boss_helpers::STAGE_ID_AMIIBO_PREVIEW {
        return if !inactive {
            ViewerFrameStart::LeaveViewer
        } else {
            ViewerFrameStart::Idle
        };
    }
    if inactive || !host_ready {
        return ViewerFrameStart::Idle;
    }
    match route {
        None => ViewerFrameStart::ResetMissingProfile,
        Some(r) => match verified_presentation_backing(r.key) {
            Some(b) => match b.kind {
                PreviewBackingKind::Item => if profile_rollout_enabled(&r) {
                    ViewerFrameStart::Proceed
                } else {
                    ViewerFrameStart::Defer { newly }
                },
                PreviewBackingKind::NativeFighter => ViewerFrameStart::Defer { newly },
            },
            None => ViewerFrameStart::Defer { newly },
        },
    }
}

/// Every catalogue route has a presentation backing, so a viewer frame never
/// defers a catalogue boss for want of one.
pub proof fn lemma_every_catalogue_route_has_a_backing(i: int)
    requires
        0 <= i < 11,
    ensures
        spec_backing_source(spec_preview_routes()[i].key@) is Some,
{
    reveal_strlit("master_hand");
    reveal_strlit("crazy_hand");
    reveal_strlit("wol_master_hand");
    reveal_strlit("galeem");
    reveal_strlit("dharkon");
    reveal_strlit("dracula");
    reveal_strlit("ganon_boss");
    reveal_strlit("galleom");
    reveal_strlit("rathalos");
    reveal_strlit("marx");
    reveal_strlit("giga_bowser");
    assert(i == 0 || i == 1 || i == 2 || i == 3 || i == 4 || i == 5 || i == 6 || i == 7 || i == 8
        || i == 9 || i == 10);
}

/// The character ids of the preview routes are pairwise different.
proof fn lemma_route_ids_distinct()
    ensures
        forall|j: int, k: int|
            0 <= j < 11 && 0 <= k < 11 && j != k ==> #[trigger] spec_preview_routes()[j].ui_chara_id@
                != #[trigger] spec_preview_routes()[k].ui_chara_id@,
{
    let r = spec_preview_routes();
    reveal_strlit("ui_chara_masterhand");
    reveal_strlit("ui_chara_crazyhand");
    reveal_strlit("ui_chara_mewtwo_masterhand");
    reveal_strlit("ui_chara_kiila");
    reveal_strlit("ui_chara_darz");
    reveal_strlit("ui_chara_dracula");
    reveal_strlit("ui_chara_ganonboss");
    reveal_strlit("ui_chara_galleom");
    reveal_strlit("ui_chara_lioleus");
    reveal_strlit("ui_chara_marx");
    reveal_strlit("ui_chara_koopag");
    assert(r[0].ui_chara_id@.len() == 19);
    assert(r[1].ui_chara_id@.len() == 18);
    assert(r[2].ui_chara_id@.len() == 26);
    assert(r[3].ui_chara_id@.len() == 14);
    assert(r[4].ui_chara_id@.len() == 13);
    assert(r[5].ui_chara_id@.len() == 16);
    assert(r[6].ui_chara_id@.len() == 18);
    assert(r[7].ui_chara_id@.len() == 16);
    assert(r[8].ui_chara_id@.len() == 16);
    assert(r[9].ui_chara_id@.len() == 13);
    assert(r[10].ui_chara_id@.len() == 15);
    assert(r[1].ui_chara_id@[9] == 'c' && r[6].ui_chara_id@[9] == 'g');
    assert(r[5].ui_chara_id@[9] == 'd' && r[7].ui_chara_id@[9] == 'g' && r[8].ui_chara_id@[9] == 'l');
    assert(r[4].ui_chara_id@[9] == 'd' && r[9].ui_chara_id@[9] == 'm');
    assert forall|j: int, k: int|
        0 <= j < 11 && 0 <= k < 11 && j != k implies #[trigger] r[j].ui_chara_id@
            != #[trigger] r[k].ui_chara_id@ by {
        assert(j == 0 || j == 1 || j == 2 || j == 3 || j == 4 || j == 5 || j == 6 || j == 7 || j
            == 8 || j == 9 || j == 10);
        assert(k == 0 || k == 1 || k == 2 || k == 3 || k == 4 || k == 5 || k == 6 || k == 7 || k
            == 8 || k == 9 || k == 10);
    }
}

proof fn lemma_route_index_from_first(ui: Seq<char>, i: int, from: int)
    requires
        0 <= from <= i < 11,
        spec_preview_routes()[i].ui_chara_id@ == ui,
        forall|j: int| from <= j < i ==> spec_preview_routes()[j].ui_chara_id@ != ui,
    ensures
        route_index_from(spec_preview_routes(), ui, from) == Some(i),
    decreases i - from,
{
    if from < i {
        lemma_route_index_from_first(ui, i, from + 1);
    }
}

/// Every catalogue boss has exactly its own preview route: looking its
/// character id up finds the route at its own place, with its key.
pub proof fn lemma_every_identity_has_its_preview_route(i: int)
    requires
        0 <= i < 11,
    ensures
        route_index_from(spec_preview_routes(), spec_boss_identities()[i].ui_chara_id@, 0) == Some(i),
        spec_preview_routes()[i].key@ == spec_boss_identities()[i].key@,
        spec_preview_routes()[i].ui_chara_id@ == spec_boss_identities()[i].ui_chara_id@,
{
    reveal_strlit("ui_chara_masterhand");
    reveal_strlit("ui_chara_crazyhand");
    reveal_strlit("ui_chara_mewtwo_masterhand");
    reveal_strlit("ui_chara_kiila");
    reveal_strlit("ui_chara_darz");
    reveal_strlit("ui_chara_dracula");
    reveal_strlit("ui_chara_ganonboss");
    reveal_strlit("ui_chara_galleom");
    reveal_strlit("ui_chara_lioleus");
    reveal_strlit("ui_chara_marx");
    reveal_strlit("ui_chara_koopag");
    assert(i == 0 || i == 1 || i == 2 || i == 3 || i == 4 || i == 5 || i == 6 || i == 7 || i == 8
        || i == 9 || i == 10);
    lemma_route_ids_distinct();
    let ui = spec_boss_identities()[i].ui_chara_id@;
    assert forall|j: int| 0 <= j < i implies spec_preview_routes()[j].ui_chara_id@ != ui by {
        assert(spec_preview_routes()[j].ui_chara_id@ != spec_preview_routes()[i].ui_chara_id@);
    }
    lemma_route_index_from_first(ui, i, 0);
}

/// The per-viewer state of the figure preview, but for the positions and
/// angles the plugin keeps beside it: the captured identity and where it
/// came from, the presentation objects, the probes, the calibration input
/// and the one-shot log flags, and which ignored catalogue lookups were
/// already logged, one bit per route.
#[derive(Debug, Clone, Copy, PartialEq, Eq, Structural)]
pub struct PreviewSession {
    pub phase: AmiiboPreviewPhase,
    pub logical_ui_hash: u64,
    pub identity_source: AmiiboPreviewIdentitySource,
    pub host_object_id: u32,
    pub presentation_object_id: u32,
    pub expected_item_kind: i32,
    pub presentation_slot: i32,
    pub ownership: AmiiboPreviewOwnership,
    pub viewer_generation: u32,
    pub host_hidden: bool,
    pub create_attempted: bool,
    pub stabilization_reacquire_used: bool,
    pub transform_stabilization_frames_remaining: u8,
    pub attachment_mode: AmiiboAttachmentMode,
    pub native_held_attachment_probe: NativeHeldAttachmentProbe,
    pub rathalos_acquire_probe: RathalosAcquireProbe,
    pub calibration: CalibrationInputState,
    pub transform_comparison_samples_remaining: u8,
    pub transform_comparison_complete: bool,
    pub interactive_probe: InteractiveTransformProbe,
    pub transform_ready_logged: bool,
    pub native_transform_reset_logged: bool,
    pub ready_visual_logged: bool,
    pub visual_ready_blocked_logged: bool,
    pub visibility_reassertion_used: bool,
    pub last_item_visible: Option<bool>,
    pub last_item_model_visible: Option<bool>,
    pub ignored_lookup_mask: u16,
}

/// What a character lookup did to the preview identity.
#[derive(Debug, Clone, Copy)]
pub enum IdentityLookupOutcome {
    /// Not a boss, or a boss without a configured preview.
    NotPreviewed,
    /// A catalogue lookup, ignored and worth one log line for its route.
    IgnoredLogged { route: PreviewRoute, reason: &'static str },
    /// A catalogue lookup already logged for its route.
    IgnoredQuiet,
    /// The identity was captured before; nothing changes.
    AlreadyLocked,
    /// A new identity is captured: the plugin starts a fresh generation.
    Locked { route: PreviewRoute },
}

/// The phases in which a captured identity is still in use.
pub open spec fn identity_in_use(phase: AmiiboPreviewPhase) -> bool {
    phase == AmiiboPreviewPhase::IdentityCaptured || phase == AmiiboPreviewPhase::WaitingForViewerHost
        || phase == AmiiboPreviewPhase::CreatingPresentation || phase == AmiiboPreviewPhase::Ready
        || phase == AmiiboPreviewPhase::DeferredUntilSupported
}

/// The session with a newly captured identity: the identity and its source
/// are set, and everything the last generation tried, probed, calibrated or
/// logged is forgotten. The objects, the ownership and the generation
/// counter stay.
pub open spec fn spec_captured_session(s: PreviewSession, ui_chara_hash: u64) -> PreviewSession {
    PreviewSession {
        phase: AmiiboPreviewPhase::IdentityCaptured,
        logical_ui_hash: ui_chara_hash,
        identity_source: AmiiboPreviewIdentitySource::ProvisionalDirectUiLookup,
        create_attempted: false,
        stabilization_reacquire_used: false,
        transform_stabilization_frames_remaining: 0,
        attachment_mode: AmiiboAttachmentMode::ViewerAnchor,
        native_held_attachment_probe: NativeHeldAttachmentProbe::spec_empty(),
        rathalos_acquire_probe: RathalosAcquireProbe::spec_empty(),
        calibration: CalibrationInputState::spec_empty(),
        transform_comparison_samples_remaining: 0,
        transform_comparison_complete: false,
        interactive_probe: InteractiveTransformProbe::spec_empty(),
        transform_ready_logged: false,
        native_transform_reset_logged: false,
        ready_visual_logged: false,
        visual_ready_blocked_logged: false,
        visibility_reassertion_used: false,
        last_item_visible: None,
        last_item_model_visible: None,
        ignored_lookup_mask: 0,
        ..s
    }
}

impl PreviewSession {
    pub open spec fn spec_new() -> PreviewSession {
        PreviewSession {
            phase: AmiiboPreviewPhase::Inactive,
            logical_ui_hash: 0,
            identity_source: AmiiboPreviewIdentitySource::Unset,
            host_object_id: 0,
            presentation_object_id: 0,
            expected_item_kind: -1i32,
            presentation_slot: -1i32,
            ownership: AmiiboPreviewOwnership::Unowned,
            viewer_generation: 0,
            host_hidden: false,
            create_attempted: false,
            stabilization_reacquire_used: false,
            transform_stabilization_frames_remaining: 0,
            attachment_mode: AmiiboAttachmentMode::ViewerAnchor,
            native_held_attachment_probe: NativeHeldAttachmentProbe::spec_empty(),
            rathalos_acquire_probe: RathalosAcquireProbe::spec_empty(),
            calibration: CalibrationInputState::spec_empty(),
            transform_comparison_samples_remaining: 0,
            transform_comparison_complete: false,
            interactive_probe: InteractiveTransformProbe::spec_empty(),
            transform_ready_logged: false,
            native_transform_reset_logged: false,
            ready_visual_logged: false,
            visual_ready_blocked_logged: false,
            visibility_reassertion_used: false,
            last_item_visible: None,
            last_item_model_visible: None,
            ignored_lookup_mask: 0,
        }
    }

    /// No identity, no objects, nothing tried.
    pub fn new() -> (r: PreviewSession)
        ensures
            r == PreviewSession::spec_new(),
    {
        PreviewSession {
            phase: AmiiboPreviewPhase::Inactive,
            logical_ui_hash: 0,
            identity_source: AmiiboPreviewIdentitySource::Unset,
            host_object_id: 0,
            presentation_object_id: 0,
            expected_item_kind: -1,
            presentation_slot: -1,
            ownership: AmiiboPreviewOwnership::Unowned,
            viewer_generation: 0,
            host_hidden: false,
            create_attempted: false,
            stabilization_reacquire_used: false,
            transform_stabilization_frames_remaining: 0,
            attachment_mode: AmiiboAttachmentMode::ViewerAnchor,
            native_held_attachment_probe: NativeHeldAttachmentProbe::empty(),
            rathalos_acquire_probe: RathalosAcquireProbe::empty(),
            calibration: CalibrationInputState::empty(),
            transform_comparison_samples_remaining: 0,
            transform_comparison_complete: false,
            interactive_probe: InteractiveTransformProbe::empty(),
            transform_ready_logged: false,
            native_transform_reset_logged: false,
            ready_visual_logged: false,
            visual_ready_blocked_logged: false,
            visibility_reassertion_used: false,
            last_item_visible: None,
            last_item_model_visible: None,
            ignored_lookup_mask: 0,
        }
    }

    /// Observes a character lookup. Only a configured boss counts. A direct
    /// figure lookup captures its identity, unless that identity is already
    /// in use; a catalogue lookup never does, and is logged once per route.
    pub fn observe_logical_identity_lookup(
        &mut self,
        allowlist: &PreviewAllowlist,
        raw_ui_hash: u64,
        ui_chara_hash: u64,
    ) -> (r: IdentityLookupOutcome)
        ensures
            ({
                let found = route_hash_index_from(spec_preview_routes(), ui_chara_hash, 0);
                let configured = allowlist.hashes@.contains(ui_chara_hash);
                let direct = raw_ui_hash & DIRECT_UI_LOOKUP_TAG_MASK == DIRECT_UI_LOOKUP_TAG;
                let old_s = *old(self);
                let new_s = *final(self);
                &&& new_s == spec_session_after_lookup(old_s, allowlist.hashes@, raw_ui_hash, ui_chara_hash)
                &&& if found is None || !configured {
                    r matches IdentityLookupOutcome::NotPreviewed
                } else if !direct {
                    if old_s.ignored_lookup_mask & (1u16 << (found->0 as u16)) != 0 {
                        r matches IdentityLookupOutcome::IgnoredQuiet
                    } else {
                        &&& r matches IdentityLookupOutcome::IgnoredLogged { route, reason }
                        &&& route == spec_preview_routes()[found->0]
                        &&& reason@ == if old_s.identity_source
                            == AmiiboPreviewIdentitySource::Unset {
                            "generic_ui_enumeration_no_scan_provenance"@
                        } else {
                            "preview_identity_candidate_bound"@
                        }
                    }
                } else if old_s.logical_ui_hash == ui_chara_hash && old_s.identity_source
                    == AmiiboPreviewIdentitySource::ProvisionalDirectUiLookup && identity_in_use(
                    old_s.phase,
                ) {
                    r matches IdentityLookupOutcome::AlreadyLocked
                } else {
                    &&& r matches IdentityLookupOutcome::Locked { route }
                    &&& route == spec_preview_routes()[found->0]
                }
            }),
    {
        proof {
            lemma_route_hash_index_bounds(spec_preview_routes(), ui_chara_hash, 0);
        }
        let index = match route_index_for_hash(ui_chara_hash) {
            Some(i) => i,
            None => return IdentityLookupOutcome::NotPreviewed,
        };
        if !allowlist.configured_for_preview(ui_chara_hash) {
            return IdentityLookupOutcome::NotPreviewed;
        }
        let routes = preview_routes();
        let route = routes[index];
        if !is_direct_amiibo_identity_lookup(raw_ui_hash) {
            let bit: u16 = 1u16 << (index as u16);
            if self.ignored_lookup_mask & bit != 0 {
                return IdentityLookupOutcome::IgnoredQuiet;
            }
            self.ignored_lookup_mask = self.ignored_lookup_mask | bit;
            let reason = match self.identity_source {
                AmiiboPreviewIdentitySource::Unset => "generic_ui_enumeration_no_scan_provenance",
                AmiiboPreviewIdentitySource::ProvisionalDirectUiLookup =>
                    "preview_identity_candidate_bound",
            };
            return IdentityLookupOutcome::IgnoredLogged { route, reason };
        }
        let in_use = match self.phase {
            AmiiboPreviewPhase::IdentityCaptured => true,
            AmiiboPreviewPhase::WaitingForViewerHost => true,
            AmiiboPreviewPhase::CreatingPresentation => true,
            AmiiboPreviewPhase::Ready => true,
            AmiiboPreviewPhase::DeferredUntilSupported => true,
            _ => false,
        };
        let same_source = match self.identity_source {
            AmiiboPreviewIdentitySource::ProvisionalDirectUiLookup => true,
            _ => false,
        };
        if self.logical_ui_hash == ui_chara_hash && same_source && in_use {
            return IdentityLookupOutcome::AlreadyLocked;
        }
        self.logical_ui_hash = ui_chara_hash;
        self.identity_source = AmiiboPreviewIdentitySource::ProvisionalDirectUiLookup;
        self.phase = AmiiboPreviewPhase::IdentityCaptured;
        self.create_attempted = false;
        self.stabilization_reacquire_used = false;
        self.transform_stabilization_frames_remaining = 0;
        self.attachment_mode = AmiiboAttachmentMode::ViewerAnchor;
        self.native_held_attachment_probe = NativeHeldAttachmentProbe::empty();
        self.rathalos_acquire_probe = RathalosAcquireProbe::empty();
        self.calibration = CalibrationInputState::empty();
        self.transform_comparison_samples_remaining = 0;
        self.transform_comparison_complete = false;
        self.interactive_probe = InteractiveTransformProbe::empty();
        self.transform_ready_logged = false;
        self.native_transform_reset_logged = false;
        self.ready_visual_logged = false;
        self.visual_ready_blocked_logged = false;
        self.visibility_reassertion_used = false;
        self.last_item_visible = None;
        self.last_item_model_visible = None;
        self.ignored_lookup_mask = 0;
        IdentityLookupOutcome::Locked { route }
    }

    /// A character-select callback discards an identity that no figure scan
    /// bound and whose viewer has not started; a figure identity stays. The
    /// result says whether it was discarded.
    pub fn discard_unbound_identity_from_raw_selection_callback(&mut self) -> (r: bool)
        ensures
            r == (old(self).identity_source == AmiiboPreviewIdentitySource::Unset && (old(
                self,
            ).phase == AmiiboPreviewPhase::IdentityCaptured || old(self).phase
                == AmiiboPreviewPhase::WaitingForViewerHost)),
            r ==> *final(self) == (PreviewSession {
                logical_ui_hash: 0,
                phase: AmiiboPreviewPhase::Inactive,
                ..*old(self)
            }),
            !r ==> *final(self) == *old(self),
    {
        let unbound = match self.identity_source {
            AmiiboPreviewIdentitySource::Unset => true,
            _ => false,
        };
        let early = match self.phase {
            AmiiboPreviewPhase::IdentityCaptured => true,
            AmiiboPreviewPhase::WaitingForViewerHost => true,
            _ => false,
        };
        if !unbound || !early {
            return false;
        }
        self.logical_ui_hash = 0;
        self.phase = AmiiboPreviewPhase::Inactive;
        true
    }

    /// Takes over the item that the host now holds as the presentation,
    /// where it is the kind that was asked for: the object, kind, slot and
    /// host-slot ownership are recorded, the last presentation's flags,
    /// probes and calibration input are forgotten, the stabilisation window
    /// starts, the host is hidden and the viewer is ready. An item of another
    /// kind is refused: the host is shown again, the Rathalos probe starts
    /// over and the preview is deferred. The result says whether the item was
    /// taken over; the plugin removes a refused item and poses an adopted one.
    pub fn activate_verified_item_presentation(
        &mut self,
        requested_item_kind: i32,
        acquired_kind: i32,
        slot: i32,
        presentation_id: u32,
    ) -> (r: bool)
        ensures
            r == (acquired_kind == requested_item_kind),
            !r ==> *final(self) == (PreviewSession {
                host_hidden: false,
                rathalos_acquire_probe: RathalosAcquireProbe::spec_empty(),
                phase: AmiiboPreviewPhase::DeferredUntilSupported,
                ..*old(self)
            }),
            r ==> *final(self) == (PreviewSession {
                presentation_object_id: presentation_id,
                expected_item_kind: requested_item_kind,
                presentation_slot: slot,
                ownership: AmiiboPreviewOwnership::HostSlot,
                ready_visual_logged: false,
                visual_ready_blocked_logged: false,
                visibility_reassertion_used: false,
                last_item_visible: None,
                last_item_model_visible: None,
                rathalos_acquire_probe: RathalosAcquireProbe::spec_empty(),
                transform_comparison_samples_remaining: 0,
                transform_comparison_complete: false,
                interactive_probe: InteractiveTransformProbe::spec_empty(),
                calibration: CalibrationInputState::spec_empty(),
                transform_stabilization_frames_remaining: PREVIEW_TRANSFORM_STABILIZATION_FRAMES,
                host_hidden: true,
                phase: AmiiboPreviewPhase::Ready,
                ..*old(self)
            }),
    {
        if acquired_kind != requested_item_kind {
            self.defer_rathalos_presentation();
            return false;
        }
        self.presentation_object_id = presentation_id;
        self.expected_item_kind = requested_item_kind;
        self.presentation_slot = slot;
        self.ownership = AmiiboPreviewOwnership::HostSlot;
        self.ready_visual_logged = false;
        self.visual_ready_blocked_logged = false;
        self.visibility_reassertion_used = false;
        self.last_item_visible = None;
        self.last_item_model_visible = None;
        self.rathalos_acquire_probe = RathalosAcquireProbe::empty();
        self.transform_comparison_samples_remaining = 0;
        self.transform_comparison_complete = false;
        self.interactive_probe = InteractiveTransformProbe::empty();
        self.calibration = CalibrationInputState::empty();
        self.transform_stabilization_frames_remaining = PREVIEW_TRANSFORM_STABILIZATION_FRAMES;
        self.host_hidden = true;
        self.phase = AmiiboPreviewPhase::Ready;
        true
    }

    /// Gives the Rathalos presentation up for this viewer: the host is shown
    /// again, the acquisition probe starts over and the preview is deferred.
    pub fn defer_rathalos_presentation(&mut self)
        ensures
            *final(self) == (PreviewSession {
                host_hidden: false,
                rathalos_acquire_probe: RathalosAcquireProbe::spec_empty(),
                phase: AmiiboPreviewPhase::DeferredUntilSupported,
                ..*old(self)
            }),
    {
        self.host_hidden = false;
        self.rathalos_acquire_probe = RathalosAcquireProbe::empty();
        self.phase = AmiiboPreviewPhase::DeferredUntilSupported;
    }

    /// How the presentation item is removed when the viewer lets it go.
    /// `host_id` is the viewer host's object, `item` what could be read of the
    /// presentation object, `host_slot` the host's slot that holds it, if any.
    pub fn presentation_removal(&self, host_id: u32, item: PresentationItemRead, host_slot: Option<i32>) -> (r:
        PresentationRemoval)
        ensures
            r == spec_presentation_removal(*self, host_id, item, host_slot),
    {
        if self.presentation_object_id == 0 {
            return PresentationRemoval::NotActive;
        }
        match item {
            PresentationItemRead::NotActive => PresentationRemoval::NotActive,
            PresentationItemRead::Unreadable => PresentationRemoval::ModuleAccessorUnavailable,
            PresentationItemRead::Readable { kind } => {
                if kind != self.expected_item_kind {
                    PresentationRemoval::RefuseKindMismatch
                } else if host_id != 0 && host_id == self.host_object_id {
                    match host_slot {
                        Some(slot) => PresentationRemoval::RemoveHostSlot { slot },
                        None => PresentationRemoval::RemoveDetachedNativeOwned,
                    }
                } else {
                    PresentationRemoval::RemoveDetachedWithoutHost
                }
            },
        }
    }

    /// Whether letting the presentation go shows the viewer host again: only
    /// the hidden host that this viewer owns.
    pub fn restores_viewer_host(&self, host_id: u32) -> (r: bool)
        ensures
            r == (self.host_hidden && host_id != 0 && host_id == self.host_object_id),
    {
        self.host_hidden && host_id != 0 && host_id == self.host_object_id
    }

    /// Forgets the presentation after it was let go: no object, kind, slot,
    /// ownership or host; the host is shown; the stabilisation window, the
    /// probes, the comparison, the calibration input and the one-shot flags
    /// start over. The identity, its phase and the generation stay.
    pub fn forget_presentation(&mut self)
        ensures
            *final(self) == (PreviewSession {
                presentation_object_id: 0,
                expected_item_kind: -1i32,
                presentation_slot: -1i32,
                ownership: AmiiboPreviewOwnership::Unowned,
                host_object_id: 0,
                host_hidden: false,
                transform_stabilization_frames_remaining: 0,
                attachment_mode: AmiiboAttachmentMode::ViewerAnchor,
                native_held_attachment_probe: NativeHeldAttachmentProbe::spec_empty(),
                rathalos_acquire_probe: RathalosAcquireProbe::spec_empty(),
                transform_comparison_samples_remaining: 0,
                transform_comparison_complete: false,
                interactive_probe: InteractiveTransformProbe::spec_empty(),
                calibration: CalibrationInputState::spec_empty(),
                transform_ready_logged: false,
                native_transform_reset_logged: false,
                ready_visual_logged: false,
                visual_ready_blocked_logged: false,
                visibility_reassertion_used: false,
                last_item_visible: None,
                last_item_model_visible: None,
                ..*old(self)
            }),
    {
        self.presentation_object_id = 0;
        self.expected_item_kind = -1;
        self.presentation_slot = -1;
        self.ownership = AmiiboPreviewOwnership::Unowned;
        self.host_object_id = 0;
        self.host_hidden = false;
        self.transform_stabilization_frames_remaining = 0;
        self.attachment_mode = AmiiboAttachmentMode::ViewerAnchor;
        self.native_held_attachment_probe = NativeHeldAttachmentProbe::empty();
        self.rathalos_acquire_probe = RathalosAcquireProbe::empty();
        self.transform_comparison_samples_remaining = 0;
        self.transform_comparison_complete = false;
        self.interactive_probe = InteractiveTransformProbe::empty();
        self.calibration = CalibrationInputState::empty();
        self.transform_ready_logged = false;
        self.native_transform_reset_logged = false;
        self.ready_visual_logged = false;
        self.visual_ready_blocked_logged = false;
        self.visibility_reassertion_used = false;
        self.last_item_visible = None;
        self.last_item_model_visible = None;
    }

    /// Defers the viewer after its presentation was let go: the identity is
    /// kept until the native viewer exits, and no new creation is tried.
    pub fn defer_current_viewer_presentation(&mut self)
        ensures
            *final(self) == (PreviewSession {
                phase: AmiiboPreviewPhase::DeferredUntilSupported,
                create_attempted: true,
                ..*old(self)
            }),
    {
        self.phase = AmiiboPreviewPhase::DeferredUntilSupported;
        self.create_attempted = true;
    }

    /// Records what the presentation's visibility is now; the result says
    /// whether it differs from what was last recorded.
    pub fn observe_presentation_visibility(&mut self, item_visible: bool, item_model_visible: bool) -> (r:
        bool)
        ensures
            r == (old(self).last_item_visible != Some(item_visible) || old(self).last_item_model_visible
                != Some(item_model_visible)),
            *final(self) == (PreviewSession {
                last_item_visible: Some(item_visible),
                last_item_model_visible: Some(item_model_visible),
                ..*old(self)
            }),
    {
        let same_item = match self.last_item_visible {
            Some(v) => v == item_visible,
            None => false,
        };
        let same_model = match self.last_item_model_visible {
            Some(v) => v == item_model_visible,
            None => false,
        };
        self.last_item_visible = Some(item_visible);
        self.last_item_model_visible = Some(item_model_visible);
        !same_item || !same_model
    }

    /// Whether the hidden presentation is made visible again: once per
    /// presentation, where the item or its model is not visible. The
    /// reassertion is then spent.
    pub fn take_visibility_reassertion(&mut self, item_visible: bool, item_model_visible: bool) -> (r: bool)
        ensures
            r == (!(item_visible && item_model_visible) && !old(self).visibility_reassertion_used),
            old(self).visibility_reassertion_used ==> !r,
            item_visible && item_model_visible ==> !r,
            final(self).visibility_reassertion_used == (old(self).visibility_reassertion_used || r),
            *final(self) == if r {
                PreviewSession { visibility_reassertion_used: true, ..*old(self) }
            } else {
                *old(self)
            },
    {
        if item_visible && item_model_visible {
            return false;
        }
        if self.visibility_reassertion_used {
            return false;
        }
        self.visibility_reassertion_used = true;
        true
    }

    /// One callback of the transform comparison of the Master Hand and Marx
    /// presentations: with debug logs on and the comparison not complete, a
    /// window of samples opens where none is open, and the number of the
    /// sample taken now is returned; the window counts down and the
    /// comparison completes with its last sample.
    pub fn transform_comparison_sample(&mut self, comparison_profile: bool, debug: bool) -> (r: Option<u8>)
        ensures
            ({
                let o = *old(self);
                let remaining = if o.transform_comparison_samples_remaining == 0 {
                    TRANSFORM_COMPARISON_SAMPLE_FRAMES
                } else {
                    o.transform_comparison_samples_remaining
                };
                let taking = comparison_profile && !o.transform_comparison_complete && debug;
                &&& r is Some ==> comparison_profile && debug && !o.transform_comparison_complete
                &&& o.transform_comparison_complete ==> r is None
                &&& o.transform_comparison_samples_remaining <= TRANSFORM_COMPARISON_SAMPLE_FRAMES
                    ==> (r matches Some(k) ==> 1 <= k <= TRANSFORM_COMPARISON_SAMPLE_FRAMES)
                &&& !taking ==> r is None && *final(self) == o
                &&& taking ==> r == Some(
                    (if remaining <= TRANSFORM_COMPARISON_SAMPLE_FRAMES {
                        TRANSFORM_COMPARISON_SAMPLE_FRAMES - remaining + 1
                    } else {
                        1int
                    }) as u8,
                ) && *final(self) == (PreviewSession {
                    transform_comparison_samples_remaining: (remaining - 1) as u8,
                    transform_comparison_complete: remaining == 1,
                    ..o
                })
            }),
    {
        if !comparison_profile || self.transform_comparison_complete || !debug {
            return None;
        }
        if self.transform_comparison_samples_remaining == 0 {
            self.transform_comparison_samples_remaining = TRANSFORM_COMPARISON_SAMPLE_FRAMES;
        }
        let sample = TRANSFORM_COMPARISON_SAMPLE_FRAMES.saturating_sub(
            self.transform_comparison_samples_remaining,
        ).saturating_add(1);
        self.transform_comparison_samples_remaining = self.transform_comparison_samples_remaining - 1;
        if self.transform_comparison_samples_remaining == 0 {
            self.transform_comparison_complete = true;
        }
        Some(sample)
    }

    /// Whether the viewer now runs on another host object than the one this
    /// session was bound to.
    pub fn viewer_host_replaced(&self, host_id: u32) -> (r: bool)
        ensures
            r == (self.host_object_id != 0 && self.host_object_id != host_id),
    {
        self.host_object_id != 0 && self.host_object_id != host_id
    }

    /// After the presentation of a replaced host was let go, the identity is
    /// captured again for the new host, with its reacquisition restored.
    pub fn rebind_after_host_replacement(&mut self)
        ensures
            *final(self) == (PreviewSession {
                stabilization_reacquire_used: false,
                phase: AmiiboPreviewPhase::IdentityCaptured,
                ..*old(self)
            }),
    {
        self.stabilization_reacquire_used = false;
        self.phase = AmiiboPreviewPhase::IdentityCaptured;
    }

    /// Starts a viewer generation for a captured identity on `host_id`: the
    /// generation counter moves on (wrapping), the host is bound and shown,
    /// the presentation's kind, slot and ownership are cleared, the
    /// attachment mode is the boss's, the probes, comparison, calibration
    /// input and one-shot flags start over, and the viewer waits for its
    /// host.
    pub fn begin_viewer_generation(&mut self, host_id: u32, attachment_mode: AmiiboAttachmentMode)
        ensures
            *final(self) == (PreviewSession {
                viewer_generation: (if old(self).viewer_generation == u32::MAX {
                    0
                } else {
                    old(self).viewer_generation + 1
                }) as u32,
                host_object_id: host_id,
                host_hidden: false,
                expected_item_kind: -1i32,
                presentation_slot: -1i32,
                ownership: AmiiboPreviewOwnership::Unowned,
                transform_stabilization_frames_remaining: 0,
                attachment_mode,
                native_held_attachment_probe: NativeHeldAttachmentProbe::spec_empty(),
                rathalos_acquire_probe: RathalosAcquireProbe::spec_empty(),
                transform_comparison_samples_remaining: 0,
                transform_comparison_complete: false,
                interactive_probe: InteractiveTransformProbe::spec_empty(),
                calibration: CalibrationInputState::spec_empty(),
                transform_ready_logged: false,
                native_transform_reset_logged: false,
                ready_visual_logged: false,
                visual_ready_blocked_logged: false,
                visibility_reassertion_used: false,
                last_item_visible: None,
                last_item_model_visible: None,
                phase: AmiiboPreviewPhase::WaitingForViewerHost,
                ..*old(self)
            }),
    {
        self.host_hidden = false;
        self.viewer_generation = self.viewer_generation.wrapping_add(1);
        self.host_object_id = host_id;
        self.expected_item_kind = -1;
        self.presentation_slot = -1;
        self.ownership = AmiiboPreviewOwnership::Unowned;
        self.transform_stabilization_frames_remaining = 0;
        self.attachment_mode = attachment_mode;
        self.native_held_attachment_probe = NativeHeldAttachmentProbe::empty();
        self.rathalos_acquire_probe = RathalosAcquireProbe::empty();
        self.transform_comparison_samples_remaining = 0;
        self.transform_comparison_complete = false;
        self.interactive_probe = InteractiveTransformProbe::empty();
        self.calibration = CalibrationInputState::empty();
        self.transform_ready_logged = false;
        self.native_transform_reset_logged = false;
        self.ready_visual_logged = false;
        self.visual_ready_blocked_logged = false;
        self.visibility_reassertion_used = false;
        self.last_item_visible = None;
        self.last_item_model_visible = None;
        self.phase = AmiiboPreviewPhase::WaitingForViewerHost;
    }

    /// Whether a lost presentation is acquired once more: only where the
    /// native side reclaimed it, the boss's recipe allows a native
    /// reacquisition and the one stabilisation retry is not spent; the retry
    /// is then spent. Otherwise the viewer defers.
    pub fn take_stabilization_reacquire(&mut self, native_reclaim: bool, reacquire_allowed: bool) -> (r:
        bool)
        ensures
            r == (native_reclaim && reacquire_allowed && !old(self).stabilization_reacquire_used),
            old(self).stabilization_reacquire_used ==> !r && final(self).stabilization_reacquire_used,
            r ==> final(self).stabilization_reacquire_used,
            *final(self) == if r {
                PreviewSession { stabilization_reacquire_used: true, ..*old(self) }
            } else {
                *old(self)
            },
    {
        if native_reclaim && reacquire_allowed && !self.stabilization_reacquire_used {
            self.stabilization_reacquire_used = true;
            return true;
        }
        false
    }

    /// After a lost presentation was let go for its one retry, the identity
    /// is captured again and a creation may be tried anew.
    pub fn restart_capture_for_reacquire(&mut self)
        ensures
            *final(self) == (PreviewSession {
                phase: AmiiboPreviewPhase::IdentityCaptured,
                create_attempted: false,
                ..*old(self)
            }),
    {
        self.phase = AmiiboPreviewPhase::IdentityCaptured;
        self.create_attempted = false;
    }

    /// The ready line of a presentation: written once, when the transform
    /// window is over and the item and its model are visible; otherwise,
    /// while either is hidden, a blocked line is written once.
    pub fn ready_visual_line(&mut self, window_complete: bool, item_visible: bool, item_model_visible: bool) -> (r:
        ReadyVisualLine)
        ensures
            ({
                let o = *old(self);
                let ready = window_complete && item_visible && item_model_visible
                    && !o.ready_visual_logged;
                let blocked = !ready && (!item_visible || !item_model_visible)
                    && !o.visual_ready_blocked_logged;
                &&& r == if ready {
                    ReadyVisualLine::Ready
                } else if blocked {
                    ReadyVisualLine::Blocked
                } else {
                    ReadyVisualLine::Quiet
                }
                &&& r == ReadyVisualLine::Ready ==> !o.ready_visual_logged
                    && final(self).ready_visual_logged && item_visible && item_model_visible
                    && window_complete
                &&& r == ReadyVisualLine::Blocked ==> !o.visual_ready_blocked_logged
                    && final(self).visual_ready_blocked_logged && !(item_visible
                    && item_model_visible)
                &&& o.ready_visual_logged ==> final(self).ready_visual_logged
                &&& o.visual_ready_blocked_logged ==> final(self).visual_ready_blocked_logged
                &&& *final(self) == if ready {
                    PreviewSession { ready_visual_logged: true, ..o }
                } else if blocked {
                    PreviewSession { visual_ready_blocked_logged: true, ..o }
                } else {
                    o
                }
            }),
    {
        if window_complete && item_visible && item_model_visible && !self.ready_visual_logged {
            self.ready_visual_logged = true;
            return ReadyVisualLine::Ready;
        }
        if (!item_visible || !item_model_visible) && !self.visual_ready_blocked_logged {
            self.visual_ready_blocked_logged = true;
            return ReadyVisualLine::Blocked;
        }
        ReadyVisualLine::Quiet
    }

    /// The requested item did not come: the host is shown again and the
    /// preview is deferred.
    pub fn item_request_failed(&mut self)
        ensures
            *final(self) == (PreviewSession {
                host_hidden: false,
                phase: AmiiboPreviewPhase::DeferredUntilSupported,
                ..*old(self)
            }),
    {
        self.host_hidden = false;
        self.phase = AmiiboPreviewPhase::DeferredUntilSupported;
    }

    /// Leaves the viewer: the identity and its source are dropped, the phase
    /// is `Inactive`, and the attempts, the ready line and the ignored
    /// lookups are forgotten. The presentation item itself is destroyed by
    /// the plugin.
    pub fn reset_preview_state(&mut self)
        ensures
            *final(self) == (PreviewSession {
                phase: AmiiboPreviewPhase::Inactive,
                logical_ui_hash: 0,
                identity_source: AmiiboPreviewIdentitySource::Unset,
                create_attempted: false,
                stabilization_reacquire_used: false,
                ready_visual_logged: false,
                ignored_lookup_mask: 0,
                ..*old(self)
            }),
    {
        self.phase = AmiiboPreviewPhase::Inactive;
        self.logical_ui_hash = 0;
        self.identity_source = AmiiboPreviewIdentitySource::Unset;
        self.create_attempted = false;
        self.stabilization_reacquire_used = false;
        self.ready_visual_logged = false;
        self.ignored_lookup_mask = 0;
    }
}

/// Which ready line a presentation callback writes.
#[derive(Debug, Clone, Copy, PartialEq, Eq, Structural)]
pub enum ReadyVisualLine {
    /// The presentation is shown, for the first time.
    Ready,
    /// The presentation is hidden, for the first time.
    Blocked,
    /// Nothing new.
    Quiet,
}

/// What the plugin saw on the viewer host in this frame.
#[derive(Debug, Clone, Copy)]
pub struct PreviewFrameEvent {
    /// The route of the captured identity.
    pub route: PreviewRoute,
    /// Whether a foreign item sits in the host's first slot.
    pub host_has_foreign_item: bool,
}

/// What the plugin does in this frame of a bound viewer generation.
#[derive(Debug, Clone, Copy, PartialEq, Eq, Structural)]
pub enum PreviewFrameAction {
    /// Nothing: the viewer is deferred, or still busy creating.
    Idle,
    /// Poll the staged Rathalos acquisition.
    PollRathalos,
    /// Keep the ready presentation posed and visible.
    MaintainReady,
    /// A foreign item sits on the host: the preview is deferred.
    DeferForeignItem,
    /// The boss's recipe never requests an item: the preview is deferred
    /// before any request or host change.
    DeferBlockedRecipe,
    /// The staged Rathalos acquisition starts with the native host intact.
    AwaitRathalos,
    /// Request the boss item now; `clear_host_slots` says whether the host's
    /// slots are emptied first.
    RequestItem { clear_host_slots: bool },
}

/// One frame of a bound viewer generation, by phase. Waiting for the host:
/// a foreign item defers; otherwise creation starts, and a blocked recipe
/// defers before any request, the staged Rathalos recipe awaits its
/// acquisition, and any other recipe requests its item.
pub open spec fn spec_preview_frame_step(s: PreviewSession, e: PreviewFrameEvent) -> (
    PreviewSession,
    PreviewFrameAction,
) {
    if s.phase == AmiiboPreviewPhase::AwaitingRathalosAcquire {
        (s, PreviewFrameAction::PollRathalos)
    } else if s.phase == AmiiboPreviewPhase::Ready {
        (s, PreviewFrameAction::MaintainReady)
    } else if s.phase != AmiiboPreviewPhase::WaitingForViewerHost {
        (s, PreviewFrameAction::Idle)
    } else if e.host_has_foreign_item {
        (
            PreviewSession { phase: AmiiboPreviewPhase::DeferredUntilSupported, ..s },
            PreviewFrameAction::DeferForeignItem,
        )
    } else {
        let creating = PreviewSession {
            phase: AmiiboPreviewPhase::CreatingPresentation,
            create_attempted: true,
            ..s
        };
        let recipe = e.route.item_acquire_recipe;
        if recipe == ItemPresentationAcquireRecipe::DraculaAllBackingsBlocked {
            (
                PreviewSession { phase: AmiiboPreviewPhase::DeferredUntilSupported, ..creating },
                PreviewFrameAction::DeferBlockedRecipe,
            )
        } else if recipe == ItemPresentationAcquireRecipe::WolRathalosStaged {
            (
                PreviewSession {
                    host_hidden: false,
                    phase: AmiiboPreviewPhase::AwaitingRathalosAcquire,
                    ..creating
                },
                PreviewFrameAction::AwaitRathalos,
            )
        } else {
            (creating, PreviewFrameAction::RequestItem { clear_host_slots: false })
        }
    }
}

/// Decides one frame of a bound viewer generation; the plugin performs the
/// action and reports the request's outcome through
/// `activate_verified_item_presentation` or `item_request_failed`.
pub fn preview_frame_step(session: &mut PreviewSession, event: &PreviewFrameEvent) -> (r:
    PreviewFrameAction)
    ensures
        (*final(session), r) == spec_preview_frame_step(*old(session), *event),
{
    match session.phase {
        AmiiboPreviewPhase::AwaitingRathalosAcquire => return PreviewFrameAction::PollRathalos,
        AmiiboPreviewPhase::Ready => return PreviewFrameAction::MaintainReady,
        AmiiboPreviewPhase::WaitingForViewerHost => {},
        _ => return PreviewFrameAction::Idle,
    }
    if event.host_has_foreign_item {
        session.phase = AmiiboPreviewPhase::DeferredUntilSupported;
        return PreviewFrameAction::DeferForeignItem;
    }
    session.phase = AmiiboPreviewPhase::CreatingPresentation;
    session.create_attempted = true;
    let recipe = event.route.item_acquire_recipe;
    if !recipe.reaches_have_item() {
        session.phase = AmiiboPreviewPhase::DeferredUntilSupported;
        return PreviewFrameAction::DeferBlockedRecipe;
    }
    if recipe.uses_deferred_observation() {
        session.host_hidden = false;
        session.phase = AmiiboPreviewPhase::AwaitingRathalosAcquire;
        return PreviewFrameAction::AwaitRathalos;
    }
    PreviewFrameAction::RequestItem { clear_host_slots: recipe.requires_empty_host_slots() }
}

/// The blocked Dracula recipe never reaches an item request: whatever the
/// session and the host show, a frame of a Dracula preview never asks for an
/// item, and never enters the Rathalos acquisition.
pub proof fn lemma_blocked_recipe_never_requests(s: PreviewSession, e: PreviewFrameEvent)
    requires
        e.route.item_acquire_recipe == ItemPresentationAcquireRecipe::DraculaAllBackingsBlocked,
        s.phase != AmiiboPreviewPhase::AwaitingRathalosAcquire,
    ensures
        !(spec_preview_frame_step(s, e).1 is RequestItem),
        spec_preview_frame_step(s, e).1 != PreviewFrameAction::AwaitRathalos,
        spec_preview_frame_step(s, e).1 != PreviewFrameAction::PollRathalos,
{
}

/// What could be read of the presentation object when it is let go.
#[derive(Debug, Clone, Copy, PartialEq, Eq, Structural)]
pub enum PresentationItemRead {
    NotActive,
    Unreadable,
    Readable { kind: i32 },
}

/// How a presentation item is let go.
#[derive(Debug, Clone, Copy, PartialEq, Eq, Structural)]
pub enum PresentationRemoval {
    /// There is no live presentation object.
    NotActive,
    /// The object is live but cannot be read; it is left alone.
    ModuleAccessorUnavailable,
    /// The object is not the kind this viewer created; it is left alone.
    RefuseKindMismatch,
    /// The viewer's host holds it in `slot`: the slot is emptied.
    RemoveHostSlot { slot: i32 },
    /// The viewer's host let go of it: it is removed on its own.
    RemoveDetachedNativeOwned,
    /// The viewer has no host any more: it is removed on its own.
    RemoveDetachedWithoutHost,
}

impl PresentationRemoval {
    pub open spec fn spec_name(self) -> Seq<char> {
        match self {
            PresentationRemoval::NotActive => "not_active"@,
            PresentationRemoval::ModuleAccessorUnavailable => "module_accessor_unavailable"@,
            PresentationRemoval::RefuseKindMismatch => "refuse_kind_mismatch"@,
            PresentationRemoval::RemoveHostSlot { .. } => "remove_host_slot"@,
            PresentationRemoval::RemoveDetachedNativeOwned => "remove_detached_native_owned"@,
            PresentationRemoval::RemoveDetachedWithoutHost => "remove_detached_without_host"@,
        }
    }

    /// The removal action as the log names it.
    pub fn name(self) -> (r: &'static str)
        ensures
            r@ == self.spec_name(),
    {
        match self {
            PresentationRemoval::NotActive => "not_active",
            PresentationRemoval::ModuleAccessorUnavailable => "module_accessor_unavailable",
            PresentationRemoval::RefuseKindMismatch => "refuse_kind_mismatch",
            PresentationRemoval::RemoveHostSlot { .. } => "remove_host_slot",
            PresentationRemoval::RemoveDetachedNativeOwned => "remove_detached_native_owned",
            PresentationRemoval::RemoveDetachedWithoutHost => "remove_detached_without_host",
        }
    }

    /// Whether the item is removed at all.
    pub fn removal_requested(self) -> (r: bool)
        ensures
            r == (self is RemoveHostSlot || self is RemoveDetachedNativeOwned
                || self is RemoveDetachedWithoutHost),
    {
        match self {
            PresentationRemoval::RemoveHostSlot { .. } => true,
            PresentationRemoval::RemoveDetachedNativeOwned => true,
            PresentationRemoval::RemoveDetachedWithoutHost => true,
            _ => false,
        }
    }
}

/// How the viewer lets its presentation go: only a live object of the kind
/// it created is removed, from the host's slot where its own host still
/// holds it, on its own otherwise.
pub open spec fn spec_presentation_removal(
    s: PreviewSession,
    host_id: u32,
    item: PresentationItemRead,
    host_slot: Option<i32>,
) -> PresentationRemoval {
    if s.presentation_object_id == 0 {
        PresentationRemoval::NotActive
    } else {
        match item {
            PresentationItemRead::NotActive => PresentationRemoval::NotActive,
            PresentationItemRead::Unreadable => PresentationRemoval::ModuleAccessorUnavailable,
            PresentationItemRead::Readable { kind } => if kind != s.expected_item_kind {
                PresentationRemoval::RefuseKindMismatch
            } else if host_id != 0 && host_id == s.host_object_id {
                match host_slot {
                    Some(slot) => PresentationRemoval::RemoveHostSlot { slot },
                    None => PresentationRemoval::RemoveDetachedNativeOwned,
                }
            } else {
                PresentationRemoval::RemoveDetachedWithoutHost
            },
        }
    }
}

/// The viewer never removes an object it did not create: whatever is
/// removed is a live object of the expected kind.
pub proof fn lemma_only_the_created_kind_is_removed(
    s: PreviewSession,
    host_id: u32,
    item: PresentationItemRead,
    host_slot: Option<i32>,
)
    ensures
        ({
            let r = spec_presentation_removal(s, host_id, item, host_slot);
            (r is RemoveHostSlot || r is RemoveDetachedNativeOwned || r is RemoveDetachedWithoutHost)
                ==> s.presentation_object_id != 0 && item == (PresentationItemRead::Readable {
                kind: s.expected_item_kind,
            })
        }),
{
}

/// The preview session after a character lookup: only a direct figure
/// lookup of a configured boss, not already in use, captures a new identity;
/// a catalogue lookup of a configured boss marks its route as logged.
pub open spec fn spec_session_after_lookup(
    s: PreviewSession,
    allowed: Seq<u64>,
    raw_ui_hash: u64,
    ui_chara_hash: u64,
) -> PreviewSession {
    let found = route_hash_index_from(spec_preview_routes(), ui_chara_hash, 0);
    if found is None || !allowed.contains(ui_chara_hash) {
        s
    } else if raw_ui_hash & DIRECT_UI_LOOKUP_TAG_MASK != DIRECT_UI_LOOKUP_TAG {
        let bit = 1u16 << (found->0 as u16);
        if s.ignored_lookup_mask & bit != 0 {
            s
        } else {
            PreviewSession { ignored_lookup_mask: s.ignored_lookup_mask | bit, ..s }
        }
    } else if s.logical_ui_hash == ui_chara_hash && s.identity_source
        == AmiiboPreviewIdentitySource::ProvisionalDirectUiLookup && identity_in_use(s.phase) {
        s
    } else {
        spec_captured_session(s, ui_chara_hash)
    }
}

/// A catalogue lookup never captures or replaces an identity: the captured
/// boss, its source and its phase stay whatever the lookup was.
pub proof fn lemma_catalogue_lookups_never_capture(
    s: PreviewSession,
    allowed: Seq<u64>,
    raw_ui_hash: u64,
    ui_chara_hash: u64,
)
    requires
        raw_ui_hash & DIRECT_UI_LOOKUP_TAG_MASK != DIRECT_UI_LOOKUP_TAG,
    ensures
        spec_session_after_lookup(s, allowed, raw_ui_hash, ui_chara_hash).logical_ui_hash
            == s.logical_ui_hash,
        spec_session_after_lookup(s, allowed, raw_ui_hash, ui_chara_hash).identity_source
            == s.identity_source,
        spec_session_after_lookup(s, allowed, raw_ui_hash, ui_chara_hash).phase == s.phase,
{
}

/// A lookup of a boss without a configured preview changes nothing.
pub proof fn lemma_unconfigured_lookups_change_nothing(
    s: PreviewSession,
    allowed: Seq<u64>,
    raw_ui_hash: u64,
    ui_chara_hash: u64,
)
    ensures
        !allowed.contains(ui_chara_hash) ==> spec_session_after_lookup(
            s,
            allowed,
            raw_ui_hash,
            ui_chara_hash,
        ) == s,
{
}


/// The number of distinct identity boundaries traced before the trace
/// stops.
pub const MAX_IDENTITY_TRACE_ENTRIES: usize = 32;

/// The number of distinct module events traced before the trace stops.
pub const MAX_NRO_TRACE_ENTRIES: usize = 96;

/// The number of exported preview symbols traced in all.
pub const MAX_NRO_SYMBOL_TRACE_ENTRIES: usize = 48;

/// The keys as character sequences.
pub open spec fn spec_trace_keys(keys: Seq<String>) -> Seq<Seq<char>> {
    keys.map_values(|k: String| k@)
}

/// Trace keys already written, each once, at most `limit` of them.
pub struct TraceKeySet {
    pub limit: usize,
    pub keys: Vec<String>,
}

impl TraceKeySet {
    /// Each key once, and no more keys than the limit.
    pub open spec fn wf(&self) -> bool {
        &&& self.keys@.len() <= self.limit
        &&& spec_trace_keys(self.keys@).no_duplicates()
    }

    /// No key yet.
    pub fn new(limit: usize) -> (r: TraceKeySet)
        ensures
            r.wf(),
            r.limit == limit,
            r.keys@.len() == 0,
    {
        let r = TraceKeySet { limit, keys: Vec::new() };
        proof {
            assert(spec_trace_keys(r.keys@) =~= Seq::<Seq<char>>::empty());
        }
        r
    }

    /// Whether `key` is traced now: only the first time it is seen, and
    /// only while the limit is not reached. A traced key is remembered.
    pub fn record(&mut self, key: String) -> (r: bool)
        requires
            old(self).wf(),
        ensures
            final(self).wf(),
            final(self).limit == old(self).limit,
            r == (!spec_trace_keys(old(self).keys@).contains(key@) && old(self).keys@.len()
                < old(self).limit),
            spec_trace_keys(final(self).keys@) == if r {
                spec_trace_keys(old(self).keys@).push(key@)
            } else {
                spec_trace_keys(old(self).keys@)
            },
    {
        let n = self.keys.len();
        let mut i: usize = 0;
        while i < n
            invariant
                n == self.keys@.len(),
                i <= n,
                self.keys@ == old(self).keys@,
                self.limit == old(self).limit,
                old(self).wf(),
                forall|j: int| 0 <= j < i ==> self.keys@[j]@ != key@,
            decreases n - i,
        {
            if str_eq(self.keys[i].as_str(), key.as_str()) {
                proof {
                    assert(spec_trace_keys(self.keys@)[i as int] == key@);
                }
                return false;
            }
            i = i + 1;
        }
        proof {
            assert forall|j: int| 0 <= j < n implies spec_trace_keys(self.keys@)[j] != key@ by {}
        }
        if n >= self.limit {
            return false;
        }
        let ghost before = spec_trace_keys(self.keys@);
        self.keys.push(key);
        proof {
            let after = before.push(key@);
            assert(spec_trace_keys(self.keys@) =~= after);
            assert forall|a: int, b: int|
                0 <= a < after.len() && 0 <= b < after.len() && a != b implies after[a]
                != after[b] by {
                if b == after.len() - 1 {
                    assert(after[a] == before[a]);
                } else if a == after.len() - 1 {
                    assert(after[b] == before[b]);
                } else {
                    assert(before.no_duplicates());
                }
            }
            assert(after.no_duplicates());
        }
        true
    }
}

/// The trace key of an identity boundary: the mode, then the figure id in
/// sixteen lower-case hexadecimal digits.
pub fn identity_boundary_key(mode: &str, tag_id: u64) -> (r: String)
    ensures
        r@ == mode@ + seq![':'] + hex_digits(tag_id as nat, 16),
{
    let digits = hex_padded(tag_id, 16);
    join_key(mode, digits.as_str())
}

/// The trace key of the character-database boundary of a character.
pub fn ui_chara_db_boundary_key(ui_chara_id: &str) -> (r: String)
    ensures
        r@ == "ui_chara_db"@ + seq![':'] + ui_chara_id@,
{
    join_key("ui_chara_db", ui_chara_id)
}


/// The trace key of a module event: the event, then the module's name.
pub fn nro_event_key(event: &str, module_name: &str) -> (r: String)
    ensures
        r@ == event@ + seq![':'] + module_name@,
{
    join_key(event, module_name)
}

/// Whether a module is likely to hold the menu's user interface: the
/// common module, or one whose name, taken in small letters, speaks of the
/// interface, a menu or a character.
pub fn is_ui_like_nro(name: &str) -> (r: bool)
    ensures
        ({
            let lower = spec_ascii_lowercase(name@);
            r == (lower == "common"@ || spec_contains(lower, "ui"@) || spec_contains(lower, "menu"@)
                || spec_contains(lower, "chara"@))
        }),
{
    let lower = ascii_lowercase(name);
    let l = lower.as_str();
    str_eq(l, "common") || str_contains(l, "ui") || str_contains(l, "menu") || str_contains(
        l,
        "chara",
    )
}

/// The words that mark an exported symbol as part of the figure preview.
pub open spec fn spec_preview_symbol_words() -> Seq<Seq<char>> {
    seq![
        "amiibo"@,
        "nfp"@,
        "figure"@,
        "preview"@,
        "viewer"@,
        "model"@,
        "motion"@,
        "camera"@,
    ]
}

/// Whether an exported symbol's name, taken in small letters, holds one of
/// the preview words.
pub fn is_preview_symbol(name: &str) -> (r: bool)
    ensures
        r == exists|k: int|
            0 <= k < spec_preview_symbol_words().len() && spec_contains(
                spec_ascii_lowercase(name@),
                #[trigger] spec_preview_symbol_words()[k],
            ),
{
    let lower = ascii_lowercase(name);
    let l = lower.as_str();
    let words = ["amiibo", "nfp", "figure", "preview", "viewer", "model", "motion", "camera"];
    let ghost lw = spec_ascii_lowercase(name@);
    proof {
        assert(l@ == lw);
        assert(spec_preview_symbol_words().len() == 8);
    }
    let mut k: usize = 0;
    while k < 8
        invariant
            k <= 8,
            l@ == lw,
            lw == spec_ascii_lowercase(name@),
            spec_preview_symbol_words().len() == 8,
            forall|m: int| 0 <= m < 8 ==> (#[trigger] words@[m])@ == spec_preview_symbol_words()[m],
            forall|m: int| 0 <= m < k ==> !spec_contains(lw, #[trigger] spec_preview_symbol_words()[m]),
        decreases 8 - k,
    {
        let word = words[k];
        assert(word == words@[k as int]);
        assert(word@ == spec_preview_symbol_words()[k as int]);
        if str_contains(l, word) {
            assert(spec_contains(spec_ascii_lowercase(name@), spec_preview_symbol_words()[k as int]));
            return true;
        }
        k = k + 1;
    }
    assert(spec_preview_symbol_words().len() == 8);
    false
}

/// Whether a module's symbol tables can be walked: a hash chain of at most
/// 0x10000 symbols and a string table of at most 16 MiB, both non-empty.
pub fn symbol_table_is_plausible(hash_nchain: u32, dynstr_size: u64) -> (r: bool)
    ensures
        r == (0 < hash_nchain <= 0x10000 && 0 < dynstr_size <= 0x0100_0000),
{
    hash_nchain != 0 && hash_nchain <= 0x10000 && dynstr_size != 0 && dynstr_size <= 0x0100_0000
}

/// The budget of exported preview symbols that are traced.
pub struct SymbolTraceBudget {
    pub logged: usize,
}

impl SymbolTraceBudget {
    pub fn new() -> (r: SymbolTraceBudget)
        ensures
            r.logged == 0,
    {
        SymbolTraceBudget { logged: 0 }
    }

    /// Whether one more symbol is traced; it is counted if so.
    pub fn take(&mut self) -> (r: bool)
        ensures
            r == (old(self).logged < MAX_NRO_SYMBOL_TRACE_ENTRIES),
            final(self).logged == if r {
                old(self).logged + 1
            } else {
                old(self).logged as int
            },
    {
        if self.logged >= MAX_NRO_SYMBOL_TRACE_ENTRIES {
            return false;
        }
        self.logged = self.logged + 1;
        true
    }
}

} // verus!
