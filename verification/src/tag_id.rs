//! Amiibo tag IDs as the mapping file writes them.
//!
//! A tag ID is sixteen hexadecimal digits. Nintendo's NFP layout keeps the
//! character identifier in the two head bytes, the character variant in the
//! third, and the model/numbering value in the first two tail bytes.
use crate::text::{hex_char, hex_digits};
use vstd::prelude::*;

verus! {

/// The head word that marks a private virtual Boss Amiibo ID.
pub const PRIVATE_VIRTUAL_BOSS_HEAD: u32 = 0x5042_0001;

/// Unicode `White_Space`, the set that `str::trim` removes.
pub open spec fn is_unicode_whitespace(c: char) -> bool {
    let u: u32 = c as u32;
    (0x9 <= u && u <= 0xd) || u == 0x20 || u == 0x85 || u == 0xa0 || u == 0x1680
        || (0x2000 <= u && u <= 0x200a) || u == 0x2028 || u == 0x2029 || u == 0x202f
        || u == 0x205f || u == 0x3000
}

pub open spec fn trim_start(s: Seq<char>) -> Seq<char>
    decreases s.len(),
{
    if s.len() > 0 && is_unicode_whitespace(s[0]) {
        trim_start(s.drop_first())
    } else {
        s
    }
}

pub open spec fn trim_end(s: Seq<char>) -> Seq<char>
    decreases s.len(),
{
    if s.len() > 0 && is_unicode_whitespace(s.last()) {
        trim_end(s.drop_last())
    } else {
        s
    }
}

/// `s` without leading and trailing white space.
pub open spec fn trim(s: Seq<char>) -> Seq<char> {
    trim_end(trim_start(s))
}

/// Whether `c` is Unicode `White_Space`.
fn is_whitespace_char(c: char) -> (r: bool)
    ensures
        r == is_unicode_whitespace(c),
{
    let u: u32 = c as u32;
    (0x9 <= u && u <= 0xd) || u == 0x20 || u == 0x85 || u == 0xa0 || u == 0x1680 || (0x2000 <= u
        && u <= 0x200a) || u == 0x2028 || u == 0x2029 || u == 0x202f || u == 0x205f || u == 0x3000
}

/// The string without its leading and trailing `White_Space` characters.
pub(crate) fn trim_str(s: &str) -> (r: &str)
    ensures
        r@ == trim(s@),
{
    let n = s.unicode_len();
    let mut start: usize = 0;
    assert(s@.subrange(0, n as int) =~= s@);
    loop
        invariant
            start <= n,
            n == s@.len(),
            trim_start(s@) == trim_start(s@.subrange(start as int, n as int)),
        ensures
            start <= n,
            trim_start(s@) == s@.subrange(start as int, n as int),
        decreases n - start,
    {
        if start == n {
            break;
        }
        let c = s.get_char(start);
        let ghost rest = s@.subrange(start as int, n as int);
        if !is_whitespace_char(c) {
            assert(rest[0] == c);
            break;
        }
        assert(rest.drop_first() =~= s@.subrange(start + 1, n as int));
        start = start + 1;
    }
    let ghost front = s@.subrange(start as int, n as int);
    let mut end: usize = n;
    loop
        invariant
            start <= end <= n,
            n == s@.len(),
            front == s@.subrange(start as int, n as int),
            trim_end(front) == trim_end(s@.subrange(start as int, end as int)),
        ensures
            start <= end <= n,
            trim_end(front) == s@.subrange(start as int, end as int),
        decreases end,
    {
        if end == start {
            break;
        }
        let c = s.get_char(end - 1);
        let ghost part = s@.subrange(start as int, end as int);
        if !is_whitespace_char(c) {
            assert(part.last() == c);
            break;
        }
        assert(part.drop_last() =~= s@.subrange(start as int, end - 1));
        end = end - 1;
    }
    s.substring_char(start, end)
}

pub open spec fn is_hex_digit(c: char) -> bool {
    let u: u32 = c as u32;
    (0x30 <= u && u <= 0x39) || (0x41 <= u && u <= 0x46) || (0x61 <= u && u <= 0x66)
}

pub open spec fn hex_digit_value(c: char) -> nat {
    let u: u32 = c as u32;
    if 0x30 <= u && u <= 0x39 {
        (u - 0x30) as nat
    } else if 0x41 <= u && u <= 0x46 {
        (u - 0x41 + 10) as nat
    } else {
        (u - 0x61 + 10) as nat
    }
}

/// The number that a string of hexadecimal digits writes, most significant
/// digit first.
pub open spec fn hex_value(s: Seq<char>) -> nat
    decreases s.len(),
{
    if s.len() == 0 {
        0
    } else {
        hex_value(s.drop_last()) * 16 + hex_digit_value(s.last())
    }
}

pub open spec fn pow16(n: nat) -> nat
    decreases n,
{
    if n == 0 {
        1
    } else {
        16 * pow16((n - 1) as nat)
    }
}

/// The digits after an optional `0x` or `0X` prefix.
pub open spec fn strip_hex_prefix(s: Seq<char>) -> Seq<char> {
    if s.len() >= 2 && s[0] == '0' && (s[1] == 'x' || s[1] == 'X') {
        s.subrange(2, s.len() as int)
    } else {
        s
    }
}

pub open spec fn is_sixteen_hex_digits(d: Seq<char>) -> bool {
    d.len() == 16 && forall|i: int| 0 <= i < 16 ==> #[trigger] is_hex_digit(d[i])
}

/// Why a trimmed tag ID is refused.
#[derive(Debug, Clone, Copy, PartialEq, Eq)]
pub enum TagIdError {
    NotSixteenHexDigits,
    NonzeroVariantBits,
    ZeroLowerPortion,
}

/// The layout rules of a tag ID, over its trimmed text: the full ID, its
/// low 40 bits (the `ui_amiibo_id`), and its high 16 bits.
pub open spec fn spec_parse_trimmed_tag_id(s: Seq<char>) -> Result<(u64, u64, u16), TagIdError> {
    let d = strip_hex_prefix(s);
    if !is_sixteen_hex_digits(d) {
        Err(TagIdError::NotSixteenHexDigits)
    } else {
        let tag_id = hex_value(d) as u64;
        if tag_id & 0x0000_FF00_0000_0000u64 != 0 {
            Err(TagIdError::NonzeroVariantBits)
        } else if tag_id & 0x0000_00FF_FFFF_FFFFu64 == 0 {
            Err(TagIdError::ZeroLowerPortion)
        } else {
            Ok((tag_id, tag_id & 0x0000_00FF_FFFF_FFFFu64, (tag_id >> 48u64) as u16))
        }
    }
}

pub open spec fn spec_parse_tag_id(s: Seq<char>) -> Result<(u64, u64, u16), TagIdError> {
    spec_parse_trimmed_tag_id(trim(s))
}

/// The text of each refusal.
pub open spec fn tag_id_error_message(e: TagIdError) -> Seq<char> {
    match e {
        TagIdError::NotSixteenHexDigits => "expected exactly 16 hexadecimal digits for a tag ID"@,
        TagIdError::NonzeroVariantBits => "tag bits 40..47 must be zero for ui_amiibo_db.prc"@,
        TagIdError::ZeroLowerPortion => "tag ID must contain a non-zero lower database portion"@,
    }
}

impl TagIdError {
    pub fn message(self) -> (m: String)
        ensures
            m@ == tag_id_error_message(self),
    {
        match self {
            TagIdError::NotSixteenHexDigits => String::from_str(
                "expected exactly 16 hexadecimal digits for a tag ID",
            ),
            TagIdError::NonzeroVariantBits => String::from_str(
                "tag bits 40..47 must be zero for ui_amiibo_db.prc",
            ),
            TagIdError::ZeroLowerPortion => String::from_str(
                "tag ID must contain a non-zero lower database portion",
            ),
        }
    }
}

proof fn lemma_pow16_16()
    ensures
        pow16(16) == 0x1_0000_0000_0000_0000,
{
    reveal_with_fuel(pow16, 17);
}

fn hex_digit_exec(c: char) -> (v: u64)
    requires
        is_hex_digit(c),
    ensures
        v as nat == hex_digit_value(c),
        v < 16,
{
    let u: u32 = c as u32;
    if 0x30 <= u && u <= 0x39 {
        (u - 0x30) as u64
    } else if 0x41 <= u && u <= 0x46 {
        (u - 0x41 + 10) as u64
    } else {
        (u - 0x61 + 10) as u64
    }
}

fn is_hex_digit_exec(c: char) -> (b: bool)
    ensures
        b == is_hex_digit(c),
{
    let u: u32 = c as u32;
    (0x30 <= u && u <= 0x39) || (0x41 <= u && u <= 0x46) || (0x61 <= u && u <= 0x66)
}

/// Parses a tag ID whose surrounding white space is already removed.
pub fn parse_trimmed_tag_id(trimmed: &str) -> (r: Result<(u64, u64, u16), TagIdError>)
    ensures
        r == spec_parse_trimmed_tag_id(trimmed@),
{
    let len: usize = trimmed.unicode_len();
    let has_prefix = len >= 2 && trimmed.get_char(0) == '0' && (trimmed.get_char(1) == 'x'
        || trimmed.get_char(1) == 'X');
    let digits = if has_prefix {
        trimmed.substring_char(2, len)
    } else {
        trimmed.substring_char(0, len)
    };
    assert(digits@ == strip_hex_prefix(trimmed@)) by {
        if !has_prefix {
            assert(trimmed@.subrange(0, len as int) =~= trimmed@);
        }
    }
    let n: usize = digits.unicode_len();
    if n != 16 {
        return Err(TagIdError::NotSixteenHexDigits);
    }
    let mut i: usize = 0;
    while i < 16
        invariant
            0 <= i <= 16,
            digits@.len() == 16,
            digits@ == strip_hex_prefix(trimmed@),
            forall|j: int| 0 <= j < i ==> #[trigger] is_hex_digit(digits@[j]),
        decreases 16 - i,
    {
        let c = digits.get_char(i);
        if !is_hex_digit_exec(c) {
            assert(!is_hex_digit(digits@[i as int]));
            return Err(TagIdError::NotSixteenHexDigits);
        }
        i = i + 1;
    }
    let ghost d = digits@;
    proof {
        lemma_pow16_16();
    }
    let mut value: u64 = 0;
    let mut k: usize = 0;
    while k < 16
        invariant
            0 <= k <= 16,
            d == digits@,
            d == strip_hex_prefix(trimmed@),
            d.len() == 16,
            forall|j: int| 0 <= j < 16 ==> #[trigger] is_hex_digit(d[j]),
            value as nat == hex_value(d.subrange(0, k as int)),
            (value as nat) < pow16(k as nat),
            pow16(16) == 0x1_0000_0000_0000_0000,
        decreases 16 - k,
    {
        proof {
            lemma_pow16_16();
        }
        let c = digits.get_char(k);
        let v: u64 = hex_digit_exec(c);
        let ghost p = pow16(k as nat);
        proof {
            lemma_pow16_monotone(k as nat + 1, 16);
            assert((value as nat) * 16 + (v as nat) < 16 * p) by (nonlinear_arith)
                requires
                    (value as nat) < p,
                    (v as nat) < 16,
            ;
            assert(d.subrange(0, k as int + 1).drop_last() =~= d.subrange(0, k as int));
        }
        value = value * 16 + v;
        k = k + 1;
    }
    assert(d.subrange(0, 16) =~= d);
    let tag_id: u64 = value;
    if tag_id & 0x0000_FF00_0000_0000u64 != 0 {
        return Err(TagIdError::NonzeroVariantBits);
    }
    assert((tag_id >> 48u64) <= 0xffff) by (bit_vector);
    let upper: u16 = (tag_id >> 48u64) as u16;
    let lower: u64 = tag_id & 0x0000_00FF_FFFF_FFFFu64;
    if lower == 0 {
        return Err(TagIdError::ZeroLowerPortion);
    }
    Ok((tag_id, lower, upper))
}

proof fn lemma_pow16_monotone(a: nat, b: nat)
    requires
        a <= b,
    ensures
        pow16(a) <= pow16(b),
    decreases b,
{
    if a < b {
        lemma_pow16_monotone(a, (b - 1) as nat);
    }
}

/// Parses a mapping file's tag ID text: the full ID, the `ui_amiibo_id` (its
/// low 40 bits) and the NFP character ID (its high 16 bits).
pub fn parse_tag_id(value: &str) -> (r: Result<(u64, u64, u16), String>)
    ensures
        match spec_parse_tag_id(value@) {
            Ok(t) => r == Ok::<(u64, u64, u16), String>(t),
            Err(e) => r is Err && r->Err_0@ == tag_id_error_message(e),
        },
{
    let trimmed = trim_str(value);
    match parse_trimmed_tag_id(trimmed) {
        Ok(t) => Ok(t),
        Err(e) => Err(e.message()),
    }
}

/// The NFP key by which `ui_amiibo_db` picks a character row.
#[derive(Debug, Clone, Copy, PartialEq, Eq, Structural)]
pub struct NfpMatchKey {
    pub character_id_upper: u16,
    pub character_id_lower: u8,
    pub numbering_id: u16,
    pub enable_unknown_numbering_id: bool,
}

pub open spec fn spec_is_private_virtual_boss_id(tag_id: u64) -> bool {
    (tag_id >> 32u64) as u32 == PRIVATE_VIRTUAL_BOSS_HEAD
}

pub open spec fn spec_nfp_character_id_lower(tag_id: u64) -> u8 {
    ((tag_id >> 40u64) & 0xffu64) as u8
}

pub open spec fn spec_nfp_numbering_id(tag_id: u64) -> u16 {
    ((tag_id >> 16u64) & 0xffffu64) as u16
}

pub open spec fn spec_private_virtual_nfp_match_key(tag_id: u64) -> Option<NfpMatchKey> {
    if spec_is_private_virtual_boss_id(tag_id) && spec_nfp_numbering_id(tag_id) != 0 {
        Some(
            NfpMatchKey {
                character_id_upper: (tag_id >> 48u64) as u16,
                character_id_lower: spec_nfp_character_id_lower(tag_id),
                numbering_id: spec_nfp_numbering_id(tag_id),
                enable_unknown_numbering_id: false,
            },
        )
    } else {
        None
    }
}

/// A private virtual ID with a zero model number: every such boss would
/// share one native NFP match key.
pub open spec fn spec_has_private_virtual_layout_error(tag_id: u64) -> bool {
    spec_is_private_virtual_boss_id(tag_id) && spec_nfp_numbering_id(tag_id) == 0
}

pub fn is_private_virtual_boss_id(tag_id: u64) -> (b: bool)
    ensures
        b == spec_is_private_virtual_boss_id(tag_id),
{
    assert((tag_id >> 32u64) <= 0xffff_ffff) by (bit_vector);
    (tag_id >> 32u64) as u32 == PRIVATE_VIRTUAL_BOSS_HEAD
}

pub fn nfp_character_id_lower_from_tag_id(tag_id: u64) -> (v: u8)
    ensures
        v == spec_nfp_character_id_lower(tag_id),
{
    assert(((tag_id >> 40u64) & 0xffu64) <= 0xff) by (bit_vector);
    ((tag_id >> 40u64) & 0xffu64) as u8
}

pub fn nfp_numbering_id_from_tag_id(tag_id: u64) -> (v: u16)
    ensures
        v == spec_nfp_numbering_id(tag_id),
{
    assert(((tag_id >> 16u64) & 0xffffu64) <= 0xffff) by (bit_vector);
    ((tag_id >> 16u64) & 0xffffu64) as u16
}

/// The NFP match key that a private virtual Boss Amiibo ID carries; `None`
/// for every other ID and for a private ID without a model number.
pub fn private_virtual_nfp_match_key(tag_id: u64) -> (k: Option<NfpMatchKey>)
    ensures
        k == spec_private_virtual_nfp_match_key(tag_id),
{
    if !is_private_virtual_boss_id(tag_id) {
        return None;
    }
    let numbering_id: u16 = nfp_numbering_id_from_tag_id(tag_id);
    if numbering_id != 0 {
        assert((tag_id >> 48u64) <= 0xffff) by (bit_vector);
        Some(
            NfpMatchKey {
                character_id_upper: (tag_id >> 48u64) as u16,
                character_id_lower: nfp_character_id_lower_from_tag_id(tag_id),
                numbering_id,
                enable_unknown_numbering_id: false,
            },
        )
    } else {
        None
    }
}

pub open spec fn private_virtual_layout_message() -> Seq<char> {
    "private virtual Boss Amiibo IDs require a non-zero model-number field (bits 16..31); the legacy 0x504200010000000N layout makes every boss share the same native NFP match key"@
}

/// The refusal of a private virtual ID whose model-number field is zero.
pub fn private_virtual_layout_error(tag_id: u64) -> (e: Option<&'static str>)
    ensures
        e is Some <==> spec_has_private_virtual_layout_error(tag_id),
        e matches Some(m) ==> m@ == private_virtual_layout_message(),
{
    if is_private_virtual_boss_id(tag_id) && nfp_numbering_id_from_tag_id(tag_id) == 0 {
        return Some(
            "private virtual Boss Amiibo IDs require a non-zero model-number field (bits 16..31); the legacy 0x504200010000000N layout makes every boss share the same native NFP match key",
        );
    }
    None
}

/// A private virtual ID either has a native match key or is refused for its
/// layout, never both; any other ID has neither. The key carries the ID's
/// model number (never zero) and the private head's character id, so two
/// private virtual IDs share a key exactly when they share a model number.
pub proof fn lemma_private_virtual_ids_are_keyed_by_model_number(t: u64, u: u64)
    ensures
        spec_is_private_virtual_boss_id(t) ==> (spec_private_virtual_nfp_match_key(t) is Some)
            != spec_has_private_virtual_layout_error(t),
        !spec_is_private_virtual_boss_id(t) ==> spec_private_virtual_nfp_match_key(t) is None
            && !spec_has_private_virtual_layout_error(t),
        spec_private_virtual_nfp_match_key(t) matches Some(k) ==> k.numbering_id != 0
            && k.numbering_id == (t >> 16u64) & 0xffffu64 && k.character_id_upper == 0x5042
            && k.character_id_lower == 0 && !k.enable_unknown_numbering_id,
        spec_private_virtual_nfp_match_key(t) is Some && spec_private_virtual_nfp_match_key(u) is Some
            ==> (spec_private_virtual_nfp_match_key(t) == spec_private_virtual_nfp_match_key(u) <==> (t
            >> 16u64) & 0xffffu64 == (u >> 16u64) & 0xffffu64),
{
    if spec_is_private_virtual_boss_id(t) {
        assert((t >> 48u64) as u16 == 0x5042u16 && ((t >> 40u64) & 0xffu64) as u8 == 0u8) by (bit_vector)
            requires
                (t >> 32u64) as u32 == 0x5042_0001u32,
        ;
        assert(((t >> 16u64) & 0xffffu64) as u16 == (t >> 16u64) & 0xffffu64) by (bit_vector);
    }
    if spec_is_private_virtual_boss_id(u) {
        assert((u >> 48u64) as u16 == 0x5042u16 && ((u >> 40u64) & 0xffu64) as u8 == 0u8) by (bit_vector)
            requires
                (u >> 32u64) as u32 == 0x5042_0001u32,
        ;
        assert(((u >> 16u64) & 0xffffu64) as u16 == (u >> 16u64) & 0xffffu64) by (bit_vector);
    }
}

/// Both keys present and equal: the one key that two mappings share.
pub open spec fn spec_duplicate_nfp_match_key(
    left: Option<NfpMatchKey>,
    right: Option<NfpMatchKey>,
) -> Option<NfpMatchKey> {
    match (left, right) {
        (Some(l), Some(r)) => if l == r {
            Some(l)
        } else {
            None
        },
        _ => None,
    }
}

pub fn duplicate_nfp_match_key(left: Option<NfpMatchKey>, right: Option<NfpMatchKey>) -> (d: Option<
    NfpMatchKey,
>)
    ensures
        d == spec_duplicate_nfp_match_key(left, right),
{
    match (left, right) {
        (Some(l), Some(r)) => if l == r {
            Some(l)
        } else {
            None
        },
        _ => None,
    }
}


/// A hexadecimal digit in upper case.
pub open spec fn hex_char_upper(d: nat) -> char {
    if d < 10 {
        (48 + d) as char
    } else {
        (55 + d) as char
    }
}

/// The `width` lowest hexadecimal digits of `v`, upper case, most
/// significant first: `format!("{:0width$X}", v)` for every `v` below
/// `16^width`.
pub open spec fn hex_digits_upper(v: nat, width: nat) -> Seq<char>
    decreases width,
{
    if width == 0 {
        Seq::empty()
    } else {
        hex_digits_upper(v / 16, (width - 1) as nat).push(hex_char_upper(v % 16))
    }
}

pub open spec fn all_whitespace(s: Seq<char>) -> bool {
    forall|i: int| 0 <= i < s.len() ==> #[trigger] is_unicode_whitespace(s[i])
}

proof fn lemma_hex_char_round_trip(d: nat)
    requires
        d < 16,
    ensures
        is_hex_digit(hex_char(d)),
        hex_digit_value(hex_char(d)) == d,
        is_hex_digit(hex_char_upper(d)),
        hex_digit_value(hex_char_upper(d)) == d,
{
    if d < 10 {
        assert(hex_char(d) as u32 == 48 + d);
        assert(hex_char_upper(d) as u32 == 48 + d);
    } else {
        assert(hex_char(d) as u32 == 87 + d);
        assert(hex_char_upper(d) as u32 == 55 + d);
    }
}

proof fn lemma_hex_digits_read_back(v: nat, w: nat)
    ensures
        hex_digits(v, w).len() == w,
        forall|i: int| 0 <= i < w ==> #[trigger] is_hex_digit(hex_digits(v, w)[i]),
        hex_value(hex_digits(v, w)) == v % pow16(w),
        hex_digits_upper(v, w).len() == w,
        forall|i: int| 0 <= i < w ==> #[trigger] is_hex_digit(hex_digits_upper(v, w)[i]),
        hex_value(hex_digits_upper(v, w)) == v % pow16(w),
    decreases w,
{
    if w > 0 {
        let q = v / 16;
        let d = v % 16;
        lemma_hex_digits_read_back(q, (w - 1) as nat);
        lemma_hex_char_round_trip(d);
        let s = hex_digits(v, w);
        let u = hex_digits_upper(v, w);
        assert(s.drop_last() =~= hex_digits(q, (w - 1) as nat));
        assert(u.drop_last() =~= hex_digits_upper(q, (w - 1) as nat));
        assert forall|i: int| 0 <= i < w implies #[trigger] is_hex_digit(hex_digits(v, w)[i]) by {
            if i < w - 1 {
                assert(s[i] == hex_digits(q, (w - 1) as nat)[i]);
            }
        }
        assert forall|i: int| 0 <= i < w implies #[trigger] is_hex_digit(hex_digits_upper(v, w)[i]) by {
            if i < w - 1 {
                assert(u[i] == hex_digits_upper(q, (w - 1) as nat)[i]);
            }
        }
        lemma_pow16_positive((w - 1) as nat);
        vstd::arithmetic::div_mod::lemma_mod_breakdown(v as int, 16, pow16((w - 1) as nat) as int);
        assert(hex_value(s) == (q % pow16((w - 1) as nat)) * 16 + d);
        assert(hex_value(u) == (q % pow16((w - 1) as nat)) * 16 + d);
        assert(16 * ((v as int / 16) % (pow16((w - 1) as nat) as int)) == (q % pow16((w - 1) as nat)) * 16);
    } else {
        assert(v % 1 == 0);
    }
}

proof fn lemma_pow16_positive(n: nat)
    ensures
        pow16(n) > 0,
    decreases n,
{
    if n > 0 {
        lemma_pow16_positive((n - 1) as nat);
    }
}

/// White space before a text that starts with anything else is trimmed away.
proof fn lemma_trim_start_skips(a: Seq<char>, x: Seq<char>)
    requires
        all_whitespace(a),
        x.len() > 0,
        !is_unicode_whitespace(x[0]),
    ensures
        trim_start(a + x) == x,
    decreases a.len(),
{
    if a.len() > 0 {
        assert((a + x)[0] == a[0]);
        assert((a + x).drop_first() =~= a.drop_first() + x);
        lemma_trim_start_skips(a.drop_first(), x);
    } else {
        assert(a + x =~= x);
    }
}

/// White space after a text that ends with anything else is trimmed away.
proof fn lemma_trim_end_skips(x: Seq<char>, b: Seq<char>)
    requires
        all_whitespace(b),
        x.len() > 0,
        !is_unicode_whitespace(x.last()),
    ensures
        trim_end(x + b) == x,
    decreases b.len(),
{
    if b.len() > 0 {
        assert((x + b).last() == b.last());
        assert((x + b).drop_last() =~= x + b.drop_last());
        lemma_trim_end_skips(x, b.drop_last());
    } else {
        assert(x + b =~= x);
    }
}

/// Sixteen hexadecimal digits, with or without a `0x` or `0X` prefix and
/// with any white space around them, read back as the ID they write.
proof fn lemma_digits_read_back(d: Seq<char>, t: u64, before: Seq<char>, after: Seq<char>)
    requires
        is_sixteen_hex_digits(d),
        hex_value(d) == t,
        t & 0x0000_FF00_0000_0000u64 == 0,
        t & 0x0000_00FF_FFFF_FFFFu64 != 0,
        all_whitespace(before),
        all_whitespace(after),
    ensures
        spec_parse_tag_id(before + d + after) == Ok::<(u64, u64, u16), TagIdError>(
            (t, t & 0x0000_00FF_FFFF_FFFFu64, (t >> 48u64) as u16),
        ),
        spec_parse_tag_id(before + ("0x"@ + d) + after) == Ok::<(u64, u64, u16), TagIdError>(
            (t, t & 0x0000_00FF_FFFF_FFFFu64, (t >> 48u64) as u16),
        ),
        spec_parse_tag_id(before + ("0X"@ + d) + after) == Ok::<(u64, u64, u16), TagIdError>(
            (t, t & 0x0000_00FF_FFFF_FFFFu64, (t >> 48u64) as u16),
        ),
{
    assert('x' as u32 == 0x78);
    assert('X' as u32 == 0x58);
    assert(d.len() >= 2 ==> !(d[0] == '0' && (d[1] == 'x' || d[1] == 'X'))) by {
        if d.len() >= 2 && d[0] == '0' {
            assert(is_hex_digit(d[1]));
        }
    }
    assert(strip_hex_prefix(d) == d);
    reveal_strlit("0x");
    reveal_strlit("0X");
    let p = "0x"@ + d;
    let q = "0X"@ + d;
    assert(p[0] == '0' && p[1] == 'x');
    assert(q[0] == '0' && q[1] == 'X');
    assert(p.subrange(2, p.len() as int) =~= d);
    assert(q.subrange(2, q.len() as int) =~= d);
    assert(is_hex_digit(d[0]) && is_hex_digit(d[15]));
    assert(!is_unicode_whitespace(d[0]) && !is_unicode_whitespace(d.last()));
    assert(p.last() == d.last() && q.last() == d.last());
    assert(!is_unicode_whitespace('0'));
    let xs = seq![d, p, q];
    assert forall|k: int| 0 <= k < 3 implies trim(before + #[trigger] xs[k] + after) == xs[k] by {
        let x = xs[k];
        assert(before + x + after =~= before + (x + after));
        assert((x + after)[0] == x[0]);
        lemma_trim_start_skips(before, x + after);
        lemma_trim_end_skips(x, after);
    }
    assert(trim(before + xs[0] + after) == d);
    assert(trim(before + xs[1] + after) == p);
    assert(trim(before + xs[2] + after) == q);
}

/// A tag ID written as sixteen hexadecimal digits, in lower or upper case,
/// with or without its `0x` or `0X` prefix and with any white space around
/// it, is read back as that ID whenever the layout rules accept it.
pub proof fn lemma_written_tag_id_reads_back(t: u64, before: Seq<char>, after: Seq<char>)
    requires
        t & 0x0000_FF00_0000_0000u64 == 0,
        t & 0x0000_00FF_FFFF_FFFFu64 != 0,
        all_whitespace(before),
        all_whitespace(after),
    ensures
        spec_parse_tag_id(before + hex_digits(t as nat, 16) + after) == Ok::<(u64, u64, u16), TagIdError>(
            (t, t & 0x0000_00FF_FFFF_FFFFu64, (t >> 48u64) as u16),
        ),
        spec_parse_tag_id(before + ("0x"@ + hex_digits(t as nat, 16)) + after) == Ok::<
            (u64, u64, u16),
            TagIdError,
        >((t, t & 0x0000_00FF_FFFF_FFFFu64, (t >> 48u64) as u16)),
        spec_parse_tag_id(before + hex_digits_upper(t as nat, 16) + after) == Ok::<
            (u64, u64, u16),
            TagIdError,
        >((t, t & 0x0000_00FF_FFFF_FFFFu64, (t >> 48u64) as u16)),
        spec_parse_tag_id(before + ("0X"@ + hex_digits_upper(t as nat, 16)) + after) == Ok::<
            (u64, u64, u16),
            TagIdError,
        >((t, t & 0x0000_00FF_FFFF_FFFFu64, (t >> 48u64) as u16)),
{
    lemma_hex_digits_read_back(t as nat, 16);
    lemma_pow16_16();
    lemma_digits_read_back(hex_digits(t as nat, 16), t, before, after);
    lemma_digits_read_back(hex_digits_upper(t as nat, 16), t, before, after);
}

} // verus!
