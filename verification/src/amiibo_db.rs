//! Rows of `ui_amiibo_db`: recognising the schema, choosing a template row,
//! and building an appended row for a boss.
use vstd::prelude::*;
use vstd::set_lib::*;
use crate::tag_id::NfpMatchKey;

verus! {

/// One value of a param tree, as `prc` reads it. A float is held by its bit
/// pattern.
#[derive(Debug, PartialEq)]
pub enum ParamValue {
    Bool(bool),
    I8(i8),
    U8(u8),
    I16(i16),
    U16(u16),
    I32(i32),
    U32(u32),
    FloatBits(u32),
    Hash(u64),
    Str(String),
    List(ParamList),
    Struct(ParamStruct),
}

/// A list of params.
#[derive(Debug, PartialEq)]
pub struct ParamList(pub Vec<ParamValue>);

/// Key/value pairs in file order; a key may occur twice.
#[derive(Debug, PartialEq)]
pub struct ParamStruct(pub Vec<(u64, ParamValue)>);

pub const FIELD_UI_AMIIBO_ID: u64 = 0xc8c2_eed80;
pub const FIELD_UI_CHARA_ID: u64 = 0xbd8f_6a88e;
pub const FIELD_IS_VALID: u64 = 0x8c0f_bd68f;
pub const FIELD_UNKNOWN_BOOL: u64 = 0x13a2_6bd6a0;
pub const FIELD_NFP_CHARACTER_ID_UPPER: u64 = 0x16d9_89b32f;
pub const FIELD_NFP_CHARACTER_ID_LOWER: u64 = 0x16b9_4c1790;
pub const FIELD_NFP_NUMBERING_ID: u64 = 0x109c_47bcd7;
pub const FIELD_DEFAULT_COLOR: u64 = 0x0d8f_701ce7;
pub const FIELD_ENABLE_UNKNOWN_NUMBERING_ID: u64 = 0x1bc5_7e4ce5;

/// The type that the schema gives a field.
#[derive(Debug, Clone, Copy, PartialEq, Eq, Structural)]
pub enum AmiiboFieldType {
    Bool,
    U8,
    U16,
    Hash40,
}

/// The nine fields of a verified `ui_amiibo_db` row and their types.
pub open spec fn verified_amiibo_fields() -> Seq<(u64, AmiiboFieldType)> {
    seq![
        (FIELD_UI_AMIIBO_ID, AmiiboFieldType::Hash40),
        (FIELD_UI_CHARA_ID, AmiiboFieldType::Hash40),
        (FIELD_IS_VALID, AmiiboFieldType::Bool),
        (FIELD_UNKNOWN_BOOL, AmiiboFieldType::Bool),
        (FIELD_NFP_NUMBERING_ID, AmiiboFieldType::U16),
        (FIELD_DEFAULT_COLOR, AmiiboFieldType::U8),
        (FIELD_ENABLE_UNKNOWN_NUMBERING_ID, AmiiboFieldType::Bool),
        (FIELD_NFP_CHARACTER_ID_UPPER, AmiiboFieldType::U16),
        (FIELD_NFP_CHARACTER_ID_LOWER, AmiiboFieldType::U8),
    ]
}

fn verified_amiibo_fields_exec() -> (r: [(u64, AmiiboFieldType); 9])
    ensures
        r@ == verified_amiibo_fields(),
{
    let r = [
        (FIELD_UI_AMIIBO_ID, AmiiboFieldType::Hash40),
        (FIELD_UI_CHARA_ID, AmiiboFieldType::Hash40),
        (FIELD_IS_VALID, AmiiboFieldType::Bool),
        (FIELD_UNKNOWN_BOOL, AmiiboFieldType::Bool),
        (FIELD_NFP_NUMBERING_ID, AmiiboFieldType::U16),
        (FIELD_DEFAULT_COLOR, AmiiboFieldType::U8),
        (FIELD_ENABLE_UNKNOWN_NUMBERING_ID, AmiiboFieldType::Bool),
        (FIELD_NFP_CHARACTER_ID_UPPER, AmiiboFieldType::U16),
        (FIELD_NFP_CHARACTER_ID_LOWER, AmiiboFieldType::U8),
    ];
    assert(r@ =~= verified_amiibo_fields());
    r
}

/// The position of the first field named `hash`, looking from `i` on.
pub open spec fn field_index_from(fields: Seq<(u64, ParamValue)>, hash: u64, i: int) -> Option<int>
    decreases fields.len() - i,
{
    if i < 0 || i >= fields.len() {
        None
    } else if fields[i].0 == hash {
        Some(i)
    } else {
        field_index_from(fields, hash, i + 1)
    }
}

pub open spec fn field_index(fields: Seq<(u64, ParamValue)>, hash: u64) -> Option<int> {
    field_index_from(fields, hash, 0)
}

/// The value of the first field named `hash`.
pub open spec fn spec_field(fields: Seq<(u64, ParamValue)>, hash: u64) -> Option<ParamValue> {
    match field_index(fields, hash) {
        Some(i) => Some(fields[i].1),
        None => None,
    }
}

proof fn lemma_field_index_from(fields: Seq<(u64, ParamValue)>, hash: u64, i: int)
    requires
        0 <= i,
    ensures
        match field_index_from(fields, hash, i) {
            Some(k) => i <= k < fields.len() && fields[k].0 == hash && forall|j: int|
                i <= j < k ==> fields[j].0 != hash,
            None => forall|j: int| i <= j < fields.len() ==> fields[j].0 != hash,
        },
    decreases fields.len() - i,
{
    if i < fields.len() && fields[i].0 != hash {
        lemma_field_index_from(fields, hash, i + 1);
    }
}

pub open spec fn has_type(value: ParamValue, field_type: AmiiboFieldType) -> bool {
    match field_type {
        AmiiboFieldType::Bool => value is Bool,
        AmiiboFieldType::U8 => value is U8,
        AmiiboFieldType::U16 => value is U16,
        AmiiboFieldType::Hash40 => value is Hash,
    }
}

/// Exactly nine fields, and each verified field is present with its type.
pub open spec fn spec_is_verified_amiibo_record(fields: Seq<(u64, ParamValue)>) -> bool {
    fields.len() == 9 && forall|k: int|
        0 <= k < 9 ==> match #[trigger] spec_field(fields, verified_amiibo_fields()[k].0) {
            Some(v) => has_type(v, verified_amiibo_fields()[k].1),
            None => false,
        }
}

/// The first field named `hash`.
pub fn field(record: &ParamStruct, hash: u64) -> (r: Option<&ParamValue>)
    ensures
        match spec_field(record.0@, hash) {
            Some(v) => r is Some && *r->0 == v,
            None => r is None,
        },
{
    let n = record.0.len();
    let mut i: usize = 0;
    while i < n
        invariant
            n == record.0@.len(),
            i <= n,
            field_index_from(record.0@, hash, 0) == field_index_from(record.0@, hash, i as int),
        decreases n - i,
    {
        if record.0[i].0 == hash {
            return Some(&record.0[i].1);
        }
        i = i + 1;
    }
    None
}

pub fn field_has_type(value: &ParamValue, field_type: AmiiboFieldType) -> (r: bool)
    ensures
        r == has_type(*value, field_type),
{
    match field_type {
        AmiiboFieldType::Bool => matches!(value, ParamValue::Bool(_)),
        AmiiboFieldType::U8 => matches!(value, ParamValue::U8(_)),
        AmiiboFieldType::U16 => matches!(value, ParamValue::U16(_)),
        AmiiboFieldType::Hash40 => matches!(value, ParamValue::Hash(_)),
    }
}

/// Whether a row has exactly the verified `ui_amiibo_db` schema.
pub fn is_verified_amiibo_record(record: &ParamStruct) -> (r: bool)
    ensures
        r == spec_is_verified_amiibo_record(record.0@),
{
    if record.0.len() != 9 {
        return false;
    }
    let schema = verified_amiibo_fields_exec();
    let mut k: usize = 0;
    while k < 9
        invariant
            k <= 9,
            record.0@.len() == 9,
            schema@ == verified_amiibo_fields(),
            forall|j: int|
                0 <= j < k ==> match #[trigger] spec_field(record.0@, verified_amiibo_fields()[j].0) {
                    Some(v) => has_type(v, verified_amiibo_fields()[j].1),
                    None => false,
                },
        decreases 9 - k,
    {
        let (hash, field_type) = schema[k];
        let ok = match field(record, hash) {
            Some(value) => field_has_type(value, field_type),
            None => false,
        };
        if !ok {
            return false;
        }
        k = k + 1;
    }
    true
}

/// A value that a verified row can hold: every one of its fields is a flag,
/// a byte, a 16-bit number or a hash.
pub open spec fn is_scalar(value: ParamValue) -> bool {
    value is Bool || value is U8 || value is U16 || value is Hash
}

/// The position of the first field named `hash`, which a verified row has.
spec fn verified_position(record: ParamStruct, hash: u64) -> int {
    field_index(record.0@, hash)->0
}

/// The first positions of the first `k` verified fields of a verified row:
/// `k` different places among its nine.
proof fn lemma_first_positions(record: ParamStruct, k: int) -> (s: Set<int>)
    requires
        spec_is_verified_amiibo_record(record.0@),
        0 <= k <= 9,
    ensures
        s.finite(),
        s.len() == k,
        s.subset_of(set_int_range(0, 9)),
        forall|j: int|
            #![trigger s.contains(j)]
            s.contains(j) ==> exists|a: int|
                0 <= a < k && field_index(record.0@, #[trigger] verified_amiibo_fields()[a].0)
                    == Some(j),
    decreases k,
{
    broadcast use vstd::set::group_set_axioms;

    let f = record.0@;
    let vf = verified_amiibo_fields();
    assert(vf[0].0 == FIELD_UI_AMIIBO_ID && vf[1].0 == FIELD_UI_CHARA_ID && vf[2].0
        == FIELD_IS_VALID && vf[3].0 == FIELD_UNKNOWN_BOOL && vf[4].0 == FIELD_NFP_NUMBERING_ID
        && vf[5].0 == FIELD_DEFAULT_COLOR && vf[6].0 == FIELD_ENABLE_UNKNOWN_NUMBERING_ID
        && vf[7].0 == FIELD_NFP_CHARACTER_ID_UPPER && vf[8].0 == FIELD_NFP_CHARACTER_ID_LOWER);
    if k == 0 {
        Set::empty()
    } else {
        let prev = lemma_first_positions(record, k - 1);
        let h = vf[k - 1].0;
        assert(spec_field(record.0@, h) is Some);
        lemma_field_index_from(f, h, 0);
        let p = field_index(record.0@, h)->0;
        assert(!prev.contains(p)) by {
            if prev.contains(p) {
                let a = choose|a: int|
                    0 <= a < k - 1 && field_index(record.0@, #[trigger] vf[a].0) == Some(p);
                lemma_field_index_from(f, vf[a].0, 0);
                assert(vf[a].0 == h);
            }
        }
        let s = prev.insert(p);
        assert forall|j: int| #![trigger s.contains(j)] s.contains(j) implies exists|a: int|
            0 <= a < k && field_index(record.0@, #[trigger] vf[a].0) == Some(j) by {
            if j == p {
                assert(field_index(record.0@, vf[k - 1].0) == Some(j));
            } else {
                assert(prev.contains(j));
            }
        }
        s
    }
}

/// A verified row holds nothing but its nine typed fields: its nine first
/// positions fill all nine places.
proof fn lemma_verified_record_is_scalar(record: ParamStruct)
    requires
        spec_is_verified_amiibo_record(record.0@),
    ensures
        forall|j: int| 0 <= j < record.0@.len() ==> is_scalar(#[trigger] record.0@[j].1),
{
    let f = record.0@;
    let vf = verified_amiibo_fields();
    let s = lemma_first_positions(record, 9);
    lemma_int_range(0, 9);
    lemma_subset_equality(s, set_int_range(0, 9));
    assert forall|j: int| 0 <= j < f.len() implies is_scalar(#[trigger] f[j].1) by {
        assert(set_int_range(0, 9).contains(j));
        assert(s.contains(j));
        let a = choose|a: int| 0 <= a < 9 && field_index(record.0@, #[trigger] vf[a].0) == Some(j);
        lemma_field_index_from(f, vf[a].0, 0);
        assert(spec_field(record.0@, vf[a].0) == Some(f[j].1));
    }
}

fn copy_scalar(value: &ParamValue) -> (r: ParamValue)
    requires
        is_scalar(*value),
    ensures
        r == *value,
{
    match value {
        ParamValue::Bool(b) => ParamValue::Bool(*b),
        ParamValue::U8(x) => ParamValue::U8(*x),
        ParamValue::U16(x) => ParamValue::U16(*x),
        ParamValue::Hash(x) => ParamValue::Hash(*x),
        _ => {
            proof {
                assert(false);
            }
            ParamValue::Bool(false)
        },
    }
}

/// A copy of a verified row.
fn copy_verified_record(record: &ParamStruct) -> (r: ParamStruct)
    requires
        spec_is_verified_amiibo_record(record.0@),
    ensures
        r.0@ == record.0@,
{
    proof {
        lemma_verified_record_is_scalar(*record);
    }
    let n = record.0.len();
    let mut out: Vec<(u64, ParamValue)> = Vec::new();
    let mut i: usize = 0;
    while i < n
        invariant
            n == record.0@.len(),
            i <= n,
            out@ == record.0@.subrange(0, i as int),
            forall|j: int| 0 <= j < n ==> is_scalar(#[trigger] record.0@[j].1),
        decreases n - i,
    {
        let value = copy_scalar(&record.0[i].1);
        out.push((record.0[i].0, value));
        proof {
            assert(out@ =~= record.0@.subrange(0, i + 1));
        }
        i = i + 1;
    }
    assert(out@ =~= record.0@);
    ParamStruct(out)
}

/// A list entry that is a row with the verified schema.
pub open spec fn is_verified_entry(value: ParamValue) -> bool {
    value is Struct && spec_is_verified_amiibo_record((value->Struct_0).0@)
}

/// A verified row whose `is_valid` flag is set.
pub open spec fn is_valid_entry(value: ParamValue) -> bool {
    is_verified_entry(value) && spec_field((value->Struct_0).0@, FIELD_IS_VALID) == Some(
        ParamValue::Bool(true),
    )
}

/// A valid row that stands for no product: unknown numbering enabled and a
/// zero numbering id and character id.
pub open spec fn is_sentinel_entry(value: ParamValue) -> bool {
    let record = value->Struct_0;
    &&& is_valid_entry(value)
    &&& spec_field(record.0@, FIELD_ENABLE_UNKNOWN_NUMBERING_ID) == Some(ParamValue::Bool(true))
    &&& spec_field(record.0@, FIELD_NFP_NUMBERING_ID) == Some(ParamValue::U16(0))
    &&& spec_field(record.0@, FIELD_NFP_CHARACTER_ID_LOWER) == Some(ParamValue::U8(0))
    &&& spec_field(record.0@, FIELD_NFP_CHARACTER_ID_UPPER) == Some(ParamValue::U16(0))
}

pub open spec fn verified_entry() -> spec_fn(ParamValue) -> bool {
    |v: ParamValue| is_verified_entry(v)
}

pub open spec fn valid_entry() -> spec_fn(ParamValue) -> bool {
    |v: ParamValue| is_valid_entry(v)
}

pub open spec fn sentinel_entry() -> spec_fn(ParamValue) -> bool {
    |v: ParamValue| is_sentinel_entry(v)
}

/// The first index below `n` whose entry meets `p`.
pub open spec fn first_before(s: Seq<ParamValue>, p: spec_fn(ParamValue) -> bool, n: int) -> Option<
    int,
>
    decreases n,
{
    if n <= 0 {
        None
    } else {
        match first_before(s, p, n - 1) {
            Some(k) => Some(k),
            None => if p(s[n - 1]) {
                Some(n - 1)
            } else {
                None
            },
        }
    }
}

/// How many entries below `n` meet `p`.
pub open spec fn count_before(s: Seq<ParamValue>, p: spec_fn(ParamValue) -> bool, n: int) -> nat
    decreases n,
{
    if n <= 0 {
        0
    } else {
        count_before(s, p, n - 1) + if p(s[n - 1]) {
            1nat
        } else {
            0nat
        }
    }
}

/// The entry a new row is copied from: the first sentinel row, else the
/// first valid row, else the first verified row.
pub open spec fn spec_select_template(s: Seq<ParamValue>) -> Option<int> {
    match first_before(s, sentinel_entry(), s.len() as int) {
        Some(i) => Some(i),
        None => match first_before(s, valid_entry(), s.len() as int) {
            Some(i) => Some(i),
            None => first_before(s, verified_entry(), s.len() as int),
        },
    }
}

spec fn same_index(a: Option<usize>, b: Option<int>) -> bool {
    match b {
        Some(k) => a == Some(k as usize),
        None => a is None,
    }
}

proof fn lemma_first_before_stays(s: Seq<ParamValue>, p: spec_fn(ParamValue) -> bool, m: int, n: int)
    requires
        m <= n,
        first_before(s, p, m) is Some,
    ensures
        first_before(s, p, n) == first_before(s, p, m),
    decreases n - m,
{
    if m < n {
        lemma_first_before_stays(s, p, m, n - 1);
    }
}

proof fn lemma_first_before_bounds(s: Seq<ParamValue>, p: spec_fn(ParamValue) -> bool, n: int)
    ensures
        match first_before(s, p, n) {
            Some(k) => 0 <= k < n && p(s[k]),
            None => true,
        },
    decreases n,
{
    if n > 0 {
        lemma_first_before_bounds(s, p, n - 1);
    }
}

proof fn lemma_first_before_least(s: Seq<ParamValue>, p: spec_fn(ParamValue) -> bool, n: int, k: int)
    requires
        0 <= k < n,
        p(s[k]),
    ensures
        first_before(s, p, n) is Some,
        first_before(s, p, n)->0 <= k,
    decreases n,
{
    if k < n - 1 {
        lemma_first_before_least(s, p, n - 1, k);
    } else {
        lemma_first_before_bounds(s, p, n - 1);
    }
}

/// The template a new row is copied from is always a row with the verified
/// schema, and there is one exactly when the list holds such a row. A
/// sentinel row is preferred to any other, then a valid row to a merely
/// verified one; among rows of the same standing the first is taken.
pub proof fn lemma_template_is_the_best_verified_row(s: Seq<ParamValue>)
    ensures
        ({
            let t = spec_select_template(s);
            &&& t is Some ==> 0 <= t->0 < s.len() && is_verified_entry(s[t->0])
            &&& t is None <==> forall|k: int| 0 <= k < s.len() ==> !is_verified_entry(#[trigger] s[k])
            &&& forall|k: int|
                0 <= k < s.len() && is_sentinel_entry(#[trigger] s[k]) ==> t is Some
                    && is_sentinel_entry(s[t->0]) && t->0 <= k
            &&& forall|k: int|
                0 <= k < s.len() && is_valid_entry(#[trigger] s[k]) ==> t is Some && is_valid_entry(
                    s[t->0],
                ) && (is_sentinel_entry(s[t->0]) || t->0 <= k)
            &&& forall|k: int|
                0 <= k < s.len() && is_verified_entry(#[trigger] s[k]) ==> t is Some && (
                is_valid_entry(s[t->0]) || t->0 <= k)
        }),
{
    let n = s.len() as int;
    lemma_first_before_bounds(s, sentinel_entry(), n);
    lemma_first_before_bounds(s, valid_entry(), n);
    lemma_first_before_bounds(s, verified_entry(), n);
    let t = spec_select_template(s);
    assert forall|k: int| 0 <= k < s.len() && is_sentinel_entry(#[trigger] s[k]) implies t is Some
        && is_sentinel_entry(s[t->0]) && t->0 <= k by {
        assert(sentinel_entry()(s[k]));
        lemma_first_before_least(s, sentinel_entry(), n, k);
    }
    assert forall|k: int| 0 <= k < s.len() && is_valid_entry(#[trigger] s[k]) implies t is Some
        && is_valid_entry(s[t->0]) && (is_sentinel_entry(s[t->0]) || t->0 <= k) by {
        assert(valid_entry()(s[k]));
        lemma_first_before_least(s, valid_entry(), n, k);
    }
    assert forall|k: int| 0 <= k < s.len() && is_verified_entry(#[trigger] s[k]) implies t is Some && (
    is_valid_entry(s[t->0]) || t->0 <= k) by {
        assert(verified_entry()(s[k]));
        lemma_first_before_least(s, verified_entry(), n, k);
    }
    if t is None {
        assert forall|k: int| 0 <= k < s.len() implies !is_verified_entry(#[trigger] s[k]) by {
            if is_verified_entry(s[k]) {
                assert(verified_entry()(s[k]));
                lemma_first_before_least(s, verified_entry(), n, k);
            }
        }
    }
}

/// Whether a list entry is a row with the verified schema.
pub fn is_verified_entry_exec(value: &ParamValue) -> (r: bool)
    ensures
        r == is_verified_entry(*value),
{
    match value {
        ParamValue::Struct(record) => is_verified_amiibo_record(record),
        _ => false,
    }
}

/// The template for appended rows, with its index: the first row that marks
/// no product, else the first valid row, else the first row with the
/// verified schema. The list itself is left as it was.
pub fn select_amiibo_template(records: &ParamList) -> (r: Option<(usize, ParamStruct)>)
    ensures
        match spec_select_template(records.0@) {
            Some(i) => r matches Some((index, template)) && index == i && template.0@ == (
                records.0@[i]->Struct_0).0@ && spec_is_verified_amiibo_record(template.0@),
            None => r is None,
        },
{
    let ghost s = records.0@;
    let n = records.0.len();
    let mut fallback: Option<usize> = None;
    let mut valid_fallback: Option<usize> = None;
    let mut i: usize = 0;
    while i < n
        invariant
            s == records.0@,
            n == s.len(),
            i <= n,
            same_index(fallback, first_before(s, verified_entry(), i as int)),
            same_index(valid_fallback, first_before(s, valid_entry(), i as int)),
            first_before(s, sentinel_entry(), i as int) is None,
        decreases n - i,
    {
        proof {
            lemma_first_before_bounds(s, verified_entry(), i as int);
            lemma_first_before_bounds(s, valid_entry(), i as int);
        }
        if let ParamValue::Struct(record) = &records.0[i] {
            if is_verified_amiibo_record(record) {
                if fallback.is_none() {
                    fallback = Some(i);
                }
                let is_valid = match field(record, FIELD_IS_VALID) {
                    Some(ParamValue::Bool(b)) => *b,
                    _ => false,
                };
                let unknown_numbering = match field(record, FIELD_ENABLE_UNKNOWN_NUMBERING_ID) {
                    Some(ParamValue::Bool(b)) => *b,
                    _ => false,
                };
                let numbering_zero = match field(record, FIELD_NFP_NUMBERING_ID) {
                    Some(ParamValue::U16(x)) => *x == 0,
                    _ => false,
                };
                let lower_zero = match field(record, FIELD_NFP_CHARACTER_ID_LOWER) {
                    Some(ParamValue::U8(x)) => *x == 0,
                    _ => false,
                };
                let upper_zero = match field(record, FIELD_NFP_CHARACTER_ID_UPPER) {
                    Some(ParamValue::U16(x)) => *x == 0,
                    _ => false,
                };
                if is_valid && unknown_numbering && numbering_zero && lower_zero && upper_zero {
                    proof {
                        assert(sentinel_entry()(s[i as int]));
                        assert(first_before(s, sentinel_entry(), i + 1) == Some(i as int));
                        lemma_first_before_stays(s, sentinel_entry(), i + 1, n as int);
                    }
                    let template = copy_verified_record(record);
                    return Some((i, template));
                }
                proof {
                    assert(!sentinel_entry()(s[i as int]));
                }
                if is_valid && valid_fallback.is_none() {
                    valid_fallback = Some(i);
                }
                proof {
                    assert(valid_entry()(s[i as int]) == is_valid);
                    assert(verified_entry()(s[i as int]));
                }
            } else {
                proof {
                    assert(!verified_entry()(s[i as int]));
                    assert(!valid_entry()(s[i as int]));
                    assert(!sentinel_entry()(s[i as int]));
                }
            }
        } else {
            proof {
                assert(!verified_entry()(s[i as int]));
                assert(!valid_entry()(s[i as int]));
                assert(!sentinel_entry()(s[i as int]));
            }
        }
        i = i + 1;
    }
    proof {
        lemma_first_before_bounds(s, verified_entry(), n as int);
        lemma_first_before_bounds(s, valid_entry(), n as int);
    }
    let chosen = match valid_fallback {
        Some(k) => Some(k),
        None => fallback,
    };
    match chosen {
        Some(k) => {
            if let ParamValue::Struct(record) = &records.0[k] {
                let template = copy_verified_record(record);
                Some((k, template))
            } else {
                proof {
                    assert(false);
                }
                None
            }
        },
        None => None,
    }
}

/// How many entries of the list are rows with the verified schema.
pub fn amiibo_schema_record_count(records: &ParamList) -> (r: usize)
    ensures
        r == count_before(records.0@, verified_entry(), records.0@.len() as int),
{
    let n = records.0.len();
    let mut count: usize = 0;
    let mut i: usize = 0;
    while i < n
        invariant
            n == records.0@.len(),
            i <= n,
            count == count_before(records.0@, verified_entry(), i as int),
            count <= i,
        decreases n - i,
    {
        if is_verified_entry_exec(&records.0[i]) {
            count = count + 1;
        }
        i = i + 1;
    }
    count
}

pub const FINGERPRINT_OFFSET: u64 = 0xcbf2_9ce4_8422_2325;
pub const FINGERPRINT_PRIME: u64 = 0x1000_0000_01b3;

/// One step of the fingerprint: xor the word in, then multiply modulo 2^64.
pub open spec fn mix(fingerprint: u64, word: u64) -> u64 {
    (((fingerprint ^ word) as nat * FINGERPRINT_PRIME as nat) % 0x1_0000_0000_0000_0000nat) as u64
}

/// The fingerprint of a sequence of words, mixed in from the first on.
pub open spec fn mix_all(words: Seq<u64>) -> u64
    decreases words.len(),
{
    if words.len() == 0 {
        FINGERPRINT_OFFSET
    } else {
        mix(mix_all(words.drop_last()), words.last())
    }
}

/// The number that stands for the kind of a value in the fingerprint.
pub open spec fn kind_code(value: ParamValue) -> u64 {
    match value {
        ParamValue::Bool(_) => 1,
        ParamValue::U8(_) => 2,
        ParamValue::U16(_) => 3,
        ParamValue::Hash(_) => 4,
        ParamValue::I8(_) => 5,
        ParamValue::I16(_) => 6,
        ParamValue::I32(_) => 7,
        ParamValue::U32(_) => 8,
        ParamValue::FloatBits(_) => 9,
        ParamValue::Str(_) => 10,
        ParamValue::List(_) => 11,
        ParamValue::Struct(_) => 12,
    }
}

/// The words of the first `n` fields of a row: each key, then its kind.
pub open spec fn field_words(fields: Seq<(u64, ParamValue)>, n: int) -> Seq<u64>
    decreases n,
{
    if n <= 0 {
        Seq::empty()
    } else {
        field_words(fields, n - 1) + seq![fields[n - 1].0, kind_code(fields[n - 1].1)]
    }
}

/// The words of one list entry: a row gives its length and its fields,
/// anything else the marker `0xff`.
pub open spec fn entry_words(value: ParamValue) -> Seq<u64> {
    match value {
        ParamValue::Struct(record) => seq![record.0@.len() as u64] + field_words(
            record.0@,
            record.0@.len() as int,
        ),
        _ => seq![0xffu64],
    }
}

/// The words of the first `n` entries of a list.
pub open spec fn entry_list_words(entries: Seq<ParamValue>, n: int) -> Seq<u64>
    decreases n,
{
    if n <= 0 {
        Seq::empty()
    } else {
        entry_list_words(entries, n - 1) + entry_words(entries[n - 1])
    }
}

/// All the words of a list: its length, then each entry's words.
pub open spec fn fingerprint_words(entries: Seq<ParamValue>) -> Seq<u64> {
    seq![entries.len() as u64] + entry_list_words(entries, entries.len() as int)
}

fn mix_word(fingerprint: u64, word: u64, Ghost(words): Ghost<Seq<u64>>) -> (r: u64)
    requires
        fingerprint == mix_all(words),
    ensures
        r == mix_all(words.push(word)),
{
    proof {
        assert(words.push(word).drop_last() =~= words);
    }
    (fingerprint ^ word).wrapping_mul(FINGERPRINT_PRIME)
}

/// A fingerprint of the shape of a list: its length, and for each row its
/// length and each key with the kind of its value. Values themselves do not
/// enter it.
pub fn amiibo_structural_fingerprint(records: &ParamList) -> (r: u64)
    ensures
        r == mix_all(fingerprint_words(records.0@)),
{
    let ghost entries = records.0@;
    let n = records.0.len();
    let mut fingerprint = FINGERPRINT_OFFSET;
    let ghost mut words: Seq<u64> = Seq::empty();
    proof {
        assert(mix_all(words) == FINGERPRINT_OFFSET);
    }
    fingerprint = mix_word(fingerprint, n as u64, Ghost(words));
    proof {
        words = words.push(n as u64);
        assert(words =~= seq![n as u64] + entry_list_words(entries, 0));
    }
    let mut i: usize = 0;
    while i < n
        invariant
            entries == records.0@,
            n == entries.len(),
            i <= n,
            fingerprint == mix_all(words),
            words == seq![n as u64] + entry_list_words(entries, i as int),
        decreases n - i,
    {
        match &records.0[i] {
            ParamValue::Struct(record) => {
                let m = record.0.len();
                let ghost before = words;
                fingerprint = mix_word(fingerprint, m as u64, Ghost(words));
                proof {
                    words = words.push(m as u64);
                    assert(words =~= before + (seq![m as u64] + field_words(record.0@, 0)));
                }
                let mut j: usize = 0;
                while j < m
                    invariant
                        m == record.0@.len(),
                        j <= m,
                        fingerprint == mix_all(words),
                        words == before + (seq![m as u64] + field_words(record.0@, j as int)),
                    decreases m - j,
                {
                    let hash = record.0[j].0;
                    let code: u64 = match &record.0[j].1 {
                        ParamValue::Bool(_) => 1,
                        ParamValue::U8(_) => 2,
                        ParamValue::U16(_) => 3,
                        ParamValue::Hash(_) => 4,
                        ParamValue::I8(_) => 5,
                        ParamValue::I16(_) => 6,
                        ParamValue::I32(_) => 7,
                        ParamValue::U32(_) => 8,
                        ParamValue::FloatBits(_) => 9,
                        ParamValue::Str(_) => 10,
                        ParamValue::List(_) => 11,
                        ParamValue::Struct(_) => 12,
                    };
                    fingerprint = mix_word(fingerprint, hash, Ghost(words));
                    proof {
                        words = words.push(hash);
                    }
                    fingerprint = mix_word(fingerprint, code, Ghost(words));
                    proof {
                        words = words.push(code);
                        assert(words =~= before + (seq![m as u64] + field_words(
                            record.0@,
                            j + 1,
                        )));
                    }
                    j = j + 1;
                }
                proof {
                    assert(words =~= seq![n as u64] + entry_list_words(entries, i + 1));
                }
            },
            _ => {
                fingerprint = mix_word(fingerprint, 0xff, Ghost(words));
                proof {
                    words = words.push(0xffu64);
                    assert(words =~= seq![n as u64] + entry_list_words(entries, i + 1));
                }
            },
        }
        i = i + 1;
    }
    fingerprint
}

/// The fields of a row after the first field named `hash` is given `value`;
/// unchanged where there is no such field.
pub open spec fn set_field(fields: Seq<(u64, ParamValue)>, hash: u64, value: ParamValue) -> Seq<
    (u64, ParamValue),
> {
    match field_index_from(fields, hash, 0) {
        Some(i) => fields.update(i, (hash, value)),
        None => fields,
    }
}

/// What patching the first field named `hash` gives: the updated fields, or
/// `None` where there is no such field or it holds another type.
pub open spec fn spec_patch(
    fields: Seq<(u64, ParamValue)>,
    hash: u64,
    value: ParamValue,
    field_type: AmiiboFieldType,
) -> Option<Seq<(u64, ParamValue)>> {
    match field_index_from(fields, hash, 0) {
        Some(i) => if has_type(fields[i].1, field_type) {
            Some(fields.update(i, (hash, value)))
        } else {
            None
        },
        None => None,
    }
}

proof fn lemma_same_keys_same_index(
    a: Seq<(u64, ParamValue)>,
    b: Seq<(u64, ParamValue)>,
    hash: u64,
    j: int,
)
    requires
        a.len() == b.len(),
        forall|k: int| 0 <= k < a.len() ==> #[trigger] a[k].0 == b[k].0,
    ensures
        field_index_from(a, hash, j) == field_index_from(b, hash, j),
    decreases a.len() - j,
{
    if 0 <= j < a.len() {
        lemma_same_keys_same_index(a, b, hash, j + 1);
    }
}

proof fn lemma_verified_fields_distinct()
    ensures
        forall|j: int, k: int|
            0 <= j < 9 && 0 <= k < 9 && #[trigger] verified_amiibo_fields()[j].0
                == #[trigger] verified_amiibo_fields()[k].0 ==> j == k,
{
    let vf = verified_amiibo_fields();
    assert(vf[0].0 == FIELD_UI_AMIIBO_ID && vf[1].0 == FIELD_UI_CHARA_ID && vf[2].0
        == FIELD_IS_VALID && vf[3].0 == FIELD_UNKNOWN_BOOL && vf[4].0 == FIELD_NFP_NUMBERING_ID
        && vf[5].0 == FIELD_DEFAULT_COLOR && vf[6].0 == FIELD_ENABLE_UNKNOWN_NUMBERING_ID
        && vf[7].0 == FIELD_NFP_CHARACTER_ID_UPPER && vf[8].0 == FIELD_NFP_CHARACTER_ID_LOWER);
    assert forall|j: int, k: int|
        0 <= j < 9 && 0 <= k < 9 && #[trigger] vf[j].0 == #[trigger] vf[k].0 implies j == k by {
        assert(j == 0 || j == 1 || j == 2 || j == 3 || j == 4 || j == 5 || j == 6 || j == 7 || j
            == 8);
        assert(k == 0 || k == 1 || k == 2 || k == 3 || k == 4 || k == 5 || k == 6 || k == 7 || k
            == 8);
    }
}

/// Giving the `k`-th verified field a value of its type keeps a row verified,
/// and patching it succeeds.
proof fn lemma_patch_keeps_verified(f: Seq<(u64, ParamValue)>, k: int, value: ParamValue)
    requires
        spec_is_verified_amiibo_record(f),
        0 <= k < 9,
        has_type(value, verified_amiibo_fields()[k].1),
    ensures
        spec_patch(f, verified_amiibo_fields()[k].0, value, verified_amiibo_fields()[k].1) == Some(
            set_field(f, verified_amiibo_fields()[k].0, value),
        ),
        spec_is_verified_amiibo_record(set_field(f, verified_amiibo_fields()[k].0, value)),
{
    let vf = verified_amiibo_fields();
    let h = vf[k].0;
    assert(spec_field(f, h) is Some);
    lemma_field_index_from(f, h, 0);
    let i = field_index(f, h)->0;
    let g = f.update(i, (h, value));
    assert(set_field(f, h, value) == g);
    lemma_verified_fields_distinct();
    assert forall|m: int| 0 <= m < f.len() implies #[trigger] f[m].0 == g[m].0 by {}
    assert forall|j: int| 0 <= j < 9 implies match #[trigger] spec_field(g, vf[j].0) {
        Some(v) => has_type(v, vf[j].1),
        None => false,
    } by {
        lemma_same_keys_same_index(f, g, vf[j].0, 0);
        assert(spec_field(f, vf[j].0) is Some);
        lemma_field_index_from(f, vf[j].0, 0);
        let ij = field_index(f, vf[j].0)->0;
        if ij == i {
            assert(vf[j].0 == h);
            assert(j == k);
        }
    }
}

fn patch_typed_field(
    record: &mut ParamStruct,
    hash: u64,
    value: ParamValue,
    field_type: AmiiboFieldType,
) -> (r: bool)
    ensures
        match spec_patch(old(record).0@, hash, value, field_type) {
            Some(fields) => r && final(record).0@ == fields,
            None => !r && final(record).0@ == old(record).0@,
        },
{
    let n = record.0.len();
    let mut i: usize = 0;
    while i < n
        invariant
            n == record.0@.len(),
            i <= n,
            record.0@ == old(record).0@,
            field_index_from(record.0@, hash, 0) == field_index_from(record.0@, hash, i as int),
        decreases n - i,
    {
        if record.0[i].0 == hash {
            if !field_has_type(&record.0[i].1, field_type) {
                return false;
            }
            record.0.set(i, (hash, value));
            return true;
        }
        i = i + 1;
    }
    false
}

/// Sets the first field named `hash` to the hash `value`, where that field
/// holds a hash; returns whether it did.
fn patch_hash40_field(record: &mut ParamStruct, hash: u64, value: u64) -> (r: bool)
    ensures
        match spec_patch(old(record).0@, hash, ParamValue::Hash(value), AmiiboFieldType::Hash40) {
            Some(fields) => r && final(record).0@ == fields,
            None => !r && final(record).0@ == old(record).0@,
        },
{
    patch_typed_field(record, hash, ParamValue::Hash(value), AmiiboFieldType::Hash40)
}

/// Sets the first field named `hash` to the flag `value`, where that field
/// holds a flag; returns whether it did.
fn patch_bool_field(record: &mut ParamStruct, hash: u64, value: bool) -> (r: bool)
    ensures
        match spec_patch(old(record).0@, hash, ParamValue::Bool(value), AmiiboFieldType::Bool) {
            Some(fields) => r && final(record).0@ == fields,
            None => !r && final(record).0@ == old(record).0@,
        },
{
    patch_typed_field(record, hash, ParamValue::Bool(value), AmiiboFieldType::Bool)
}

/// Sets the first field named `hash` to the number `value`, where that field
/// holds a 16-bit number; returns whether it did.
fn patch_u16_field(record: &mut ParamStruct, hash: u64, value: u16) -> (r: bool)
    ensures
        match spec_patch(old(record).0@, hash, ParamValue::U16(value), AmiiboFieldType::U16) {
            Some(fields) => r && final(record).0@ == fields,
            None => !r && final(record).0@ == old(record).0@,
        },
{
    patch_typed_field(record, hash, ParamValue::U16(value), AmiiboFieldType::U16)
}

/// Sets the first field named `hash` to the byte `value`, where that field
/// holds a byte; returns whether it did.
fn patch_u8_field(record: &mut ParamStruct, hash: u64, value: u8) -> (r: bool)
    ensures
        match spec_patch(old(record).0@, hash, ParamValue::U8(value), AmiiboFieldType::U8) {
            Some(fields) => r && final(record).0@ == fields,
            None => !r && final(record).0@ == old(record).0@,
        },
{
    patch_typed_field(record, hash, ParamValue::U8(value), AmiiboFieldType::U8)
}

/// The fields of the row appended for a boss: the template with its amiibo
/// id, character, validity, character id, colour and, for a private virtual
/// figure, its match key written in.
pub open spec fn spec_append_fields(
    template: Seq<(u64, ParamValue)>,
    ui_amiibo_id: u64,
    ui_chara_id: u64,
    nfp_character_id_upper: u16,
    default_color: u8,
    nfp_match_key: Option<NfpMatchKey>,
) -> Seq<(u64, ParamValue)> {
    let f1 = set_field(template, FIELD_UI_AMIIBO_ID, ParamValue::Hash(ui_amiibo_id));
    let f2 = set_field(f1, FIELD_UI_CHARA_ID, ParamValue::Hash(ui_chara_id));
    let f3 = set_field(f2, FIELD_IS_VALID, ParamValue::Bool(true));
    let f4 = set_field(f3, FIELD_NFP_CHARACTER_ID_UPPER, ParamValue::U16(nfp_character_id_upper));
    let f5 = set_field(f4, FIELD_DEFAULT_COLOR, ParamValue::U8(default_color));
    match nfp_match_key {
        Some(key) => {
            let f6 = set_field(f5, FIELD_NFP_CHARACTER_ID_LOWER, ParamValue::U8(key.character_id_lower));
            let f7 = set_field(f6, FIELD_NFP_NUMBERING_ID, ParamValue::U16(key.numbering_id));
            set_field(
                f7,
                FIELD_ENABLE_UNKNOWN_NUMBERING_ID,
                ParamValue::Bool(key.enable_unknown_numbering_id),
            )
        },
        None => f5,
    }
}

/// Setting a field keeps every field name in place; the field set reads
/// back the new value where the row has it, and every other field reads as
/// before.
proof fn lemma_set_field_reads(f: Seq<(u64, ParamValue)>, h: u64, v: ParamValue, other: u64)
    ensures
        set_field(f, h, v).len() == f.len(),
        forall|k: int| 0 <= k < f.len() ==> #[trigger] set_field(f, h, v)[k].0 == f[k].0,
        field_index(f, h) is Some ==> spec_field(set_field(f, h, v), h) == Some(v),
        other != h ==> spec_field(set_field(f, h, v), other) == spec_field(f, other),
{
    lemma_field_index_from(f, h, 0);
    let g = set_field(f, h, v);
    lemma_same_keys_same_index(f, g, other, 0);
    lemma_same_keys_same_index(f, g, h, 0);
    lemma_field_index_from(f, other, 0);
}

/// Whether a field named `h` is in the row.
spec fn has_field(f: Seq<(u64, ParamValue)>, h: u64) -> bool {
    field_index(f, h) is Some
}

proof fn lemma_set_field_keeps_fields(f: Seq<(u64, ParamValue)>, h: u64, v: ParamValue, other: u64)
    ensures
        has_field(set_field(f, h, v), other) == has_field(f, other),
{
    lemma_set_field_reads(f, h, v, other);
    lemma_same_keys_same_index(f, set_field(f, h, v), other, 0);
}

/// The row appended for a boss reads back what was written into it: its
/// amiibo id, character, validity, character id and colour, and, with a
/// match key, the key's lower character id, numbering id and unknown
/// numbering flag; without a key those three are the template's. The row
/// keeps the template's field names, in order.
pub proof fn lemma_appended_row_reads_back(
    template: Seq<(u64, ParamValue)>,
    ui_amiibo_id: u64,
    ui_chara_id: u64,
    nfp_character_id_upper: u16,
    default_color: u8,
    nfp_match_key: Option<NfpMatchKey>,
)
    requires
        spec_is_verified_amiibo_record(template),
    ensures
        ({
            let row = spec_append_fields(
                template,
                ui_amiibo_id,
                ui_chara_id,
                nfp_character_id_upper,
                default_color,
                nfp_match_key,
            );
            &&& row.len() == template.len()
            &&& forall|k: int| 0 <= k < template.len() ==> #[trigger] row[k].0 == template[k].0
            &&& spec_field(row, FIELD_UI_AMIIBO_ID) == Some(ParamValue::Hash(ui_amiibo_id))
            &&& spec_field(row, FIELD_UI_CHARA_ID) == Some(ParamValue::Hash(ui_chara_id))
            &&& spec_field(row, FIELD_IS_VALID) == Some(ParamValue::Bool(true))
            &&& spec_field(row, FIELD_NFP_CHARACTER_ID_UPPER) == Some(
                ParamValue::U16(nfp_character_id_upper),
            )
            &&& spec_field(row, FIELD_DEFAULT_COLOR) == Some(ParamValue::U8(default_color))
            &&& spec_field(row, FIELD_UNKNOWN_BOOL) == spec_field(template, FIELD_UNKNOWN_BOOL)
            &&& match nfp_match_key {
                Some(key) => {
                    &&& spec_field(row, FIELD_NFP_CHARACTER_ID_LOWER) == Some(
                        ParamValue::U8(key.character_id_lower),
                    )
                    &&& spec_field(row, FIELD_NFP_NUMBERING_ID) == Some(
                        ParamValue::U16(key.numbering_id),
                    )
                    &&& spec_field(row, FIELD_ENABLE_UNKNOWN_NUMBERING_ID) == Some(
                        ParamValue::Bool(key.enable_unknown_numbering_id),
                    )
                },
                None => {
                    &&& spec_field(row, FIELD_NFP_CHARACTER_ID_LOWER) == spec_field(
                        template,
                        FIELD_NFP_CHARACTER_ID_LOWER,
                    )
                    &&& spec_field(row, FIELD_NFP_NUMBERING_ID) == spec_field(
                        template,
                        FIELD_NFP_NUMBERING_ID,
                    )
                    &&& spec_field(row, FIELD_ENABLE_UNKNOWN_NUMBERING_ID) == spec_field(
                        template,
                        FIELD_ENABLE_UNKNOWN_NUMBERING_ID,
                    )
                },
            }
        }),
{
    let vf = verified_amiibo_fields();
    assert(vf[0].0 == FIELD_UI_AMIIBO_ID && vf[1].0 == FIELD_UI_CHARA_ID && vf[2].0
        == FIELD_IS_VALID && vf[3].0 == FIELD_UNKNOWN_BOOL && vf[4].0 == FIELD_NFP_NUMBERING_ID
        && vf[5].0 == FIELD_DEFAULT_COLOR && vf[6].0 == FIELD_ENABLE_UNKNOWN_NUMBERING_ID
        && vf[7].0 == FIELD_NFP_CHARACTER_ID_UPPER && vf[8].0 == FIELD_NFP_CHARACTER_ID_LOWER);
    assert(spec_field(template, vf[0].0) is Some);
    assert(spec_field(template, vf[1].0) is Some);
    assert(spec_field(template, vf[2].0) is Some);
    assert(spec_field(template, vf[4].0) is Some);
    assert(spec_field(template, vf[5].0) is Some);
    assert(spec_field(template, vf[6].0) is Some);
    assert(spec_field(template, vf[7].0) is Some);
    assert(spec_field(template, vf[8].0) is Some);
    let hs = seq![
        FIELD_UI_AMIIBO_ID,
        FIELD_UI_CHARA_ID,
        FIELD_IS_VALID,
        FIELD_UNKNOWN_BOOL,
        FIELD_NFP_CHARACTER_ID_UPPER,
        FIELD_NFP_CHARACTER_ID_LOWER,
        FIELD_NFP_NUMBERING_ID,
        FIELD_DEFAULT_COLOR,
        FIELD_ENABLE_UNKNOWN_NUMBERING_ID,
    ];
    let f1 = set_field(template, FIELD_UI_AMIIBO_ID, ParamValue::Hash(ui_amiibo_id));
    let f2 = set_field(f1, FIELD_UI_CHARA_ID, ParamValue::Hash(ui_chara_id));
    let f3 = set_field(f2, FIELD_IS_VALID, ParamValue::Bool(true));
    let f4 = set_field(f3, FIELD_NFP_CHARACTER_ID_UPPER, ParamValue::U16(nfp_character_id_upper));
    let f5 = set_field(f4, FIELD_DEFAULT_COLOR, ParamValue::U8(default_color));
    assert forall|j: int| 0 <= j < 9 implies {
        &&& spec_field(f1, #[trigger] hs[j]) == (if hs[j] == FIELD_UI_AMIIBO_ID {
            Some(ParamValue::Hash(ui_amiibo_id))
        } else {
            spec_field(template, hs[j])
        })
        &&& spec_field(f2, hs[j]) == (if hs[j] == FIELD_UI_CHARA_ID {
            Some(ParamValue::Hash(ui_chara_id))
        } else {
            spec_field(f1, hs[j])
        })
        &&& spec_field(f3, hs[j]) == (if hs[j] == FIELD_IS_VALID {
            Some(ParamValue::Bool(true))
        } else {
            spec_field(f2, hs[j])
        })
        &&& spec_field(f4, hs[j]) == (if hs[j] == FIELD_NFP_CHARACTER_ID_UPPER {
            Some(ParamValue::U16(nfp_character_id_upper))
        } else {
            spec_field(f3, hs[j])
        })
        &&& spec_field(f5, hs[j]) == (if hs[j] == FIELD_DEFAULT_COLOR {
            Some(ParamValue::U8(default_color))
        } else {
            spec_field(f4, hs[j])
        })
    } by {
        lemma_set_field_reads(template, FIELD_UI_AMIIBO_ID, ParamValue::Hash(ui_amiibo_id), hs[j]);
        lemma_set_field_keeps_fields(template, FIELD_UI_AMIIBO_ID, ParamValue::Hash(ui_amiibo_id), FIELD_UI_CHARA_ID);
        lemma_set_field_reads(f1, FIELD_UI_CHARA_ID, ParamValue::Hash(ui_chara_id), hs[j]);
        lemma_set_field_keeps_fields(f1, FIELD_UI_CHARA_ID, ParamValue::Hash(ui_chara_id), FIELD_IS_VALID);
        lemma_set_field_keeps_fields(template, FIELD_UI_AMIIBO_ID, ParamValue::Hash(ui_amiibo_id), FIELD_IS_VALID);
        lemma_set_field_reads(f2, FIELD_IS_VALID, ParamValue::Bool(true), hs[j]);
        lemma_set_field_keeps_fields(template, FIELD_UI_AMIIBO_ID, ParamValue::Hash(ui_amiibo_id), FIELD_NFP_CHARACTER_ID_UPPER);
        lemma_set_field_keeps_fields(f1, FIELD_UI_CHARA_ID, ParamValue::Hash(ui_chara_id), FIELD_NFP_CHARACTER_ID_UPPER);
        lemma_set_field_keeps_fields(f2, FIELD_IS_VALID, ParamValue::Bool(true), FIELD_NFP_CHARACTER_ID_UPPER);
        lemma_set_field_reads(f3, FIELD_NFP_CHARACTER_ID_UPPER, ParamValue::U16(nfp_character_id_upper), hs[j]);
        lemma_set_field_keeps_fields(template, FIELD_UI_AMIIBO_ID, ParamValue::Hash(ui_amiibo_id), FIELD_DEFAULT_COLOR);
        lemma_set_field_keeps_fields(f1, FIELD_UI_CHARA_ID, ParamValue::Hash(ui_chara_id), FIELD_DEFAULT_COLOR);
        lemma_set_field_keeps_fields(f2, FIELD_IS_VALID, ParamValue::Bool(true), FIELD_DEFAULT_COLOR);
        lemma_set_field_keeps_fields(f3, FIELD_NFP_CHARACTER_ID_UPPER, ParamValue::U16(nfp_character_id_upper), FIELD_DEFAULT_COLOR);
        lemma_set_field_reads(f4, FIELD_DEFAULT_COLOR, ParamValue::U8(default_color), hs[j]);
    }
    assert(hs[0] == FIELD_UI_AMIIBO_ID && hs[1] == FIELD_UI_CHARA_ID && hs[2] == FIELD_IS_VALID
        && hs[3] == FIELD_UNKNOWN_BOOL && hs[4] == FIELD_NFP_CHARACTER_ID_UPPER && hs[5]
        == FIELD_NFP_CHARACTER_ID_LOWER && hs[6] == FIELD_NFP_NUMBERING_ID && hs[7]
        == FIELD_DEFAULT_COLOR && hs[8] == FIELD_ENABLE_UNKNOWN_NUMBERING_ID);
    lemma_set_field_reads(template, FIELD_UI_AMIIBO_ID, ParamValue::Hash(ui_amiibo_id), 0);
    lemma_set_field_reads(f1, FIELD_UI_CHARA_ID, ParamValue::Hash(ui_chara_id), 0);
    lemma_set_field_reads(f2, FIELD_IS_VALID, ParamValue::Bool(true), 0);
    lemma_set_field_reads(f3, FIELD_NFP_CHARACTER_ID_UPPER, ParamValue::U16(nfp_character_id_upper), 0);
    lemma_set_field_reads(f4, FIELD_DEFAULT_COLOR, ParamValue::U8(default_color), 0);
    match nfp_match_key {
        Some(key) => {
            let f6 = set_field(f5, FIELD_NFP_CHARACTER_ID_LOWER, ParamValue::U8(key.character_id_lower));
            let f7 = set_field(f6, FIELD_NFP_NUMBERING_ID, ParamValue::U16(key.numbering_id));
            let f8 = set_field(
                f7,
                FIELD_ENABLE_UNKNOWN_NUMBERING_ID,
                ParamValue::Bool(key.enable_unknown_numbering_id),
            );
            lemma_set_field_keeps_fields(template, FIELD_UI_AMIIBO_ID, ParamValue::Hash(ui_amiibo_id), FIELD_NFP_CHARACTER_ID_LOWER);
            lemma_set_field_keeps_fields(f1, FIELD_UI_CHARA_ID, ParamValue::Hash(ui_chara_id), FIELD_NFP_CHARACTER_ID_LOWER);
            lemma_set_field_keeps_fields(f2, FIELD_IS_VALID, ParamValue::Bool(true), FIELD_NFP_CHARACTER_ID_LOWER);
            lemma_set_field_keeps_fields(f3, FIELD_NFP_CHARACTER_ID_UPPER, ParamValue::U16(nfp_character_id_upper), FIELD_NFP_CHARACTER_ID_LOWER);
            lemma_set_field_keeps_fields(f4, FIELD_DEFAULT_COLOR, ParamValue::U8(default_color), FIELD_NFP_CHARACTER_ID_LOWER);
            lemma_set_field_keeps_fields(template, FIELD_UI_AMIIBO_ID, ParamValue::Hash(ui_amiibo_id), FIELD_NFP_NUMBERING_ID);
            lemma_set_field_keeps_fields(f1, FIELD_UI_CHARA_ID, ParamValue::Hash(ui_chara_id), FIELD_NFP_NUMBERING_ID);
            lemma_set_field_keeps_fields(f2, FIELD_IS_VALID, ParamValue::Bool(true), FIELD_NFP_NUMBERING_ID);
            lemma_set_field_keeps_fields(f3, FIELD_NFP_CHARACTER_ID_UPPER, ParamValue::U16(nfp_character_id_upper), FIELD_NFP_NUMBERING_ID);
            lemma_set_field_keeps_fields(f4, FIELD_DEFAULT_COLOR, ParamValue::U8(default_color), FIELD_NFP_NUMBERING_ID);
            lemma_set_field_keeps_fields(f5, FIELD_NFP_CHARACTER_ID_LOWER, ParamValue::U8(key.character_id_lower), FIELD_NFP_NUMBERING_ID);
            lemma_set_field_keeps_fields(template, FIELD_UI_AMIIBO_ID, ParamValue::Hash(ui_amiibo_id), FIELD_ENABLE_UNKNOWN_NUMBERING_ID);
            lemma_set_field_keeps_fields(f1, FIELD_UI_CHARA_ID, ParamValue::Hash(ui_chara_id), FIELD_ENABLE_UNKNOWN_NUMBERING_ID);
            lemma_set_field_keeps_fields(f2, FIELD_IS_VALID, ParamValue::Bool(true), FIELD_ENABLE_UNKNOWN_NUMBERING_ID);
            lemma_set_field_keeps_fields(f3, FIELD_NFP_CHARACTER_ID_UPPER, ParamValue::U16(nfp_character_id_upper), FIELD_ENABLE_UNKNOWN_NUMBERING_ID);
            lemma_set_field_keeps_fields(f4, FIELD_DEFAULT_COLOR, ParamValue::U8(default_color), FIELD_ENABLE_UNKNOWN_NUMBERING_ID);
            lemma_set_field_keeps_fields(f5, FIELD_NFP_CHARACTER_ID_LOWER, ParamValue::U8(key.character_id_lower), FIELD_ENABLE_UNKNOWN_NUMBERING_ID);
            lemma_set_field_keeps_fields(f6, FIELD_NFP_NUMBERING_ID, ParamValue::U16(key.numbering_id), FIELD_ENABLE_UNKNOWN_NUMBERING_ID);
            assert forall|j: int| 0 <= j < 9 implies {
                &&& spec_field(f6, #[trigger] hs[j]) == (if hs[j] == FIELD_NFP_CHARACTER_ID_LOWER {
                    Some(ParamValue::U8(key.character_id_lower))
                } else {
                    spec_field(f5, hs[j])
                })
                &&& spec_field(f7, hs[j]) == (if hs[j] == FIELD_NFP_NUMBERING_ID {
                    Some(ParamValue::U16(key.numbering_id))
                } else {
                    spec_field(f6, hs[j])
                })
                &&& spec_field(f8, hs[j]) == (if hs[j] == FIELD_ENABLE_UNKNOWN_NUMBERING_ID {
                    Some(ParamValue::Bool(key.enable_unknown_numbering_id))
                } else {
                    spec_field(f7, hs[j])
                })
            } by {
                lemma_set_field_reads(f5, FIELD_NFP_CHARACTER_ID_LOWER, ParamValue::U8(key.character_id_lower), hs[j]);
                lemma_set_field_reads(f6, FIELD_NFP_NUMBERING_ID, ParamValue::U16(key.numbering_id), hs[j]);
                lemma_set_field_reads(f7, FIELD_ENABLE_UNKNOWN_NUMBERING_ID, ParamValue::Bool(key.enable_unknown_numbering_id), hs[j]);
            }
            lemma_set_field_reads(f5, FIELD_NFP_CHARACTER_ID_LOWER, ParamValue::U8(key.character_id_lower), 0);
            lemma_set_field_reads(f6, FIELD_NFP_NUMBERING_ID, ParamValue::U16(key.numbering_id), 0);
            lemma_set_field_reads(f7, FIELD_ENABLE_UNKNOWN_NUMBERING_ID, ParamValue::Bool(key.enable_unknown_numbering_id), 0);
        },
        None => {},
    }
}

/// Builds one appended row from a verified template. It is refused where the
/// template does not have the verified schema, or where a match key is given
/// whose character id differs from `nfp_character_id_upper`.
pub fn prepare_append_record(
    template: &ParamStruct,
    ui_amiibo_id: u64,
    ui_chara_id: u64,
    nfp_character_id_upper: u16,
    default_color: u8,
    nfp_match_key: Option<NfpMatchKey>,
) -> (r: Option<ParamStruct>)
    ensures
        r is Some <==> spec_is_verified_amiibo_record(template.0@) && match nfp_match_key {
            Some(key) => key.character_id_upper == nfp_character_id_upper,
            None => true,
        },
        r matches Some(row) ==> spec_is_verified_amiibo_record(row.0@),
        r matches Some(row) ==> row.0@ == spec_append_fields(
            template.0@,
            ui_amiibo_id,
            ui_chara_id,
            nfp_character_id_upper,
            default_color,
            nfp_match_key,
        ),
{
    if !is_verified_amiibo_record(template) {
        return None;
    }
    let ghost vf = verified_amiibo_fields();
    proof {
        assert(vf[0] == (FIELD_UI_AMIIBO_ID, AmiiboFieldType::Hash40));
        assert(vf[1] == (FIELD_UI_CHARA_ID, AmiiboFieldType::Hash40));
        assert(vf[2] == (FIELD_IS_VALID, AmiiboFieldType::Bool));
        assert(vf[5] == (FIELD_DEFAULT_COLOR, AmiiboFieldType::U8));
        assert(vf[6] == (FIELD_ENABLE_UNKNOWN_NUMBERING_ID, AmiiboFieldType::Bool));
        assert(vf[4] == (FIELD_NFP_NUMBERING_ID, AmiiboFieldType::U16));
        assert(vf[7] == (FIELD_NFP_CHARACTER_ID_UPPER, AmiiboFieldType::U16));
        assert(vf[8] == (FIELD_NFP_CHARACTER_ID_LOWER, AmiiboFieldType::U8));
    }
    let mut record = copy_verified_record(template);
    proof {
        lemma_patch_keeps_verified(record.0@, 0, ParamValue::Hash(ui_amiibo_id));
    }
    let p1 = patch_hash40_field(&mut record, FIELD_UI_AMIIBO_ID, ui_amiibo_id);
    proof {
        lemma_patch_keeps_verified(record.0@, 1, ParamValue::Hash(ui_chara_id));
    }
    let p2 = patch_hash40_field(&mut record, FIELD_UI_CHARA_ID, ui_chara_id);
    proof {
        lemma_patch_keeps_verified(record.0@, 2, ParamValue::Bool(true));
    }
    let p3 = patch_bool_field(&mut record, FIELD_IS_VALID, true);
    proof {
        lemma_patch_keeps_verified(record.0@, 7, ParamValue::U16(nfp_character_id_upper));
    }
    let p4 = patch_u16_field(&mut record, FIELD_NFP_CHARACTER_ID_UPPER, nfp_character_id_upper);
    proof {
        lemma_patch_keeps_verified(record.0@, 5, ParamValue::U8(default_color));
    }
    let p5 = patch_u8_field(&mut record, FIELD_DEFAULT_COLOR, default_color);
    let mut patched = p1 && p2 && p3 && p4 && p5;
    if let Some(key) = nfp_match_key {
        if patched && key.character_id_upper == nfp_character_id_upper {
            proof {
                lemma_patch_keeps_verified(record.0@, 8, ParamValue::U8(key.character_id_lower));
            }
            let p6 = patch_u8_field(&mut record, FIELD_NFP_CHARACTER_ID_LOWER, key.character_id_lower);
            proof {
                lemma_patch_keeps_verified(record.0@, 4, ParamValue::U16(key.numbering_id));
            }
            let p7 = patch_u16_field(&mut record, FIELD_NFP_NUMBERING_ID, key.numbering_id);
            proof {
                lemma_patch_keeps_verified(record.0@,
                    6,
                    ParamValue::Bool(key.enable_unknown_numbering_id),
                );
            }
            let p8 = patch_bool_field(
                &mut record,
                FIELD_ENABLE_UNKNOWN_NUMBERING_ID,
                key.enable_unknown_numbering_id,
            );
            patched = p6 && p7 && p8;
        } else {
            patched = false;
        }
    }
    if patched {
        Some(record)
    } else {
        None
    }
}

/// Two entries of one shape: rows with the same keys, in order, holding
/// values of the same kinds; or two entries that are not rows.
pub open spec fn same_entry_shape(a: ParamValue, b: ParamValue) -> bool {
    match (a, b) {
        (ParamValue::Struct(x), ParamValue::Struct(y)) => x.0@.len() == y.0@.len() && forall|j: int|
            0 <= j < x.0@.len() ==> #[trigger] x.0@[j].0 == y.0@[j].0 && kind_code(x.0@[j].1)
                == kind_code(y.0@[j].1),
        (ParamValue::Struct(_), _) => false,
        (_, ParamValue::Struct(_)) => false,
        _ => true,
    }
}

/// Two lists of one shape: the same length, entry by entry of one shape.
pub open spec fn same_list_shape(a: Seq<ParamValue>, b: Seq<ParamValue>) -> bool {
    a.len() == b.len() && forall|i: int| 0 <= i < a.len() ==> #[trigger] same_entry_shape(a[i], b[i])
}

proof fn lemma_field_words_same(x: ParamStruct, y: ParamStruct, n: int)
    requires
        0 <= n <= x.0@.len(),
        same_entry_shape(ParamValue::Struct(x), ParamValue::Struct(y)),
    ensures
        field_words(x.0@, n) == field_words(y.0@, n),
    decreases n,
{
    if n > 0 {
        lemma_field_words_same(x, y, n - 1);
        assert(x.0@[n - 1].0 == y.0@[n - 1].0);
    }
}

proof fn lemma_entry_list_words_same(a: Seq<ParamValue>, b: Seq<ParamValue>, n: int)
    requires
        0 <= n <= a.len(),
        same_list_shape(a, b),
    ensures
        entry_list_words(a, n) == entry_list_words(b, n),
    decreases n,
{
    if n > 0 {
        lemma_entry_list_words_same(a, b, n - 1);
        assert(same_entry_shape(a[n - 1], b[n - 1]));
        match (a[n - 1], b[n - 1]) {
            (ParamValue::Struct(x), ParamValue::Struct(y)) => {
                lemma_field_words_same(x, y, x.0@.len() as int);
            },
            _ => {},
        }
    }
}

/// The fingerprint reads the shape of the list and nothing else: two lists
/// of one shape have one fingerprint, whatever values their rows hold.
pub proof fn lemma_fingerprint_ignores_values(a: Seq<ParamValue>, b: Seq<ParamValue>)
    requires
        same_list_shape(a, b),
    ensures
        mix_all(fingerprint_words(a)) == mix_all(fingerprint_words(b)),
{
    lemma_entry_list_words_same(a, b, a.len() as int);
    assert(fingerprint_words(a) =~= fingerprint_words(b));
}

} // verus!
