//! Small text helpers over the character view of strings.
use vstd::prelude::*;

verus! {

/// Whether two strings hold the same characters.
pub fn str_eq(a: &str, b: &str) -> (r: bool)
    ensures
        r == (a@ == b@),
{
    let n = a.unicode_len();
    let m = b.unicode_len();
    if n != m {
        return false;
    }
    let mut i: usize = 0;
    while i < n
        invariant
            n == a@.len(),
            m == b@.len(),
            n == m,
            i <= n,
            forall|j: int| 0 <= j < i ==> a@[j] == b@[j],
        decreases n - i,
    {
        if a.get_char(i) != b.get_char(i) {
            return false;
        }
        i = i + 1;
    }
    assert(a@ =~= b@);
    true
}

/// Whether `needle` occurs in `hay` at position `i`.
pub open spec fn occurs_at(hay: Seq<char>, needle: Seq<char>, i: int) -> bool {
    0 <= i && i + needle.len() <= hay.len() && hay.subrange(i, i + needle.len()) == needle
}

/// Whether `hay` holds `needle` as a run of characters.
pub open spec fn spec_contains(hay: Seq<char>, needle: Seq<char>) -> bool {
    exists|i: int| occurs_at(hay, needle, i)
}

/// Whether `needle` occurs in `hay` at character position `i`.
fn matches_at(hay: &str, needle: &str, i: usize) -> (r: bool)
    requires
        i + needle@.len() <= hay@.len(),
    ensures
        r == occurs_at(hay@, needle@, i as int),
{
    let n = hay.unicode_len();
    let m = needle.unicode_len();
    let mut k: usize = 0;
    while k < m
        invariant
            n == hay@.len(),
            m == needle@.len(),
            i + m <= hay@.len(),
            k <= m,
            forall|j: int| 0 <= j < k ==> hay@[i + j] == needle@[j],
        decreases m - k,
    {
        if hay.get_char(i + k) != needle.get_char(k) {
            assert(hay@.subrange(i as int, i + m)[k as int] != needle@[k as int]);
            return false;
        }
        k = k + 1;
    }
    assert(hay@.subrange(i as int, i + m) =~= needle@);
    true
}

/// Whether `hay` holds `needle`, as `str::contains` answers for a text.
pub fn str_contains(hay: &str, needle: &str) -> (r: bool)
    ensures
        r == spec_contains(hay@, needle@),
{
    let n = hay.unicode_len();
    let m = needle.unicode_len();
    if m > n {
        assert forall|i: int| !occurs_at(hay@, needle@, i) by {}
        return false;
    }
    if m == 0 {
        assert(hay@.subrange(0, 0) =~= needle@);
        assert(occurs_at(hay@, needle@, 0));
        return true;
    }
    let mut i: usize = 0;
    while i <= n - m
        invariant
            n == hay@.len(),
            m == needle@.len(),
            1 <= m <= n,
            i <= n - m + 1,
            forall|j: int| 0 <= j < i ==> !occurs_at(hay@, needle@, j),
        decreases n - m + 1 - i,
    {
        if matches_at(hay, needle, i) {
            return true;
        }
        i = i + 1;
    }
    assert forall|j: int| !occurs_at(hay@, needle@, j) by {
        if 0 <= j < i {
        }
    }
    false
}

/// Appends the characters of `t` to `s`.
pub fn push_all(s: &mut String, t: &str)
    ensures
        final(s)@ == old(s)@ + t@,
{
    let n = t.unicode_len();
    let mut i: usize = 0;
    while i < n
        invariant
            n == t@.len(),
            i <= n,
            s@ == old(s)@ + t@.subrange(0, i as int),
        decreases n - i,
    {
        let c = t.get_char(i);
        push_char(s, c);
        proof {
            assert(t@.subrange(0, i + 1) =~= t@.subrange(0, i as int).push(c));
        }
        i = i + 1;
    }
    proof {
        assert(t@.subrange(0, n as int) =~= t@);
    }
}

/// The key `prefix:suffix`.
pub fn join_key(prefix: &str, suffix: &str) -> (r: String)
    ensures
        r@ == prefix@ + seq![':'] + suffix@,
{
    let mut s = String::new();
    push_all(&mut s, prefix);
    push_char(&mut s, ':');
    push_all(&mut s, suffix);
    proof {
        assert(s@ =~= prefix@ + seq![':'] + suffix@);
    }
    s
}

/// A character with an ASCII capital turned into its small letter.
pub open spec fn spec_ascii_lower(c: char) -> char {
    if 'A' <= c && c <= 'Z' {
        ((c as u32) + 32) as char
    } else {
        c
    }
}

/// The text with its ASCII capitals turned into small letters, as
/// `str::to_ascii_lowercase` gives it.
pub open spec fn spec_ascii_lowercase(s: Seq<char>) -> Seq<char> {
    s.map_values(|c: char| spec_ascii_lower(c))
}

pub fn ascii_lowercase(s: &str) -> (r: String)
    ensures
        r@ == spec_ascii_lowercase(s@),
{
    let n = s.unicode_len();
    let mut out = String::new();
    let mut i: usize = 0;
    while i < n
        invariant
            n == s@.len(),
            i <= n,
            out@ == spec_ascii_lowercase(s@.subrange(0, i as int)),
        decreases n - i,
    {
        let c = s.get_char(i);
        let lower = if 'A' <= c && c <= 'Z' {
            ((c as u8) + 32) as char
        } else {
            c
        };
        push_char(&mut out, lower);
        proof {
            assert(spec_ascii_lowercase(s@.subrange(0, i + 1)) =~= spec_ascii_lowercase(
                s@.subrange(0, i as int),
            ).push(spec_ascii_lower(c)));
        }
        i = i + 1;
    }
    proof {
        assert(s@.subrange(0, n as int) =~= s@);
    }
    out
}

/// Whether `a` comes before `b`, comparing character codes from the first
/// character on, a proper prefix first: the order of `String`'s `Ord`.
pub open spec fn seq_lt(a: Seq<char>, b: Seq<char>) -> bool
    decreases a.len(),
{
    if a.len() == 0 {
        b.len() > 0
    } else if b.len() == 0 {
        false
    } else if a[0] != b[0] {
        a[0] < b[0]
    } else {
        seq_lt(a.drop_first(), b.drop_first())
    }
}

/// The order is strict and total: of two texts exactly one comes first, or
/// they are the same.
pub proof fn lemma_seq_lt_trichotomy(a: Seq<char>, b: Seq<char>)
    ensures
        a == b || seq_lt(a, b) || seq_lt(b, a),
        !(seq_lt(a, b) && seq_lt(b, a)),
        !seq_lt(a, a),
    decreases a.len(),
{
    if a.len() > 0 && b.len() > 0 && a[0] == b[0] {
        lemma_seq_lt_trichotomy(a.drop_first(), b.drop_first());
        if a.drop_first() == b.drop_first() {
            assert forall|k: int| 0 <= k < a.len() implies a[k] == b[k] by {
                if k > 0 {
                    assert(a[k] == a.drop_first()[k - 1]);
                    assert(b[k] == b.drop_first()[k - 1]);
                }
            }
            assert(a =~= b);
        }
    }
    if a.len() > 0 {
        lemma_seq_lt_trichotomy(a.drop_first(), a.drop_first());
    }
    if a.len() == 0 && b.len() == 0 {
        assert(a =~= b);
    }
}

/// The order is transitive.
pub proof fn lemma_seq_lt_transitive(a: Seq<char>, b: Seq<char>, c: Seq<char>)
    requires
        seq_lt(a, b),
        seq_lt(b, c),
    ensures
        seq_lt(a, c),
    decreases a.len(),
{
    if a.len() > 0 && b.len() > 0 && c.len() > 0 && a[0] == b[0] && b[0] == c[0] {
        lemma_seq_lt_transitive(a.drop_first(), b.drop_first(), c.drop_first());
    }
}

/// Whether `a` comes before `b` in the order of character codes.
pub fn str_lt(a: &str, b: &str) -> (r: bool)
    ensures
        r == seq_lt(a@, b@),
{
    let n = a.unicode_len();
    let m = b.unicode_len();
    let mut i: usize = 0;
    proof {
        assert(a@.skip(0) =~= a@);
        assert(b@.skip(0) =~= b@);
    }
    while i < n && i < m
        invariant
            n == a@.len(),
            m == b@.len(),
            i <= n,
            i <= m,
            seq_lt(a@, b@) == seq_lt(a@.skip(i as int), b@.skip(i as int)),
        decreases n - i,
    {
        let x = a.get_char(i);
        let y = b.get_char(i);
        proof {
            assert(a@.skip(i as int)[0] == x);
            assert(b@.skip(i as int)[0] == y);
            assert(a@.skip(i as int).drop_first() =~= a@.skip(i + 1));
            assert(b@.skip(i as int).drop_first() =~= b@.skip(i + 1));
        }
        if x != y {
            return x < y;
        }
        i = i + 1;
    }
    proof {
        assert(a@.skip(i as int).len() == n - i);
        assert(b@.skip(i as int).len() == m - i);
    }
    i < m
}

/// A lower-case hexadecimal digit.
pub open spec fn hex_char(d: nat) -> char {
    if d < 10 {
        (48 + d) as char
    } else {
        (87 + d) as char
    }
}

/// The `width` lowest hexadecimal digits of `v`, lower case, most
/// significant first: `format!("{:0width$x}", v)` for every `v` below
/// `16^width`.
pub open spec fn hex_digits(v: nat, width: nat) -> Seq<char>
    decreases width,
{
    if width == 0 {
        Seq::empty()
    } else {
        hex_digits(v / 16, (width - 1) as nat).push(hex_char(v % 16))
    }
}

fn hex_char_exec(d: u64) -> (c: char)
    requires
        d < 16,
    ensures
        c == hex_char(d as nat),
{
    let table: [char; 16] = [
        '0', '1', '2', '3', '4', '5', '6', '7', '8', '9', 'a', 'b', 'c', 'd', 'e', 'f',
    ];
    let c = table[d as usize];
    proof {
        assert(table@ =~= seq![
            '0', '1', '2', '3', '4', '5', '6', '7', '8', '9', 'a', 'b', 'c', 'd', 'e', 'f',
        ]);
    }
    c
}

spec fn pow16_u(n: nat) -> nat
    decreases n,
{
    if n == 0 {
        1
    } else {
        16 * pow16_u((n - 1) as nat)
    }
}

/// `v` written as exactly `width` lower-case hexadecimal digits.
pub fn hex_padded(v: u64, width: usize) -> (s: String)
    requires
        width <= 16,
    ensures
        s@ == hex_digits(v as nat, width as nat),
{
    let mut digits: Vec<char> = Vec::new();
    let mut rest: u64 = v;
    let mut k: usize = 0;
    proof {
        assert(pow16_u(0) == 1);
        assert((v as nat) / 1 == v as nat);
    }
    // digits[i] is the digit of weight 16^i
    while k < width
        invariant
            k <= width,
            width <= 16,
            digits@.len() == k,
            rest as nat == (v as nat) / pow16_u(k as nat),
            forall|i: int| 0 <= i < k ==> #[trigger] digits@[i] == hex_char(
                ((v as nat) / pow16_u(i as nat)) % 16,
            ),
        decreases width - k,
    {
        proof {
            lemma_div_div16(v as nat, k as nat);
        }
        let d: u64 = rest % 16;
        let c = hex_char_exec(d);
        digits.push(c);
        rest = rest / 16;
        k = k + 1;
    }
    let mut s = String::new();
    let mut j: usize = width;
    while j > 0
        invariant
            j <= width,
            digits@.len() == width,
            forall|i: int| 0 <= i < width ==> #[trigger] digits@[i] == hex_char(
                ((v as nat) / pow16_u(i as nat)) % 16,
            ),
            s@ == rev_digits(v as nat, width as nat, j as nat),
        decreases j,
    {
        j = j - 1;
        let c = digits[j];
        push_char(&mut s, c);
    }
    proof {
        lemma_rev_digits(v as nat, width as nat);
    }
    s
}

/// Digits of weights `16^(width-1)` down to `16^from`, most significant first.
spec fn rev_digits(v: nat, width: nat, from: nat) -> Seq<char>
    decreases width - from,
{
    if from >= width {
        Seq::empty()
    } else {
        rev_digits(v, width, from + 1).push(hex_char((v / pow16_u(from)) % 16))
    }
}

proof fn lemma_div_div16(v: nat, k: nat)
    ensures
        v / pow16_u(k) / 16 == v / pow16_u(k + 1),
{
    assert(pow16_u(k + 1) == 16 * pow16_u(k));
    lemma_pow16_pos(k);
    vstd::arithmetic::div_mod::lemma_div_denominator(v as int, pow16_u(k) as int, 16);
    assert(pow16_u(k) * 16 == 16 * pow16_u(k)) by (nonlinear_arith);
}

proof fn lemma_pow16_pos(k: nat)
    ensures
        pow16_u(k) > 0,
    decreases k,
{
    if k > 0 {
        lemma_pow16_pos((k - 1) as nat);
    }
}

proof fn lemma_rev_digits(v: nat, width: nat)
    ensures
        rev_digits(v, width, 0) == hex_digits(v, width),
{
    lemma_rev_digits_gen(v, width, 0);
    assert(pow16_u(0) == 1);
    assert(v / 1 == v);
}

/// rev_digits(v, width, from) == hex_digits(v / 16^from, width - from)
proof fn lemma_rev_digits_gen(v: nat, width: nat, from: nat)
    requires
        from <= width,
    ensures
        rev_digits(v, width, from) == hex_digits(v / pow16_u(from), (width - from) as nat),
    decreases width - from,
{
    lemma_pow16_pos(from);
    lemma_pow16_pos(from + 1);
    if from < width {
        lemma_rev_digits_gen(v, width, from + 1);
        lemma_div_div16(v, from);
        let w = (width - from) as nat;
        let x: nat = v / pow16_u(from);
        assert(w > 0);
        lemma_hex_digits_unfold(x, w);
        assert((w - 1) as nat == (width - (from + 1)) as nat);
        assert(rev_digits(v, width, from) == rev_digits(v, width, from + 1).push(
            hex_char((v / pow16_u(from)) % 16),
        ));
        assert(x / 16 == v / pow16_u(from + 1));
    } else {
        assert(rev_digits(v, width, from) == Seq::<char>::empty());
        assert(hex_digits(v / pow16_u(from), 0) == Seq::<char>::empty());
    }
}

proof fn lemma_hex_digits_unfold(x: nat, w: nat)
    requires
        w > 0,
    ensures
        hex_digits(x, w) == hex_digits(x / 16, (w - 1) as nat).push(hex_char(x % 16)),
{
}

/// Appends one character.
#[verifier::external_body]
pub(crate) fn push_char(s: &mut String, c: char)
    ensures
        final(s)@ == old(s)@.push(c),
{
    s.push(c)
}

} // verus!
