use vstd::prelude::*;
use vstd::arithmetic::div_mod::lemma_fundamental_div_mod_converse;
use vstd::slice::slice_to_vec;
use crate::text::{
    dec_text, hex2_text, hex_min_text, lowercase_text, push_char, push_dec, push_hex, push_hex2, str_eq,
    to_lowercase,
};

verus! {

/// A decoded key field or parameter value.
#[derive(Debug, Clone)]
pub enum DecodedValue {
    Ipv4(String),
    Ipv6(String),
    Mac(String),
    Int(u64),
    Raw(Vec<u8>),
}

/// The mathematical value of a [`DecodedValue`].
pub enum DecodedSpec {
    Ipv4(Seq<char>),
    Ipv6(Seq<char>),
    Mac(Seq<char>),
    Int(u64),
    Raw(Seq<u8>),
}

impl View for DecodedValue {
    type V = DecodedSpec;

    open spec fn view(&self) -> DecodedSpec {
        match self {
            DecodedValue::Ipv4(s) => DecodedSpec::Ipv4(s@),
            DecodedValue::Ipv6(s) => DecodedSpec::Ipv6(s@),
            DecodedValue::Mac(s) => DecodedSpec::Mac(s@),
            DecodedValue::Int(n) => DecodedSpec::Int(*n),
            DecodedValue::Raw(v) => DecodedSpec::Raw(v@),
        }
    }
}

/// `2^64`, the modulus of `u64` arithmetic.
pub open spec fn u64_modulus() -> int {
    0x1_0000_0000_0000_0000
}

/// Dotted-decimal notation of the first four bytes.
pub open spec fn ipv4_text(b: Seq<u8>) -> Seq<char> {
    dec_text(b[0] as nat) + seq!['.'] + dec_text(b[1] as nat) + seq!['.'] + dec_text(b[2] as nat)
        + seq!['.'] + dec_text(b[3] as nat)
}

/// Group `i` of an IPv6 address: bytes `2i` and `2i+1` read as a 16-bit
/// big-endian number.
pub open spec fn ipv6_group(b: Seq<u8>, i: int) -> nat {
    b[2 * i] as nat * 256 + b[2 * i + 1] as nat
}

/// The number of zero groups in a row from group `i` on.
pub open spec fn zero_run(b: Seq<u8>, i: int) -> nat
    decreases 8 - i,
{
    if i < 0 || i >= 8 || ipv6_group(b, i) != 0 {
        0
    } else {
        1 + zero_run(b, i + 1)
    }
}

/// The longest run of zero groups that starts at group `i` or later, as its
/// start and length; of runs equally long, the first; `(8, 0)` where there
/// is none.
pub open spec fn longest_zero_run(b: Seq<u8>, i: int) -> (int, nat)
    decreases 8 - i,
{
    if i < 0 || i >= 8 {
        (8, 0)
    } else {
        let later = longest_zero_run(b, i + 1);
        let here = zero_run(b, i);
        if here > 0 && here >= later.1 {
            (i, here)
        } else {
            later
        }
    }
}

/// Groups `from` up to (not including) `to`, each in lower-case hexadecimal
/// without leading zeros, joined by colons.
pub open spec fn ipv6_join(b: Seq<u8>, from: int, to: int) -> Seq<char>
    decreases to - from,
{
    if to <= from {
        Seq::empty()
    } else if to == from + 1 {
        hex_min_text(ipv6_group(b, from))
    } else {
        ipv6_join(b, from, to - 1) + seq![':'] + hex_min_text(ipv6_group(b, to - 1))
    }
}

/// The text of the IPv6 address in the first sixteen bytes, in the
/// canonical form of RFC 5952: eight groups in lower-case hexadecimal
/// without leading zeros, joined by colons, where the longest run of two or
/// more zero groups (the first of equally long ones) is written `::`. The
/// loopback address is `::1`.
pub open spec fn ipv6_text(b: Seq<u8>) -> Seq<char> {
    let (start, len) = longest_zero_run(b, 0);
    if len < 2 {
        ipv6_join(b, 0, 8)
    } else {
        ipv6_join(b, 0, start) + "::"@ + ipv6_join(b, start + len, 8)
    }
}

/// Colon notation of the first six bytes, in lower-case hexadecimal.
pub open spec fn mac_text(b: Seq<u8>) -> Seq<char> {
    hex2_text(b[0]) + seq![':'] + hex2_text(b[1]) + seq![':'] + hex2_text(b[2]) + seq![':']
        + hex2_text(b[3]) + seq![':'] + hex2_text(b[4]) + seq![':'] + hex2_text(b[5])
}

/// All bytes in lower-case hexadecimal, two digits each, without separator.
pub open spec fn hex_text(b: Seq<u8>) -> Seq<char>
    decreases b.len(),
{
    if b.len() == 0 {
        Seq::empty()
    } else {
        hex_text(b.drop_last()) + hex2_text(b.last())
    }
}

/// The unsigned big-endian value of a byte sequence.
pub open spec fn be_value(b: Seq<u8>) -> nat
    decreases b.len(),
{
    if b.len() == 0 {
        0
    } else {
        be_value(b.drop_last()) * 256 + b.last() as nat
    }
}

/// Byte `i` of `b`, or zero past its end.
pub open spec fn byte_or_zero(b: Seq<u8>, i: int) -> nat {
    if 0 <= i < b.len() {
        b[i] as nat
    } else {
        0
    }
}

/// The little-endian value of the first four bytes of `b`, missing bytes read as zero.
pub open spec fn le32_value(b: Seq<u8>) -> nat {
    byte_or_zero(b, 0) + 256 * byte_or_zero(b, 1) + 65536 * byte_or_zero(b, 2) + 16777216
        * byte_or_zero(b, 3)
}

/// Number of key bytes a field of `bitwidth` bits takes: whole bytes, at least one.
pub open spec fn field_byte_len(bitwidth: u32) -> nat {
    let n = (bitwidth + 7) / 8;
    if n < 1 {
        1
    } else {
        n as nat
    }
}

/// The integer a field of `bitwidth` bits holds in `raw`: its leading bytes
/// (as many as the field takes, or all of `raw` when shorter) read as a
/// big-endian number, of which a `u64` keeps the low 64 bits.
pub open spec fn field_int(raw: Seq<u8>, bitwidth: u32) -> u64 {
    let n = if field_byte_len(bitwidth) < raw.len() {
        field_byte_len(bitwidth) as int
    } else {
        raw.len() as int
    };
    (be_value(raw.take(n)) as int % u64_modulus()) as u64
}

/// How a raw key field is decoded for a schema type (already lower-cased).
pub open spec fn decode_key_spec(raw: Seq<u8>, lower_ty: Seq<char>, bitwidth: u32) -> DecodedSpec {
    if lower_ty == "ipv4"@ && raw.len() >= 4 {
        DecodedSpec::Ipv4(ipv4_text(raw))
    } else if lower_ty == "ipv6"@ && raw.len() >= 16 {
        DecodedSpec::Ipv6(ipv6_text(raw))
    } else if lower_ty == "macaddr"@ && raw.len() >= 6 {
        DecodedSpec::Mac(mac_text(raw))
    } else if lower_ty == "dev"@ && raw.len() >= 4 {
        DecodedSpec::Int(le32_value(raw) as u64)
    } else {
        DecodedSpec::Int(field_int(raw, bitwidth))
    }
}

/// How a parameter value is decoded for its type name (already lower-cased).
pub open spec fn decode_param_spec(value: Seq<u8>, lower_ty: Seq<char>) -> DecodedSpec {
    if lower_ty == "dev"@ {
        DecodedSpec::Int(le32_value(value) as u64)
    } else if lower_ty == "ipv4"@ && value.len() >= 4 {
        DecodedSpec::Ipv4(ipv4_text(value))
    } else if lower_ty == "ipv6"@ && value.len() >= 16 {
        DecodedSpec::Ipv6(ipv6_text(value))
    } else if lower_ty == "macaddr"@ && value.len() >= 6 {
        DecodedSpec::Mac(mac_text(value))
    } else {
        DecodedSpec::Raw(value)
    }
}

/// The human-readable text of a decoded value.
pub open spec fn display_text(d: DecodedSpec) -> Seq<char> {
    match d {
        DecodedSpec::Ipv4(s) => s,
        DecodedSpec::Ipv6(s) => s,
        DecodedSpec::Mac(s) => s,
        DecodedSpec::Int(n) => dec_text(n as nat),
        DecodedSpec::Raw(v) => hex_text(v),
    }
}

/// Dotted-decimal notation of the first four bytes.
fn ipv4_string(b: &[u8]) -> (s: String)
    requires
        b@.len() >= 4,
    ensures
        s@ == ipv4_text(b@),
{
    let mut s = String::new();
    push_dec(&mut s, b[0] as u64);
    push_char(&mut s, '.');
    push_dec(&mut s, b[1] as u64);
    push_char(&mut s, '.');
    push_dec(&mut s, b[2] as u64);
    push_char(&mut s, '.');
    push_dec(&mut s, b[3] as u64);
    assert(s@ =~= ipv4_text(b@));
    s
}

/// Group `i` of the address in the first sixteen bytes.
fn ipv6_group_at(b: &[u8], i: usize) -> (g: u64)
    requires
        b@.len() >= 16,
        i < 8,
    ensures
        g as nat == ipv6_group(b@, i as int),
{
    (b[2 * i] as u64) * 256 + (b[2 * i + 1] as u64)
}

/// Appends groups `from` up to `to`, joined by colons.
fn push_ipv6_groups(s: &mut String, b: &[u8], from: usize, to: usize)
    requires
        b@.len() >= 16,
        from <= to <= 8,
    ensures
        final(s)@ == old(s)@ + ipv6_join(b@, from as int, to as int),
{
    let mut j: usize = from;
    while j < to
        invariant
            b@.len() >= 16,
            from <= j <= to <= 8,
            s@ == old(s)@ + ipv6_join(b@, from as int, j as int),
        decreases to - j,
    {
        if j > from {
            push_char(s, ':');
        }
        push_hex(s, ipv6_group_at(b, j));
        j = j + 1;
        assert(s@ =~= old(s)@ + ipv6_join(b@, from as int, j as int));
    }
}

/// The text of the address in the first sixteen bytes (RFC 5952).
fn ipv6_string(b: &[u8]) -> (s: String)
    requires
        b@.len() >= 16,
    ensures
        s@ == ipv6_text(b@),
{
    let mut run: usize = 0;
    let mut best_start: usize = 8;
    let mut best_len: usize = 0;
    let mut k: usize = 8;
    while k > 0
        invariant
            b@.len() >= 16,
            k <= 8,
            run <= 8 - k,
            run == zero_run(b@, k as int),
            best_start + best_len <= 8,
            (best_start as int, best_len as nat) == longest_zero_run(b@, k as int),
        decreases k,
    {
        k = k - 1;
        if ipv6_group_at(b, k) == 0 {
            run = run + 1;
        } else {
            run = 0;
        }
        if run > 0 && run >= best_len {
            best_start = k;
            best_len = run;
        }
    }
    let mut s = String::new();
    if best_len < 2 {
        push_ipv6_groups(&mut s, b, 0, 8);
    } else {
        push_ipv6_groups(&mut s, b, 0, best_start);
        push_char(&mut s, ':');
        push_char(&mut s, ':');
        push_ipv6_groups(&mut s, b, best_start + best_len, 8);
        proof {
            reveal_strlit("::");
        }
        assert(s@ =~= ipv6_join(b@, 0, best_start as int) + "::"@ + ipv6_join(
            b@,
            (best_start + best_len) as int,
            8,
        ));
    }
    assert(s@ =~= ipv6_text(b@));
    s
}

/// Colon notation of the first six bytes.
fn mac_string(b: &[u8]) -> (s: String)
    requires
        b@.len() >= 6,
    ensures
        s@ == mac_text(b@),
{
    let mut s = String::new();
    push_hex2(&mut s, b[0]);
    push_char(&mut s, ':');
    push_hex2(&mut s, b[1]);
    push_char(&mut s, ':');
    push_hex2(&mut s, b[2]);
    push_char(&mut s, ':');
    push_hex2(&mut s, b[3]);
    push_char(&mut s, ':');
    push_hex2(&mut s, b[4]);
    push_char(&mut s, ':');
    push_hex2(&mut s, b[5]);
    assert(s@ =~= mac_text(b@));
    s
}

/// Appends every byte in two-digit hexadecimal.
fn push_hex_bytes(s: &mut String, b: &[u8])
    ensures
        final(s)@ == old(s)@ + hex_text(b@),
{
    let mut i: usize = 0;
    while i < b.len()
        invariant
            i <= b@.len(),
            s@ == old(s)@ + hex_text(b@.take(i as int)),
        decreases b@.len() - i,
    {
        push_hex2(s, b[i]);
        proof {
            assert(b@.take(i + 1).drop_last() =~= b@.take(i as int));
        }
        i = i + 1;
        assert(s@ =~= old(s)@ + hex_text(b@.take(i as int)));
    }
    assert(b@.take(b@.len() as int) =~= b@);
}

/// Shifting a byte into a `u64` accumulator that holds `x mod 2^64` gives
/// `(x * 256 + b) mod 2^64`.
proof fn lemma_shift_in_byte(x: int, v: u64, b: u8)
    requires
        x >= 0,
        v as int == x % u64_modulus(),
    ensures
        ((v << 8u64) | (b as u64)) as int == (x * 256 + (b as int)) % u64_modulus(),
{
    let s: u64 = v % 0x100_0000_0000_0000;
    assert((v << 8u64) | (b as u64) == s * 256 + (b as u64)) by (bit_vector)
        requires
            s == v % 0x100_0000_0000_0000,
    ;
    let m = u64_modulus();
    let q = x / m;
    let r = (v as int) / 0x100_0000_0000_0000;
    assert(x == q * m + v as int) by {
        vstd::arithmetic::div_mod::lemma_fundamental_div_mod(x, m);
    }
    assert(v as int == r * 0x100_0000_0000_0000 + s as int) by {
        vstd::arithmetic::div_mod::lemma_fundamental_div_mod(v as int, 0x100_0000_0000_0000);
    }
    assert(x * 256 + (b as int) == (q * 256 + r) * m + ((s as int) * 256 + (b as int))) by (nonlinear_arith)
        requires
            x == q * m + v as int,
            v as int == r * 0x100_0000_0000_0000 + s as int,
            m == 0x1_0000_0000_0000_0000,
    ;
    assert(0 <= (s as int) * 256 + (b as int) < m) by (nonlinear_arith)
        requires
            0 <= s < 0x100_0000_0000_0000,
            0 <= b < 256,
            m == 0x1_0000_0000_0000_0000,
    ;
    lemma_fundamental_div_mod_converse(x * 256 + (b as int), m, q * 256 + r, (s as int) * 256 + (b as int));
}

/// The big-endian value of the first `n` bytes, modulo `2^64`.
fn be_u64(b: &[u8], n: usize) -> (v: u64)
    requires
        n <= b@.len(),
    ensures
        v as int == be_value(b@.take(n as int)) as int % u64_modulus(),
{
    let mut v: u64 = 0;
    let mut i: usize = 0;
    while i < n
        invariant
            n <= b@.len(),
            i <= n,
            v as int == be_value(b@.take(i as int)) as int % u64_modulus(),
        decreases n - i,
    {
        proof {
            assert(b@.take(i + 1).drop_last() =~= b@.take(i as int));
            lemma_shift_in_byte(be_value(b@.take(i as int)) as int, v, b@[i as int]);
        }
        v = (v << 8u64) | (b[i] as u64);
        i = i + 1;
    }
    v
}

/// The little-endian value of the first four bytes, missing bytes read as zero.
fn le32(b: &[u8]) -> (v: u32)
    ensures
        v as nat == le32_value(b@),
{
    let b0: u32 = if b.len() > 0 { b[0] as u32 } else { 0 };
    let b1: u32 = if b.len() > 1 { b[1] as u32 } else { 0 };
    let b2: u32 = if b.len() > 2 { b[2] as u32 } else { 0 };
    let b3: u32 = if b.len() > 3 { b[3] as u32 } else { 0 };
    b0 + 256 * b1 + 65536 * b2 + 16777216 * b3
}

/// Decodes raw key field bytes by their schema type.
///
/// `ipv4`, `ipv6` and `macaddr` fields (type names compared after
/// lower-casing) long enough for the address become text; a `dev` field of at
/// least four bytes is a little-endian interface index; anything else is read
/// as a big-endian integer of the field's width.
pub fn decode_key_field(raw: &[u8], ty: &str, bitwidth: u32) -> (d: DecodedValue)
    requires
        bitwidth <= u32::MAX - 7,
    ensures
        d@ == decode_key_spec(raw@, lowercase_text(ty@), bitwidth),
{
    let lower = to_lowercase(ty);
    decode_key_lowered(raw, lower.as_str(), bitwidth)
}

/// Decodes raw key field bytes by their schema type name, already
/// lower-cased: see [`decode_key_field`].
pub fn decode_key_lowered(raw: &[u8], t: &str, bitwidth: u32) -> (d: DecodedValue)
    requires
        bitwidth <= u32::MAX - 7,
    ensures
        d@ == decode_key_spec(raw@, t@, bitwidth),
{
    if str_eq(t, "ipv4") && raw.len() >= 4 {
        DecodedValue::Ipv4(ipv4_string(raw))
    } else if str_eq(t, "ipv6") && raw.len() >= 16 {
        DecodedValue::Ipv6(ipv6_string(raw))
    } else if str_eq(t, "macaddr") && raw.len() >= 6 {
        DecodedValue::Mac(mac_string(raw))
    } else if str_eq(t, "dev") && raw.len() >= 4 {
        DecodedValue::Int(le32(raw) as u64)
    } else {
        let w: u32 = (bitwidth + 7) / 8;
        let byte_len: usize = if w < 1 { 1 } else { w as usize };
        let n: usize = if byte_len < raw.len() { byte_len } else { raw.len() };
        DecodedValue::Int(be_u64(raw, n))
    }
}

/// Decodes a parameter value by its type name: `dev` is a little-endian
/// interface index of up to four bytes; `ipv4`, `ipv6` and `macaddr` values
/// long enough for the address become text; anything else stays raw bytes.
pub fn decode_param_value(value: &[u8], p4_type: &str) -> (d: DecodedValue)
    ensures
        d@ == decode_param_spec(value@, lowercase_text(p4_type@)),
{
    let lower = to_lowercase(p4_type);
    decode_param_lowered(value, lower.as_str())
}

/// Decodes a parameter value by its type name, already lower-cased: see
/// [`decode_param_value`].
pub fn decode_param_lowered(value: &[u8], t: &str) -> (d: DecodedValue)
    ensures
        d@ == decode_param_spec(value@, t@),
{
    if str_eq(t, "dev") {
        DecodedValue::Int(le32(value) as u64)
    } else if str_eq(t, "ipv4") && value.len() >= 4 {
        DecodedValue::Ipv4(ipv4_string(value))
    } else if str_eq(t, "ipv6") && value.len() >= 16 {
        DecodedValue::Ipv6(ipv6_string(value))
    } else if str_eq(t, "macaddr") && value.len() >= 6 {
        DecodedValue::Mac(mac_string(value))
    } else {
        DecodedValue::Raw(slice_to_vec(value))
    }
}

impl DecodedValue {
    /// Appends the human-readable text of the value.
    pub fn push_text(&self, s: &mut String)
        ensures
            final(s)@ == old(s)@ + display_text(self@),
    {
        match self {
            DecodedValue::Ipv4(t) => s.append(t.as_str()),
            DecodedValue::Ipv6(t) => s.append(t.as_str()),
            DecodedValue::Mac(t) => s.append(t.as_str()),
            DecodedValue::Int(n) => push_dec(s, *n),
            DecodedValue::Raw(v) => push_hex_bytes(s, v.as_slice()),
        }
    }

    /// The human-readable text of the value: addresses as they are, integers
    /// in decimal, raw bytes in hexadecimal.
    pub fn to_display_string(&self) -> (s: String)
        ensures
            s@ == display_text(self@),
    {
        let mut s = String::new();
        self.push_text(&mut s);
        assert(s@ =~= display_text(self@));
        s
    }
}

} // verus!
