use vstd::prelude::*;

verus! {

/// Little-endian magic constant that opens a self-describing metadata frame.
pub const METADATA_FRAME_MAGIC: u32 = 0x184D2A50;

/// Decimal digits of `n` as ASCII bytes, most significant first.
pub open spec fn dec_digits(n: nat) -> Seq<u8>
    decreases n,
{
    if n < 10 {
        seq![(48 + n) as u8]
    } else {
        dec_digits(n / 10).push((48 + n % 10) as u8)
    }
}

/// ASCII bytes of the text `{"xSize":`.
pub open spec fn json_prefix() -> Seq<u8> {
    seq![123u8, 34u8, 120u8, 83u8, 105u8, 122u8, 101u8, 34u8, 58u8]
}

/// ASCII bytes of the text `,"ySize":`.
pub open spec fn json_mid_y() -> Seq<u8> {
    seq![44u8, 34u8, 121u8, 83u8, 105u8, 122u8, 101u8, 34u8, 58u8]
}

/// ASCII bytes of the text `,"zSize":`.
pub open spec fn json_mid_z() -> Seq<u8> {
    seq![44u8, 34u8, 122u8, 83u8, 105u8, 122u8, 101u8, 34u8, 58u8]
}

/// ASCII bytes of the text `,"type":"uint8"}`.
pub open spec fn json_suffix() -> Seq<u8> {
    seq![
        44u8,
        34u8,
        116u8,
        121u8,
        112u8,
        101u8,
        34u8,
        58u8,
        34u8,
        117u8,
        105u8,
        110u8,
        116u8,
        56u8,
        34u8,
        125u8,
    ]
}

/// The metadata payload: the literal text
/// `{"xSize":X,"ySize":Y,"zSize":Z,"type":"uint8"}` with the three
/// dimensions written in decimal.
pub open spec fn metadata_bytes(xs: nat, ys: nat, zs: nat) -> Seq<u8> {
    json_prefix() + dec_digits(xs) + json_mid_y() + dec_digits(ys) + json_mid_z() + dec_digits(zs)
        + json_suffix()
}

/// The four little-endian bytes of a 32-bit value.
pub open spec fn le32(n: nat) -> Seq<u8> {
    seq![(n % 256) as u8, ((n / 256) % 256) as u8, ((n / 65536) % 256) as u8, ((n / 16777216)
        % 256) as u8]
}

/// The whole metadata frame preceding the compressed payload: magic,
/// payload length, payload, each number little-endian.
pub open spec fn header_bytes(xs: nat, ys: nat, zs: nat) -> Seq<u8> {
    le32(METADATA_FRAME_MAGIC as nat) + le32(metadata_bytes(xs, ys, zs).len()) + metadata_bytes(
        xs,
        ys,
        zs,
    )
}

/// Ten to the `k`.
pub open spec fn pow10(k: nat) -> nat
    decreases k,
{
    if k == 0 {
        1
    } else {
        10 * pow10((k - 1) as nat)
    }
}

/// A value below the `k`-th power of ten takes at most `k` decimal digits.
pub proof fn lemma_dec_digits_len(n: nat, k: nat)
    requires
        1 <= k,
        n < pow10(k),
    ensures
        1 <= dec_digits(n).len() <= k,
    decreases k,
{
    if n >= 10 {
        assert(pow10(k) == 10 * pow10((k - 1) as nat));
        vstd::arithmetic::div_mod::lemma_multiply_divide_lt(n as int, 10, pow10((k - 1) as nat) as int);
        lemma_dec_digits_len(n / 10, (k - 1) as nat);
    }
}

/// Any 64-bit value takes at most 20 decimal digits.
pub proof fn lemma_dec_digits_len_u64(n: u64)
    ensures
        1 <= dec_digits(n as nat).len() <= 20,
{
    assert(pow10(20) == 100000000000000000000) by {
        reveal_with_fuel(pow10, 21);
    }
    assert((n as nat) < pow10(20));
    lemma_dec_digits_len(n as nat, 20);
}

/// Any 32-bit value takes at most 10 decimal digits.
pub proof fn lemma_dec_digits_len_u32(n: u32)
    ensures
        1 <= dec_digits(n as nat).len() <= 10,
{
    assert(pow10(10) == 10000000000) by {
        reveal_with_fuel(pow10, 11);
    }
    assert((n as nat) < pow10(10));
    lemma_dec_digits_len(n as nat, 10);
}

/// Appends the decimal digits of `n`.
pub fn push_decimal(out: &mut Vec<u8>, n: u64)
    ensures
        final(out)@ == old(out)@ + dec_digits(n as nat),
    decreases n,
{
    if n < 10 {
        out.push(48 + (n as u8));
        assert(out@ =~= old(out)@ + dec_digits(n as nat));
    } else {
        push_decimal(out, n / 10);
        out.push(48 + ((n % 10) as u8));
        assert(out@ =~= old(out)@ + dec_digits(n as nat));
    }
}

/// Appends the four little-endian bytes of `n`.
pub fn push_le32(out: &mut Vec<u8>, n: u32)
    ensures
        final(out)@ == old(out)@ + le32(n as nat),
{
    out.push((n % 256) as u8);
    out.push(((n / 256) % 256) as u8);
    out.push(((n / 65536) % 256) as u8);
    out.push(((n / 16777216) % 256) as u8);
    assert(out@ =~= old(out)@ + le32(n as nat));
}

/// Appends the ASCII text `{"xSize":`.
fn push_json_prefix(out: &mut Vec<u8>)
    ensures
        final(out)@ == old(out)@ + json_prefix(),
{
    out.push(123);
    out.push(34);
    out.push(120);
    out.push(83);
    out.push(105);
    out.push(122);
    out.push(101);
    out.push(34);
    out.push(58);
    assert(out@ =~= old(out)@ + json_prefix());
}

/// Appends the ASCII text `,"ySize":`.
fn push_json_mid_y(out: &mut Vec<u8>)
    ensures
        final(out)@ == old(out)@ + json_mid_y(),
{
    out.push(44);
    out.push(34);
    out.push(121);
    out.push(83);
    out.push(105);
    out.push(122);
    out.push(101);
    out.push(34);
    out.push(58);
    assert(out@ =~= old(out)@ + json_mid_y());
}

/// Appends the ASCII text `,"zSize":`.
fn push_json_mid_z(out: &mut Vec<u8>)
    ensures
        final(out)@ == old(out)@ + json_mid_z(),
{
    out.push(44);
    out.push(34);
    out.push(122);
    out.push(83);
    out.push(105);
    out.push(122);
    out.push(101);
    out.push(34);
    out.push(58);
    assert(out@ =~= old(out)@ + json_mid_z());
}

/// Appends the ASCII text `,"type":"uint8"}`.
fn push_json_suffix(out: &mut Vec<u8>)
    ensures
        final(out)@ == old(out)@ + json_suffix(),
{
    out.push(44);
    out.push(34);
    out.push(116);
    out.push(121);
    out.push(112);
    out.push(101);
    out.push(34);
    out.push(58);
    out.push(34);
    out.push(117);
    out.push(105);
    out.push(110);
    out.push(116);
    out.push(56);
    out.push(34);
    out.push(125);
    assert(out@ =~= old(out)@ + json_suffix());
}

/// Builds the metadata payload text for the given dimensions.
pub fn format_metadata(x_size: u32, y_size: u32, z_size: u64) -> (r: Vec<u8>)
    ensures
        r@ == metadata_bytes(x_size as nat, y_size as nat, z_size as nat),
        r@.len() <= 83,
{
    let mut out: Vec<u8> = Vec::new();
    push_json_prefix(&mut out);
    push_decimal(&mut out, x_size as u64);
    push_json_mid_y(&mut out);
    push_decimal(&mut out, y_size as u64);
    push_json_mid_z(&mut out);
    push_decimal(&mut out, z_size);
    push_json_suffix(&mut out);
    proof {
        assert(out@ =~= metadata_bytes(x_size as nat, y_size as nat, z_size as nat));
        lemma_dec_digits_len_u32(x_size);
        lemma_dec_digits_len_u32(y_size);
        lemma_dec_digits_len_u64(z_size);
    }
    out
}

/// Builds the whole metadata frame for the given dimensions: the bytes
/// that stand at the very start of the output, before any compressed byte.
pub fn build_header(x_size: u32, y_size: u32, z_size: u64) -> (r: Vec<u8>)
    ensures
        r@ == header_bytes(x_size as nat, y_size as nat, z_size as nat),
{
    let mut meta = format_metadata(x_size, y_size, z_size);
    let mlen = meta.len() as u32;
    let mut out: Vec<u8> = Vec::new();
    push_le32(&mut out, METADATA_FRAME_MAGIC);
    push_le32(&mut out, mlen);
    out.append(&mut meta);
    proof {
        assert(out@ =~= header_bytes(x_size as nat, y_size as nat, z_size as nat));
    }
    out
}

} // verus!
