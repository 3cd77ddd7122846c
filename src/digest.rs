use vstd::prelude::*;

verus! {

/// The `n` low bytes of `v`, least significant first.
pub open spec fn le_bytes(v: nat, n: nat) -> Seq<u8>
    decreases n,
{
    if n == 0 {
        Seq::empty()
    } else {
        seq![(v % 256) as u8] + le_bytes(v / 256, (n - 1) as nat)
    }
}

/// Two's-complement image of `v` modulo `modulus` (a power of two).
pub open spec fn twos_complement(v: int, modulus: int) -> nat {
    (v % modulus) as nat
}

/// The bytes that a reading's digest is taken over: the cell identifier, then
/// temperature, pressure and timestamp, each little-endian.
pub open spec fn reading_message_spec(hex_id: Seq<u8>, temperature: i16, pressure: u32, timestamp: i64) -> Seq<
    u8,
> {
    hex_id + le_bytes(twos_complement(temperature as int, 0x1_0000), 2) + le_bytes(pressure as nat, 4)
        + le_bytes(twos_complement(timestamp as int, 0x1_0000_0000_0000_0000), 8)
}

/// Keccak-256 digest of a byte sequence.
pub uninterp spec fn keccak256_of(data: Seq<u8>) -> Seq<u8>;

/// Relies on solana_program::keccak::hash: the Keccak-256 digest of the
/// bytes, which depends on them alone.
#[verifier::external_body]
fn keccak256(data: &[u8]) -> (r: [u8; 32])
    ensures
        r@ == keccak256_of(data@),
{
    solana_program::keccak::hash(data).to_bytes()
}

/// Appends the `n` low bytes of `v` to `out`, least significant first.
fn push_le_bytes(out: &mut Vec<u8>, v: u64, n: usize)
    requires
        n <= 8,
    ensures
        final(out)@ == old(out)@ + le_bytes(v as nat, n as nat),
{
    let mut cur: u64 = v;
    let mut k: usize = 0;
    while k < n
        invariant
            k <= n,
            old(out)@ + le_bytes(v as nat, n as nat) == out@ + le_bytes(cur as nat, (n - k) as nat),
        decreases n - k,
    {
        let b: u8 = (cur % 256) as u8;
        let ghost before = out@;
        out.push(b);
        assert(le_bytes(cur as nat, (n - k) as nat) == seq![b] + le_bytes((cur / 256) as nat, (n - k - 1) as nat));
        assert(before + le_bytes(cur as nat, (n - k) as nat) =~= out@ + le_bytes((cur / 256) as nat, (n - k - 1) as nat));
        cur = cur / 256;
        k = k + 1;
    }
    assert(le_bytes(cur as nat, 0) =~= Seq::<u8>::empty());
    assert(out@ + le_bytes(cur as nat, 0) =~= out@);
}

/// The bytes that a reading's digest is taken over.
pub fn reading_message(hex_id: [u8; 8], temperature: i16, pressure: u32, timestamp: i64) -> (r: Vec<u8>)
    ensures
        r@ == reading_message_spec(hex_id@, temperature, pressure, timestamp),
{
    let mut out: Vec<u8> = Vec::new();
    let mut i: usize = 0;
    while i < 8
        invariant
            i <= 8,
            out@ == hex_id@.subrange(0, i as int),
        decreases 8 - i,
    {
        out.push(hex_id[i]);
        assert(out@ =~= hex_id@.subrange(0, i + 1));
        i = i + 1;
    }
    assert(out@ =~= hex_id@);
    let t: u64 = if temperature >= 0 {
        temperature as u64
    } else {
        (temperature as i32 + 0x1_0000) as u64
    };
    assert(t as nat == twos_complement(temperature as int, 0x1_0000));
    push_le_bytes(&mut out, t, 2);
    push_le_bytes(&mut out, pressure as u64, 4);
    let s: u64 = if timestamp >= 0 {
        timestamp as u64
    } else {
        (timestamp as i128 + 0x1_0000_0000_0000_0000) as u64
    };
    assert(s as nat == twos_complement(timestamp as int, 0x1_0000_0000_0000_0000));
    push_le_bytes(&mut out, s, 8);
    out
}

/// The Keccak-256 digest of a reading's fields, which binds a signature to them.
pub fn reading_hash(hex_id: [u8; 8], temperature: i16, pressure: u32, timestamp: i64) -> (r: [u8; 32])
    ensures
        r@ == keccak256_of(reading_message_spec(hex_id@, temperature, pressure, timestamp)),
{
    let msg = reading_message(hex_id, temperature, pressure, timestamp);
    keccak256(msg.as_slice())
}

} // verus!
