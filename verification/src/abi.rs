//! The encoding of a string message exchanged with other chains: an offset word, a
//! length word, then the bytes, zero-padded to a whole number of 32-byte words.
use vstd::prelude::*;

verus! {

/// The eight bytes of `x`, most significant first.
pub open spec fn be_bytes(x: u64) -> Seq<u8> {
    seq![
        (x >> 56u64) as u8,
        (x >> 48u64) as u8,
        (x >> 40u64) as u8,
        (x >> 32u64) as u8,
        (x >> 24u64) as u8,
        (x >> 16u64) as u8,
        (x >> 8u64) as u8,
        x as u8,
    ]
}

/// The number whose eight bytes, most significant first, are `b0` to `b7`.
pub open spec fn from_be(b0: u8, b1: u8, b2: u8, b3: u8, b4: u8, b5: u8, b6: u8, b7: u8) -> u64 {
    ((b0 as u64) << 56u64) | ((b1 as u64) << 48u64) | ((b2 as u64) << 40u64) | ((b3 as u64)
        << 32u64) | ((b4 as u64) << 24u64) | ((b5 as u64) << 16u64) | ((b6 as u64) << 8u64)
        | (b7 as u64)
}

/// The number held in the eight bytes `s[at..at + 8]`, most significant first.
pub open spec fn read_be(s: Seq<u8>, at: int) -> u64 {
    from_be(s[at], s[at + 1], s[at + 2], s[at + 3], s[at + 4], s[at + 5], s[at + 6], s[at + 7])
}

/// `n` zero bytes.
pub open spec fn zeros(n: nat) -> Seq<u8> {
    Seq::new(n, |i: int| 0u8)
}

/// A 32-byte word holding `x`.
pub open spec fn word(x: u64) -> Seq<u8> {
    zeros(24) + be_bytes(x)
}

/// The number of zero bytes that complete `n` bytes to a whole number of words.
pub open spec fn padding_len(n: nat) -> nat {
    if n % 32 == 0 {
        0
    } else {
        (32 - n % 32) as nat
    }
}

/// The encoding of `message`.
pub open spec fn abi_encoding(message: Seq<u8>) -> Seq<u8> {
    word(32) + word(message.len() as u64) + message + zeros(padding_len(message.len()))
}

/// The message that `payload` encodes, if it is a well-formed encoding: an offset word of
/// 32, a length word, exactly that many bytes, and zero padding to the next word.
pub open spec fn abi_decoding(payload: Seq<u8>) -> Option<Seq<u8>> {
    if payload.len() < 64 || payload.subrange(0, 56) != zeros(56).update(31, 32u8) {
        None
    } else {
        let n = read_be(payload, 56) as nat;
        if payload.len() != 64 + n + padding_len(n) {
            None
        } else if payload.subrange(64 + n as int, payload.len() as int) != zeros(padding_len(n)) {
            None
        } else {
            Some(payload.subrange(64, 64 + n as int))
        }
    }
}

proof fn lemma_offset_word()
    ensures
        be_bytes(32) == seq![0u8, 0u8, 0u8, 0u8, 0u8, 0u8, 0u8, 32u8],
        word(32) == zeros(56).update(31, 32u8).subrange(0, 32),
{
    let x: u64 = 32;
    assert((x >> 56u64) as u8 == 0 && (x >> 48u64) as u8 == 0 && (x >> 40u64) as u8 == 0 && (x
        >> 32u64) as u8 == 0 && (x >> 24u64) as u8 == 0 && (x >> 16u64) as u8 == 0 && (x >> 8u64)
        as u8 == 0 && x as u8 == 32) by (bit_vector)
        requires
            x == 32,
    ;
    assert(be_bytes(32) =~= seq![0u8, 0u8, 0u8, 0u8, 0u8, 0u8, 0u8, 32u8]);
    assert(word(32) =~= zeros(56).update(31, 32u8).subrange(0, 32));
}

proof fn lemma_be_round_trip(x: u64)
    ensures
        read_be(be_bytes(x), 0) == x,
{
    let b = be_bytes(x);
    assert(from_be(
        (x >> 56u64) as u8,
        (x >> 48u64) as u8,
        (x >> 40u64) as u8,
        (x >> 32u64) as u8,
        (x >> 24u64) as u8,
        (x >> 16u64) as u8,
        (x >> 8u64) as u8,
        x as u8,
    ) == x) by (bit_vector);
}

proof fn lemma_be_bytes_of_read(s: Seq<u8>, at: int)
    requires
        0 <= at,
        at + 8 <= s.len(),
    ensures
        be_bytes(read_be(s, at)) == s.subrange(at, at + 8),
{
    let (b0, b1, b2, b3, b4, b5, b6, b7) = (
        s[at],
        s[at + 1],
        s[at + 2],
        s[at + 3],
        s[at + 4],
        s[at + 5],
        s[at + 6],
        s[at + 7],
    );
    let x = from_be(b0, b1, b2, b3, b4, b5, b6, b7);
    assert((x >> 56u64) as u8 == b0 && (x >> 48u64) as u8 == b1 && (x >> 40u64) as u8 == b2 && (x
        >> 32u64) as u8 == b3 && (x >> 24u64) as u8 == b4 && (x >> 16u64) as u8 == b5 && (x >> 8u64)
        as u8 == b6 && x as u8 == b7) by (bit_vector)
        requires
            x == from_be(b0, b1, b2, b3, b4, b5, b6, b7),
    ;
    assert(be_bytes(x) =~= s.subrange(at, at + 8));
}

/// Decoding an encoding gives back the message.
pub proof fn law_decode_encoding(message: Seq<u8>)
    requires
        message.len() <= u64::MAX,
    ensures
        abi_decoding(abi_encoding(message)) == Some(message),
{
    let p = abi_encoding(message);
    let n = message.len();
    lemma_be_round_trip(n as u64);
    lemma_offset_word();
    assert(p.subrange(0, 56) =~= zeros(56).update(31, 32u8));
    assert(p.subrange(56, 64) =~= be_bytes(n as u64));
    assert(read_be(p, 56) == read_be(be_bytes(n as u64), 0));
    assert(p.subrange(64 + n as int, p.len() as int) =~= zeros(padding_len(n)));
    assert(p.subrange(64, 64 + n as int) =~= message);
}

/// A payload that decodes is the encoding of what it decodes to: every message has
/// exactly one encoding.
pub proof fn law_decoding_is_exact(payload: Seq<u8>)
    requires
        abi_decoding(payload) is Some,
    ensures
        abi_encoding(abi_decoding(payload)->0) == payload,
{
    let message = abi_decoding(payload)->0;
    let n = read_be(payload, 56) as nat;
    lemma_be_bytes_of_read(payload, 56);
    lemma_offset_word();
    assert(message.len() == n);
    assert(abi_encoding(message) =~= payload) by {
        assert(payload.subrange(0, 56) == zeros(56).update(31, 32u8));
        assert forall|i: int| 0 <= i < payload.len() implies abi_encoding(message)[i] == payload[i] by {
            if i < 32 {
                assert(payload.subrange(0, 56)[i] == payload[i]);
                assert(abi_encoding(message)[i] == word(32)[i]);
            } else if i < 56 {
                assert(payload.subrange(0, 56)[i] == payload[i]);
                assert(abi_encoding(message)[i] == word(n as u64)[i - 32]);
            } else if i < 64 {
                assert(payload.subrange(56, 64)[i - 56] == payload[i]);
            } else if i < 64 + n {
                assert(payload.subrange(64, 64 + n as int)[i - 64] == payload[i]);
            } else {
                assert(payload.subrange(64 + n as int, payload.len() as int)[i - 64 - n] == payload[i]);
            }
        }
    }
}

proof fn lemma_pow256(k: nat)
    requires
        k < 8,
    ensures
        vstd::arithmetic::power::pow(256, k) == (if k == 0 {
            1int
        } else if k == 1 {
            0x100int
        } else if k == 2 {
            0x10000int
        } else if k == 3 {
            0x1000000int
        } else if k == 4 {
            0x100000000int
        } else if k == 5 {
            0x10000000000int
        } else if k == 6 {
            0x1000000000000int
        } else {
            0x100000000000000int
        }),
{
    reveal_with_fuel(vstd::arithmetic::power::pow, 9);
}

proof fn lemma_be_bytes_arithmetic(x: u64)
    ensures
        forall|i: int|
            0 <= i < 8 ==> #[trigger] be_bytes(x)[i] as int == (x as int / vstd::arithmetic::power::pow(
                256,
                (7 - i) as nat,
            )) % 256,
{
    assert((x >> 56u64) as u8 == (x / 0x100000000000000u64) % 256
        && (x >> 48u64) as u8 == (x / 0x1000000000000u64) % 256
        && (x >> 40u64) as u8 == (x / 0x10000000000u64) % 256
        && (x >> 32u64) as u8 == (x / 0x100000000u64) % 256
        && (x >> 24u64) as u8 == (x / 0x1000000u64) % 256
        && (x >> 16u64) as u8 == (x / 0x10000u64) % 256
        && (x >> 8u64) as u8 == (x / 0x100u64) % 256
        && x as u8 == x % 256) by (bit_vector);
    assert forall|i: int| 0 <= i < 8 implies #[trigger] be_bytes(x)[i] as int == (x as int
        / vstd::arithmetic::power::pow(256, (7 - i) as nat)) % 256 by {
        lemma_pow256((7 - i) as nat);
    }
}

/// The layout of an encoding: a first word holding 32, a second word holding the message
/// length in big-endian order, the message itself, then zero bytes up to the next whole
/// 32-byte word.
pub proof fn law_encoding_layout(message: Seq<u8>)
    requires
        message.len() <= u64::MAX,
    ensures
        abi_encoding(message).len() == 64 + 32 * ((message.len() + 31) / 32),
        abi_encoding(message).len() % 32 == 0,
        forall|i: int| 0 <= i < 64 && i != 31 && !(56 <= i < 64) ==> #[trigger] abi_encoding(message)[i] == 0,
        abi_encoding(message)[31] == 32,
        forall|i: int|
            0 <= i < 8 ==> #[trigger] abi_encoding(message)[56 + i] as int == (message.len() as int
                / vstd::arithmetic::power::pow(256, (7 - i) as nat)) % 256,
        forall|i: int| 0 <= i < message.len() ==> #[trigger] abi_encoding(message)[64 + i] == message[i],
        forall|i: int|
            64 + message.len() <= i < abi_encoding(message).len() ==> #[trigger] abi_encoding(message)[i] == 0,
{
    let n = message.len();
    let e = abi_encoding(message);
    lemma_offset_word();
    lemma_be_bytes_arithmetic(n as u64);
    let p = padding_len(n);
    assert(n + p == 32 * ((n + 31) / 32)) by {
        vstd::arithmetic::div_mod::lemma_fundamental_div_mod(n as int, 32);
        vstd::arithmetic::div_mod::lemma_fundamental_div_mod((n + 31) as int, 32);
        vstd::arithmetic::div_mod::lemma_mod_bound(n as int, 32);
        vstd::arithmetic::div_mod::lemma_mod_bound((n + 31) as int, 32);
        let q = n as int / 32;
        let r = n as int % 32;
        if r == 0 {
            vstd::arithmetic::div_mod::lemma_fundamental_div_mod_converse((n + 31) as int, 32, q, 31);
        } else {
            vstd::arithmetic::div_mod::lemma_fundamental_div_mod_converse((n + 31) as int, 32, q + 1, r - 1);
        }
    }
    assert((64 + 32 * ((n + 31) / 32)) % 32 == 0) by {
        vstd::arithmetic::div_mod::lemma_fundamental_div_mod_converse(
            (64 + 32 * ((n + 31) / 32)) as int,
            32,
            (2 + (n + 31) / 32) as int,
            0,
        );
    }
    assert forall|i: int| 0 <= i < 64 && i != 31 && !(56 <= i < 64) implies #[trigger] e[i] == 0 by {
        if i < 32 {
            assert(e[i] == word(32)[i]);
        } else {
            assert(e[i] == word(n as u64)[i - 32]);
        }
    }
    assert forall|i: int| 0 <= i < 8 implies #[trigger] e[56 + i] as int == (n as int
        / vstd::arithmetic::power::pow(256, (7 - i) as nat)) % 256 by {
        assert(e[56 + i] == be_bytes(n as u64)[i]);
    }
    assert forall|i: int| 0 <= i < n implies #[trigger] e[64 + i] == message[i] by {
        assert(e[64 + i] == message[i]);
    }
    assert forall|i: int| 64 + n <= i < e.len() implies #[trigger] e[i] == 0 by {
        assert(e[i] == zeros(p)[i - 64 - n]);
    }
}

/// Appends `n` zero bytes to `out`.
fn push_zeros(out: &mut Vec<u8>, n: usize)
    ensures
        final(out)@ == old(out)@ + zeros(n as nat),
{
    let mut i: usize = 0;
    while i < n
        invariant
            i <= n,
            out@ == old(out)@ + zeros(i as nat),
        decreases n - i,
    {
        out.push(0u8);
        i = i + 1;
        assert(out@ =~= old(out)@ + zeros(i as nat));
    }
}

/// Appends the eight bytes of `x`, most significant first, to `out`.
fn push_be_bytes(out: &mut Vec<u8>, x: u64)
    ensures
        final(out)@ == old(out)@ + be_bytes(x),
{
    out.push((x >> 56u64) as u8);
    out.push((x >> 48u64) as u8);
    out.push((x >> 40u64) as u8);
    out.push((x >> 32u64) as u8);
    out.push((x >> 24u64) as u8);
    out.push((x >> 16u64) as u8);
    out.push((x >> 8u64) as u8);
    out.push(x as u8);
    assert(out@ =~= old(out)@ + be_bytes(x));
}

/// The encoding of `message` for another chain.
pub fn abi_encode(message: &Vec<u8>) -> (r: Vec<u8>)
    ensures
        r@ == abi_encoding(message@),
{
    let mut out: Vec<u8> = Vec::new();
    push_zeros(&mut out, 24);
    push_be_bytes(&mut out, 32);
    let len = message.len();
    push_zeros(&mut out, 24);
    push_be_bytes(&mut out, len as u64);
    let ghost head = out@;
    let mut i: usize = 0;
    while i < len
        invariant
            i <= len == message.len(),
            out@ == head + message@.take(i as int),
        decreases len - i,
    {
        out.push(message[i]);
        i = i + 1;
        assert(out@ =~= head + message@.take(i as int));
    }
    let rem = len % 32;
    let pad = if rem == 0 {
        0
    } else {
        32 - rem
    };
    push_zeros(&mut out, pad);
    assert(message@.take(len as int) =~= message@);
    assert(out@ =~= abi_encoding(message@));
    out
}

/// The message that `payload` encodes, if it is a well-formed encoding.
pub fn abi_decode_string(payload: &Vec<u8>) -> (r: Option<Vec<u8>>)
    ensures
        match r {
            Some(message) => abi_decoding(payload@) == Some(message@),
            None => abi_decoding(payload@) is None,
        },
{
    let len = payload.len();
    if len < 64 {
        return None;
    }
    let ghost header = zeros(56).update(31, 32u8);
    let mut i: usize = 0;
    while i < 56
        invariant
            64 <= len == payload.len(),
            i <= 56,
            header == zeros(56).update(31, 32u8),
            forall|j: int| 0 <= j < i ==> payload@[j] == header[j],
        decreases 56 - i,
    {
        let expected: u8 = if i == 31 {
            32
        } else {
            0
        };
        if payload[i] != expected {
            assert(payload@.subrange(0, 56)[i as int] != header[i as int]);
            return None;
        }
        i = i + 1;
    }
    assert(payload@.subrange(0, 56) =~= header);
    let n: u64 = ((payload[56] as u64) << 56u64) | ((payload[57] as u64) << 48u64) | ((payload[58] as u64)
        << 40u64) | ((payload[59] as u64) << 32u64) | ((payload[60] as u64) << 24u64) | ((payload[61] as u64)
        << 16u64) | ((payload[62] as u64) << 8u64) | (payload[63] as u64);
    assert(n == read_be(payload@, 56));
    let rem = n % 32;
    let pad: u64 = if rem == 0 {
        0
    } else {
        32 - rem
    };
    assert(pad == padding_len(n as nat));
    if len as u128 != 64u128 + n as u128 + pad as u128 {
        return None;
    }
    let end: usize = 64 + n as usize;
    let mut k: usize = end;
    while k < len
        invariant
            end <= k <= len == payload.len(),
            forall|j: int| end <= j < k ==> payload@[j] == 0u8,
            end == 64 + n,
            len == 64 + n + padding_len(n as nat),
            payload@.subrange(0, 56) == zeros(56).update(31, 32u8),
            n == read_be(payload@, 56),
        decreases len - k,
    {
        if payload[k] != 0 {
            assert(payload@.subrange(end as int, len as int)[k - end] != zeros(padding_len(n as nat))[k - end]);
            return None;
        }
        k = k + 1;
    }
    assert(payload@.subrange(end as int, len as int) =~= zeros(padding_len(n as nat)));
    let mut message: Vec<u8> = Vec::new();
    let mut m: usize = 64;
    while m < end
        invariant
            64 <= m <= end <= payload.len(),
            message@ == payload@.subrange(64, m as int),
            end == 64 + n,
            payload.len() == 64 + n + padding_len(n as nat),
            payload@.subrange(0, 56) == zeros(56).update(31, 32u8),
            payload@.subrange(end as int, payload.len() as int) == zeros(padding_len(n as nat)),
            n == read_be(payload@, 56),
        decreases end - m,
    {
        message.push(payload[m]);
        m = m + 1;
        assert(message@ =~= payload@.subrange(64, m as int));
    }
    Some(message)
}

} // verus!
