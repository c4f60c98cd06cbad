//! Streaming SHA-256 (FIPS 180-4), used to fingerprint uploaded content.
//!
//! The hasher's view is the sequence of bytes fed to it so far; `finalize`
//! returns the digest of exactly that sequence, however it was split across
//! calls to `update`.

use vstd::prelude::*;

verus! {

// ---------------------------------------------------------------------------
// Word-level functions
// ---------------------------------------------------------------------------

pub open spec fn rotr(x: u32, n: u32) -> u32 {
    (x >> n) | (x << ((32 - n) as u32))
}

pub open spec fn big_sigma0(x: u32) -> u32 {
    rotr(x, 2) ^ rotr(x, 13) ^ rotr(x, 22)
}

pub open spec fn big_sigma1(x: u32) -> u32 {
    rotr(x, 6) ^ rotr(x, 11) ^ rotr(x, 25)
}

pub open spec fn small_sigma0(x: u32) -> u32 {
    rotr(x, 7) ^ rotr(x, 18) ^ (x >> 3)
}

pub open spec fn small_sigma1(x: u32) -> u32 {
    rotr(x, 17) ^ rotr(x, 19) ^ (x >> 10)
}

pub open spec fn choose_bits(e: u32, f: u32, g: u32) -> u32 {
    (e & f) ^ ((!e) & g)
}

pub open spec fn majority(a: u32, b: u32, c: u32) -> u32 {
    (a & b) ^ (a & c) ^ (b & c)
}

/// The big-endian word made of `b[j..j + 4]`.
pub open spec fn be_word(b: Seq<u8>, j: int) -> u32 {
    ((b[j] as u32) << 24u32) | ((b[j + 1] as u32) << 16u32) | ((b[j + 2] as u32) << 8u32) | (
    b[j + 3] as u32)
}

/// Byte `j` (0 = most significant) of a word.
pub open spec fn word_byte(w: u32, j: int) -> u8 {
    if j == 0 {
        (w >> 24u32) as u8
    } else if j == 1 {
        (w >> 16u32) as u8
    } else if j == 2 {
        (w >> 8u32) as u8
    } else {
        w as u8
    }
}

/// The eight bytes of a 64-bit value, most significant first.
pub open spec fn be64(x: u64) -> Seq<u8> {
    seq![
        (x >> 56u64) as u8,
        (x >> 48u64) as u8,
        (x >> 40u64) as u8,
        (x >> 32u64) as u8,
        (x >> 24u64) as u8,
        (x >> 16u64) as u8,
        (x >> 8u64) as u8,
        x as u8,
    ]
}

pub open spec fn initial_state() -> Seq<u32> {
    seq![
        0x6a09e667u32,
        0xbb67ae85u32,
        0x3c6ef372u32,
        0xa54ff53au32,
        0x510e527fu32,
        0x9b05688cu32,
        0x1f83d9abu32,
        0x5be0cd19u32,
    ]
}

pub open spec fn round_constants() -> Seq<u32> {
    seq![
        0x428a2f98u32, 0x71374491u32, 0xb5c0fbcfu32, 0xe9b5dba5u32,
        0x3956c25bu32, 0x59f111f1u32, 0x923f82a4u32, 0xab1c5ed5u32,
        0xd807aa98u32, 0x12835b01u32, 0x243185beu32, 0x550c7dc3u32,
        0x72be5d74u32, 0x80deb1feu32, 0x9bdc06a7u32, 0xc19bf174u32,
        0xe49b69c1u32, 0xefbe4786u32, 0x0fc19dc6u32, 0x240ca1ccu32,
        0x2de92c6fu32, 0x4a7484aau32, 0x5cb0a9dcu32, 0x76f988dau32,
        0x983e5152u32, 0xa831c66du32, 0xb00327c8u32, 0xbf597fc7u32,
        0xc6e00bf3u32, 0xd5a79147u32, 0x06ca6351u32, 0x14292967u32,
        0x27b70a85u32, 0x2e1b2138u32, 0x4d2c6dfcu32, 0x53380d13u32,
        0x650a7354u32, 0x766a0abbu32, 0x81c2c92eu32, 0x92722c85u32,
        0xa2bfe8a1u32, 0xa81a664bu32, 0xc24b8b70u32, 0xc76c51a3u32,
        0xd192e819u32, 0xd6990624u32, 0xf40e3585u32, 0x106aa070u32,
        0x19a4c116u32, 0x1e376c08u32, 0x2748774cu32, 0x34b0bcb5u32,
        0x391c0cb3u32, 0x4ed8aa4au32, 0x5b9cca4fu32, 0x682e6ff3u32,
        0x748f82eeu32, 0x78a5636fu32, 0x84c87814u32, 0x8cc70208u32,
        0x90befffau32, 0xa4506cebu32, 0xbef9a3f7u32, 0xc67178f2u32,
    ]
}

// ---------------------------------------------------------------------------
// The compression function
// ---------------------------------------------------------------------------

/// Word `i` of the message schedule of a 64-byte block.
pub open spec fn schedule(block: Seq<u8>, i: nat) -> u32
    decreases i,
{
    if i < 16 {
        be_word(block, 4 * (i as int))
    } else {
        schedule(block, (i - 16) as nat).wrapping_add(
            small_sigma0(schedule(block, (i - 15) as nat)),
        ).wrapping_add(schedule(block, (i - 7) as nat)).wrapping_add(
            small_sigma1(schedule(block, (i - 2) as nat)),
        )
    }
}

/// One round applied to the working variables `v = [a, b, c, d, e, f, g, h]`.
pub open spec fn round(v: Seq<u32>, k: u32, w: u32) -> Seq<u32> {
    let t1 = v[7].wrapping_add(big_sigma1(v[4])).wrapping_add(choose_bits(v[4], v[5], v[6])).wrapping_add(
        k,
    ).wrapping_add(w);
    let t2 = big_sigma0(v[0]).wrapping_add(majority(v[0], v[1], v[2]));
    seq![t1.wrapping_add(t2), v[0], v[1], v[2], v[3].wrapping_add(t1), v[4], v[5], v[6]]
}

/// The working variables after the first `n` rounds.
pub open spec fn rounds(h: Seq<u32>, block: Seq<u8>, n: nat) -> Seq<u32>
    decreases n,
{
    if n == 0 {
        h
    } else {
        let m = (n - 1) as nat;
        round(rounds(h, block, m), round_constants()[m as int], schedule(block, m))
    }
}

/// The chaining state after compressing one block into `h`.
pub open spec fn compress_spec(h: Seq<u32>, block: Seq<u8>) -> Seq<u32> {
    let v = rounds(h, block, 64);
    Seq::new(8, |j: int| h[j].wrapping_add(v[j]))
}

/// The chaining state after the first `n` 64-byte blocks of `data`.
pub open spec fn state_after(data: Seq<u8>, n: nat) -> Seq<u32>
    decreases n,
{
    if n == 0 {
        initial_state()
    } else {
        let m = (n - 1) as nat;
        compress_spec(state_after(data, m), data.subrange(64 * (m as int), 64 * (n as int)))
    }
}

// ---------------------------------------------------------------------------
// The digest
// ---------------------------------------------------------------------------

/// How many zero bytes follow the `0x80` marker so that the length field ends
/// a block.
pub open spec fn zero_pad_len(len: nat) -> nat {
    let r = (len + 1) % 64;
    if r <= 56 {
        (56 - r) as nat
    } else {
        (120 - r) as nat
    }
}

pub open spec fn zero_bytes_spec(n: nat) -> Seq<u8> {
    Seq::new(n, |i: int| 0u8)
}

/// The message length in bits, as the 64-bit counter holds it.
pub open spec fn bit_length(len: nat) -> u64 {
    ((len % 0x1_0000_0000_0000_0000) as u64).wrapping_mul(8)
}

/// `data` followed by the padding and the length field.
pub open spec fn padded(data: Seq<u8>) -> Seq<u8> {
    data + seq![0x80u8] + zero_bytes_spec(zero_pad_len(data.len())) + be64(bit_length(data.len()))
}

/// The 32 bytes of a chaining state, each word most significant byte first.
pub open spec fn digest_bytes(st: Seq<u32>) -> Seq<u8> {
    Seq::new(32, |i: int| word_byte(st[i / 4], i % 4))
}

/// The SHA-256 digest of `data`.
pub open spec fn sha256_spec(data: Seq<u8>) -> Seq<u8> {
    let p = padded(data);
    digest_bytes(state_after(p, p.len() / 64))
}

/// The lower-case hexadecimal digit for a value below 16.
pub open spec fn hex_digit(v: u8) -> char {
    if v < 10 {
        ((48 + v) as u32) as char
    } else {
        ((87 + v) as u32) as char
    }
}

/// Two lower-case hexadecimal digits per byte, high nibble first.
pub open spec fn hex_lower(bytes: Seq<u8>) -> Seq<char> {
    Seq::new(
        2 * bytes.len(),
        |i: int|
            if i % 2 == 0 {
                hex_digit(bytes[i / 2] / 16)
            } else {
                hex_digit(bytes[i / 2] % 16)
            },
    )
}

// ---------------------------------------------------------------------------
// Lemmas
// ---------------------------------------------------------------------------

/// The state after `n` blocks depends only on the first `n` blocks.
proof fn lemma_state_after_prefix(d1: Seq<u8>, d2: Seq<u8>, n: nat)
    requires
        64 * (n as int) <= d1.len(),
        64 * (n as int) <= d2.len(),
        d1.take(64 * (n as int)) == d2.take(64 * (n as int)),
    ensures
        state_after(d1, n) == state_after(d2, n),
    decreases n,
{
    if n > 0 {
        let m = (n - 1) as nat;
        assert(d1.take(64 * (m as int)) =~= d1.take(64 * (n as int)).take(64 * (m as int)));
        assert(d2.take(64 * (m as int)) =~= d2.take(64 * (n as int)).take(64 * (m as int)));
        lemma_state_after_prefix(d1, d2, m);
        assert(d1.subrange(64 * (m as int), 64 * (n as int)) =~= d1.take(64 * (n as int)).subrange(64 * (m as int), 64 * (n as int)));
        assert(d2.subrange(64 * (m as int), 64 * (n as int)) =~= d2.take(64 * (n as int)).subrange(64 * (m as int), 64 * (n as int)));
    }
}

// ---------------------------------------------------------------------------
// Executable word functions
// ---------------------------------------------------------------------------

fn rotr_exec(x: u32, n: u32) -> (r: u32)
    requires
        0 < n < 32,
    ensures
        r == rotr(x, n),
{
    (x >> n) | (x << (32 - n))
}

fn big_sigma0_exec(x: u32) -> (r: u32)
    ensures
        r == big_sigma0(x),
{
    rotr_exec(x, 2) ^ rotr_exec(x, 13) ^ rotr_exec(x, 22)
}

fn big_sigma1_exec(x: u32) -> (r: u32)
    ensures
        r == big_sigma1(x),
{
    rotr_exec(x, 6) ^ rotr_exec(x, 11) ^ rotr_exec(x, 25)
}

fn small_sigma0_exec(x: u32) -> (r: u32)
    ensures
        r == small_sigma0(x),
{
    rotr_exec(x, 7) ^ rotr_exec(x, 18) ^ (x >> 3)
}

fn small_sigma1_exec(x: u32) -> (r: u32)
    ensures
        r == small_sigma1(x),
{
    rotr_exec(x, 17) ^ rotr_exec(x, 19) ^ (x >> 10)
}

/// `n` zero bytes.
fn zero_bytes(n: usize) -> (r: Vec<u8>)
    ensures
        r@ == zero_bytes_spec(n as nat),
{
    let mut v: Vec<u8> = Vec::new();
    let mut i: usize = 0;
    while i < n
        invariant
            i <= n,
            v@ == zero_bytes_spec(i as nat),
        decreases n - i,
    {
        v.push(0u8);
        i = i + 1;
        proof {
            assert(v@ =~= zero_bytes_spec(i as nat));
        }
    }
    v
}

/// The eight bytes of `x`, most significant first.
fn be64_exec(x: u64) -> (r: Vec<u8>)
    ensures
        r@ == be64(x),
{
    let mut v: Vec<u8> = Vec::new();
    v.push((x >> 56u64) as u8);
    v.push((x >> 48u64) as u8);
    v.push((x >> 40u64) as u8);
    v.push((x >> 32u64) as u8);
    v.push((x >> 24u64) as u8);
    v.push((x >> 16u64) as u8);
    v.push((x >> 8u64) as u8);
    v.push(x as u8);
    proof {
        assert(v@ =~= be64(x));
    }
    v
}

fn hex_digit_exec(v: u8) -> (c: char)
    requires
        v < 16,
    ensures
        c == hex_digit(v),
{
    if v < 10 {
        (48u8 + v) as char
    } else {
        (87u8 + v) as char
    }
}

/// Lower-case hexadecimal text of a byte string.
pub fn hex_lower_exec(bytes: &[u8]) -> (r: Vec<char>)
    ensures
        r@ == hex_lower(bytes@),
{
    let mut out: Vec<char> = Vec::new();
    let mut i: usize = 0;
    while i < bytes.len()
        invariant
            i <= bytes.len(),
            out@ == hex_lower(bytes@.take(i as int)),
        decreases bytes.len() - i,
    {
        let b = bytes[i];
        let hi = b / 16;
        let lo = b % 16;
        out.push(hex_digit_exec(hi));
        out.push(hex_digit_exec(lo));
        i = i + 1;
        proof {
            let t = bytes@.take(i as int);
            assert(out@ =~= hex_lower(t)) by {
                assert forall|j: int| 0 <= j < 2 * i implies #[trigger] out@[j] == hex_lower(t)[j] by {
                    if j < 2 * (i - 1) {
                        assert(t[j / 2] == bytes@.take(i - 1)[j / 2]);
                    }
                }
            }
        }
    }
    proof {
        assert(bytes@.take(bytes.len() as int) =~= bytes@);
    }
    out
}

// ---------------------------------------------------------------------------
// The hasher
// ---------------------------------------------------------------------------

/// The chaining state, block buffer and byte counter of a SHA-256 computation.
pub struct Sha256 {
    state: [u32; 8],
    buffer: [u8; 64],
    buffer_len: usize,
    len_bytes: u64,
    fed: Ghost<Seq<u8>>,
}

/// How the hasher's fields stand to the bytes fed so far.
pub open spec fn hasher_consistent(
    state: Seq<u32>,
    buffer: Seq<u8>,
    buffer_len: nat,
    fed: Seq<u8>,
) -> bool {
    let n: int = (fed.len() / 64) as int;
    &&& buffer.len() == 64
    &&& buffer_len == fed.len() % 64
    &&& state == state_after(fed, n as nat)
    &&& forall|i: int| 0 <= i < buffer_len ==> #[trigger] buffer[i] == fed[64 * n + i]
}

impl View for Sha256 {
    type V = Seq<u8>;

    closed spec fn view(&self) -> Seq<u8> {
        self.fed@
    }
}

impl Sha256 {
    /// The hasher's fields agree with the bytes it has been fed.
    pub closed spec fn wf(&self) -> bool {
        &&& hasher_consistent(self.state@, self.buffer@, self.buffer_len as nat, self.fed@)
        &&& self.len_bytes as int == self.fed@.len() % 0x1_0000_0000_0000_0000
    }

    pub fn new() -> (h: Self)
        ensures
            h.wf(),
            h@ == Seq::<u8>::empty(),
    {
        let state: [u32; 8] = [
            0x6a09e667,
            0xbb67ae85,
            0x3c6ef372,
            0xa54ff53a,
            0x510e527f,
            0x9b05688c,
            0x1f83d9ab,
            0x5be0cd19,
        ];
        let h = Sha256 {
            state,
            buffer: [0u8; 64],
            buffer_len: 0,
            len_bytes: 0,
            fed: Ghost(Seq::empty()),
        };
        proof {
            assert(h.state@ =~= initial_state());
        }
        h
    }

    /// Feeds more bytes to the hasher.
    pub fn update(&mut self, data: &[u8])
        requires
            old(self).wf(),
        ensures
            final(self).wf(),
            final(self)@ == old(self)@ + data@,
    {
        let ghost d0 = self.fed@;
        proof {
            lemma_wrapping_len(self.len_bytes, d0.len(), data.len() as nat);
        }
        self.len_bytes = self.len_bytes.wrapping_add(data.len() as u64);
        let mut pos: usize = 0;
        proof {
            assert(d0 + data@.take(0) =~= d0);
        }
        while pos < data.len()
            invariant
                pos <= data.len(),
                self.fed@ == d0 + data@.take(pos as int),
                self.len_bytes as int == (d0.len() + data@.len()) % 0x1_0000_0000_0000_0000,
                hasher_consistent(self.state@, self.buffer@, self.buffer_len as nat, self.fed@),
            decreases data.len() - pos,
        {
            let ghost dd = self.fed@;
            let ghost n: int = (dd.len() / 64) as int;
            let free = 64 - self.buffer_len;
            let take = if free < data.len() - pos {
                free
            } else {
                data.len() - pos
            };
            let at = self.buffer_len;
            let ghost st = self.state;
            let ghost lb = self.len_bytes;
            let mut k: usize = 0;
            while k < take
                invariant
                    k <= take,
                    self.state == st,
                    self.len_bytes == lb,
                    self.fed@ == dd,
                    self.buffer_len == at,
                    at + take <= 64,
                    pos + take <= data.len(),
                    self.buffer@.len() == 64,
                    forall|i: int| 0 <= i < at ==> #[trigger] self.buffer@[i] == dd[64 * n + i],
                    forall|i: int|
                        at <= i < at + k ==> #[trigger] self.buffer@[i] == data@[pos + i - at],
                decreases take - k,
            {
                self.buffer[at + k] = data[pos + k];
                k = k + 1;
            }
            self.buffer_len = at + take;
            pos = pos + take;
            self.fed = Ghost(d0 + data@.take(pos as int));
            proof {
                let d1 = self.fed@;
                assert(d1 =~= dd + data@.subrange(pos - take, pos as int));
                assert(d1.len() == dd.len() + take);
                assert(forall|i: int| 0 <= i < dd.len() ==> d1[i] == dd[i]);
                assert(d1.take(64 * n) =~= dd.take(64 * n));
                lemma_state_after_prefix(d1, dd, n as nat);
                assert forall|i: int| 0 <= i < self.buffer_len implies #[trigger] self.buffer@[i]
                    == d1[64 * n + i] by {
                    if i < at {
                    } else {
                        assert(d1[64 * n + i] == data@[pos - take + i - at]);
                    }
                }
            }
            if self.buffer_len == 64 {
                let block = self.buffer;
                self.compress(&block);
                self.buffer_len = 0;
                proof {
                    let d1 = self.fed@;
                    assert(d1.len() == 64 * (n + 1));
                    assert(d1.subrange(64 * n, 64 * (n + 1)) =~= block@);
                    assert(state_after(d1, (n + 1) as nat) == compress_spec(
                        state_after(d1, n as nat),
                        d1.subrange(64 * n, 64 * (n + 1)),
                    ));
                }
            } else {
                proof {
                    let d1 = self.fed@;
                    assert(d1.len() / 64 == n);
                }
            }
        }
        proof {
            assert(data@.take(data.len() as int) =~= data@);
        }
    }

    /// The digest of the bytes fed so far.
    pub fn finalize(self) -> (digest: [u8; 32])
        requires
            self.wf(),
        ensures
            digest@ == sha256_spec(self@),
    {
        let ghost d = self@;
        let mut me = self;
        let bit_len = me.len_bytes.wrapping_mul(8);
        proof {
            assert(bit_len == bit_length(d.len()));
        }
        let mut marker: Vec<u8> = Vec::new();
        marker.push(0x80u8);
        me.update(marker.as_slice());
        let ghost zpl = zero_pad_len(d.len());
        let ghost start = me.buffer_len;
        let ghost mut added: nat = 0;
        proof {
            assert(me.fed@ =~= d + seq![0x80u8] + zero_bytes_spec(0));
        }
        while me.buffer_len != 56
            invariant
                me.wf(),
                start == (d.len() + 1) % 64,
                zpl == zero_pad_len(d.len()),
                me.fed@ == d + seq![0x80u8] + zero_bytes_spec(added),
                me.buffer_len == (d.len() + 1 + added) % 64,
                added == 0 || (start > 56 && added == 64 - start) || added == zpl,
                added <= zpl,
            decreases zpl - added,
        {
            let need: usize = if me.buffer_len > 56 {
                64 - me.buffer_len
            } else {
                56 - me.buffer_len
            };
            let z = zero_bytes(need);
            me.update(z.as_slice());
            proof {
                assert(d + seq![0x80u8] + zero_bytes_spec(added) + zero_bytes_spec(need as nat)
                    =~= d + seq![0x80u8] + (zero_bytes_spec(added) + zero_bytes_spec(need as nat)));
                assert(zero_bytes_spec(added) + zero_bytes_spec(need as nat) =~= zero_bytes_spec(
                    (added + need) as nat,
                ));
                added = (added + need) as nat;
            }
        }
        proof {
            assert(added == zpl);
        }
        let len_field = be64_exec(bit_len);
        me.update(len_field.as_slice());
        proof {
            assert(me.fed@ =~= padded(d));
            assert(me.buffer_len == 0);
        }
        let mut out = [0u8; 32];
        let mut i: usize = 0;
        while i < 8
            invariant
                i <= 8,
                me.state@.len() == 8,
                forall|j: int| 0 <= j < 4 * i ==> #[trigger] out@[j] == digest_bytes(me.state@)[j],
            decreases 8 - i,
        {
            let w = me.state[i];
            out[4 * i] = (w >> 24u32) as u8;
            out[4 * i + 1] = (w >> 16u32) as u8;
            out[4 * i + 2] = (w >> 8u32) as u8;
            out[4 * i + 3] = w as u8;
            i = i + 1;
        }
        proof {
            assert(out@ =~= digest_bytes(me.state@));
        }
        out
    }

    /// The digest of the bytes fed so far, as 64 lower-case hexadecimal
    /// digits.
    pub fn finalize_hex(self) -> (s: String)
        requires
            self.wf(),
        ensures
            s@ == hex_lower(sha256_spec(self@)),
    {
        let digest = self.finalize();
        let hex = hex_lower_exec(digest.as_slice());
        crate::text::string_of(hex.as_slice())
    }

    /// Compresses one block into the chaining state.
    fn compress(&mut self, block: &[u8; 64])
        ensures
            final(self).state@ == compress_spec(old(self).state@, block@),
            final(self).buffer == old(self).buffer,
            final(self).buffer_len == old(self).buffer_len,
            final(self).len_bytes == old(self).len_bytes,
            final(self).fed == old(self).fed,
    {
        let k: [u32; 64] = [
            0x428a2f98, 0x71374491, 0xb5c0fbcf, 0xe9b5dba5,
            0x3956c25b, 0x59f111f1, 0x923f82a4, 0xab1c5ed5,
            0xd807aa98, 0x12835b01, 0x243185be, 0x550c7dc3,
            0x72be5d74, 0x80deb1fe, 0x9bdc06a7, 0xc19bf174,
            0xe49b69c1, 0xefbe4786, 0x0fc19dc6, 0x240ca1cc,
            0x2de92c6f, 0x4a7484aa, 0x5cb0a9dc, 0x76f988da,
            0x983e5152, 0xa831c66d, 0xb00327c8, 0xbf597fc7,
            0xc6e00bf3, 0xd5a79147, 0x06ca6351, 0x14292967,
            0x27b70a85, 0x2e1b2138, 0x4d2c6dfc, 0x53380d13,
            0x650a7354, 0x766a0abb, 0x81c2c92e, 0x92722c85,
            0xa2bfe8a1, 0xa81a664b, 0xc24b8b70, 0xc76c51a3,
            0xd192e819, 0xd6990624, 0xf40e3585, 0x106aa070,
            0x19a4c116, 0x1e376c08, 0x2748774c, 0x34b0bcb5,
            0x391c0cb3, 0x4ed8aa4a, 0x5b9cca4f, 0x682e6ff3,
            0x748f82ee, 0x78a5636f, 0x84c87814, 0x8cc70208,
            0x90befffa, 0xa4506ceb, 0xbef9a3f7, 0xc67178f2,
        ];
        proof {
            assert(k@ =~= round_constants());
        }
        let mut w = [0u32; 64];
        let mut i: usize = 0;
        while i < 16
            invariant
                i <= 16,
                forall|j: int| 0 <= j < i ==> #[trigger] w@[j] == schedule(block@, j as nat),
            decreases 16 - i,
        {
            let j = i * 4;
            w[i] = ((block[j] as u32) << 24u32) | ((block[j + 1] as u32) << 16u32) | ((block[j
                + 2] as u32) << 8u32) | (block[j + 3] as u32);
            i = i + 1;
        }
        while i < 64
            invariant
                16 <= i <= 64,
                forall|j: int| 0 <= j < i ==> #[trigger] w@[j] == schedule(block@, j as nat),
            decreases 64 - i,
        {
            let s0 = small_sigma0_exec(w[i - 15]);
            let s1 = small_sigma1_exec(w[i - 2]);
            w[i] = w[i - 16].wrapping_add(s0).wrapping_add(w[i - 7]).wrapping_add(s1);
            proof {
                assert(w@[i - 15] == schedule(block@, (i - 15) as nat));
                assert(w@[i - 2] == schedule(block@, (i - 2) as nat));
                assert(w@[i - 16] == schedule(block@, (i - 16) as nat));
                assert(w@[i - 7] == schedule(block@, (i - 7) as nat));
            }
            i = i + 1;
        }
        let mut a = self.state[0];
        let mut b = self.state[1];
        let mut c = self.state[2];
        let mut d = self.state[3];
        let mut e = self.state[4];
        let mut f = self.state[5];
        let mut g = self.state[6];
        let mut h = self.state[7];
        let ghost h0 = self.state@;
        proof {
            assert(seq![a, b, c, d, e, f, g, h] =~= rounds(h0, block@, 0));
        }
        let mut r: usize = 0;
        while r < 64
            invariant
                r <= 64,
                h0 == self.state@,
                k@ == round_constants(),
                forall|j: int| 0 <= j < 64 ==> #[trigger] w@[j] == schedule(block@, j as nat),
                seq![a, b, c, d, e, f, g, h] == rounds(h0, block@, r as nat),
            decreases 64 - r,
        {
            let s1 = big_sigma1_exec(e);
            let ch = (e & f) ^ ((!e) & g);
            let temp1 = h.wrapping_add(s1).wrapping_add(ch).wrapping_add(k[r]).wrapping_add(w[r]);
            let s0 = big_sigma0_exec(a);
            let maj = (a & b) ^ (a & c) ^ (b & c);
            let temp2 = s0.wrapping_add(maj);
            proof {
                let v = seq![a, b, c, d, e, f, g, h];
                assert(v[4] == e && v[5] == f && v[6] == g && v[7] == h);
                assert(v[0] == a && v[1] == b && v[2] == c && v[3] == d);
                assert(w@[r as int] == schedule(block@, r as nat));
            }
            h = g;
            g = f;
            f = e;
            e = d.wrapping_add(temp1);
            d = c;
            c = b;
            b = a;
            a = temp1.wrapping_add(temp2);
            r = r + 1;
            proof {
                assert(seq![a, b, c, d, e, f, g, h] =~= rounds(h0, block@, r as nat));
            }
        }
        let ghost v = rounds(h0, block@, 64);
        proof {
            assert(seq![a, b, c, d, e, f, g, h] == v);
            assert(v[0] == a && v[1] == b && v[2] == c && v[3] == d);
            assert(v[4] == e && v[5] == f && v[6] == g && v[7] == h);
        }
        self.state[0] = self.state[0].wrapping_add(a);
        self.state[1] = self.state[1].wrapping_add(b);
        self.state[2] = self.state[2].wrapping_add(c);
        self.state[3] = self.state[3].wrapping_add(d);
        self.state[4] = self.state[4].wrapping_add(e);
        self.state[5] = self.state[5].wrapping_add(f);
        self.state[6] = self.state[6].wrapping_add(g);
        self.state[7] = self.state[7].wrapping_add(h);
        proof {
            assert(self.state@ =~= compress_spec(h0, block@));
        }
    }
}

proof fn lemma_wrapping_len(cur: u64, fed_len: nat, extra: nat)
    requires
        cur as int == fed_len % 0x1_0000_0000_0000_0000,
        extra <= usize::MAX,
    ensures
        cur.wrapping_add(extra as u64) as int == (fed_len + extra) % 0x1_0000_0000_0000_0000,
{
}

} // verus!
