//! The wire format: interleaved signed 16-bit little-endian samples, with no
//! header and no framing. Captured samples of the integer formats are turned
//! into it here; each sample becomes exactly two bytes.
use vstd::prelude::*;

verus! {

/// The unsigned 16-bit word that holds `v` in two's complement.
pub open spec fn word_of(v: i16) -> int {
    if v < 0 {
        v + 65536
    } else {
        v as int
    }
}

/// Low byte of the wire form of `v`.
pub open spec fn low_byte(v: i16) -> u8 {
    (word_of(v) % 256) as u8
}

/// High byte of the wire form of `v`.
pub open spec fn high_byte(v: i16) -> u8 {
    (word_of(v) / 256) as u8
}

/// The wire bytes of a run of samples: low byte, then high byte, of each sample in turn.
pub open spec fn s16le(samples: Seq<i16>) -> Seq<u8> {
    Seq::new(
        2 * samples.len(),
        |i: int|
            if i % 2 == 0 {
                low_byte(samples[i / 2])
            } else {
                high_byte(samples[i / 2])
            },
    )
}

/// The sample that a pair of wire bytes holds.
pub open spec fn sample_of(lo: u8, hi: u8) -> i16 {
    let w = lo as int + 256 * hi as int;
    if w >= 32768 {
        (w - 65536) as i16
    } else {
        w as i16
    }
}

/// The samples that wire bytes hold; a trailing odd byte holds none.
pub open spec fn samples_of(bytes: Seq<u8>) -> Seq<i16> {
    Seq::new(bytes.len() / 2, |i: int| sample_of(bytes[2 * i], bytes[2 * i + 1]))
}

/// A captured sample type that has a canonical signed 16-bit value.
pub trait WireSample: Copy {
    /// The signed 16-bit value that stands for this sample on the wire.
    spec fn spec_to_s16(self) -> i16;

    /// Computes the signed 16-bit value of this sample.
    fn to_s16(self) -> (r: i16)
        ensures
            r == self.spec_to_s16(),
    ;
}

/// Signed 16-bit samples are already in wire form.
impl WireSample for i16 {
    open spec fn spec_to_s16(self) -> i16 {
        self
    }

    fn to_s16(self) -> (r: i16) {
        self
    }
}

/// Unsigned 16-bit samples are centred on 32768: `u` stands for `u - 32768`.
impl WireSample for u16 {
    open spec fn spec_to_s16(self) -> i16 {
        (self - 32768) as i16
    }

    fn to_s16(self) -> (r: i16) {
        (self as i32 - 32768) as i16
    }
}

/// The signed 16-bit values of a run of samples.
pub open spec fn s16_values<T: WireSample>(data: Seq<T>) -> Seq<i16> {
    data.map_values(|x: T| x.spec_to_s16())
}

/// The two wire bytes of one sample.
fn sample_bytes(v: i16) -> (r: (u8, u8))
    ensures
        r.0 == low_byte(v),
        r.1 == high_byte(v),
{
    let w: u32 = if v < 0 {
        (v as i32 + 65536) as u32
    } else {
        v as u32
    };
    ((w % 256) as u8, (w / 256) as u8)
}

/// Converts captured samples into wire bytes: two little-endian bytes per
/// sample, in order. Signed samples pass through unchanged; unsigned ones are
/// shifted down by 32768. No input is rejected; no input yields no bytes.
pub fn convert_to_s16le<T: WireSample>(data: &[T]) -> (r: Vec<u8>)
    requires
        2 * data@.len() <= usize::MAX,
    ensures
        r@ == s16le(s16_values(data@)),
        r@.len() == 2 * data@.len(),
{
    let n = data.len();
    let mut r: Vec<u8> = Vec::with_capacity(2 * n);
    let ghost values = s16_values(data@);
    let mut i: usize = 0;
    while i < n
        invariant
            n == data@.len(),
            2 * n <= usize::MAX,
            i <= n,
            values == s16_values(data@),
            r@.len() == 2 * i,
            forall|j: int|
                0 <= j < i ==> r@[2 * j] == low_byte(#[trigger] values[j]) && r@[2 * j + 1]
                    == high_byte(values[j]),
        decreases n - i,
    {
        let v = data[i].to_s16();
        let (lo, hi) = sample_bytes(v);
        r.push(lo);
        r.push(hi);
        i = i + 1;
    }
    assert forall|k: int| 0 <= k < r@.len() implies r@[k] == s16le(values)[k] by {
        let j = k / 2;
        assert(0 <= j < n);
        assert(values[j] == values[k / 2]);
        if k % 2 == 0 {
            assert(k == 2 * j);
        } else {
            assert(k == 2 * j + 1);
        }
    }
    assert(r@ =~= s16le(values));
    r
}

/// Reads wire bytes back into samples, two bytes each; a trailing odd byte is
/// left over.
pub fn decode_s16le(bytes: &[u8]) -> (r: Vec<i16>)
    ensures
        r@ == samples_of(bytes@),
{
    let len = bytes.len();
    let n = len / 2;
    let mut r: Vec<i16> = Vec::with_capacity(n);
    let mut i: usize = 0;
    while i < n
        invariant
            len == bytes@.len(),
            n == len / 2,
            2 * n <= len,
            i <= n,
            r@.len() == i,
            forall|j: int|
                0 <= j < i ==> #[trigger] r@[j] == sample_of(bytes@[2 * j], bytes@[2 * j + 1]),
        decreases n - i,
    {
        let lo = bytes[2 * i];
        let hi = bytes[2 * i + 1];
        let w: u32 = lo as u32 + 256 * hi as u32;
        let v: i16 = if w >= 32768 {
            (w as i32 - 65536) as i16
        } else {
            w as i16
        };
        r.push(v);
        i = i + 1;
    }
    assert(r@ =~= samples_of(bytes@));
    r
}

/// The wire form is lossless: decoding the bytes of any run of signed samples
/// gives back the same samples, so signed input passes through unchanged.
pub proof fn lemma_wire_round_trip(samples: Seq<i16>)
    ensures
        samples_of(s16le(samples)) == samples,
{
    let bytes = s16le(samples);
    assert forall|i: int| 0 <= i < samples.len() implies #[trigger] samples_of(bytes)[i]
        == samples[i] by {
        assert(bytes[2 * i] == low_byte(samples[i])) by {
            assert((2 * i) / 2 == i);
            assert((2 * i) % 2 == 0);
        }
        assert(bytes[2 * i + 1] == high_byte(samples[i])) by {
            assert((2 * i + 1) / 2 == i);
            assert((2 * i + 1) % 2 == 1);
        }
        let w = word_of(samples[i]);
        assert(0 <= w < 65536);
        assert((w % 256) + 256 * (w / 256) == w);
    }
    assert(samples_of(bytes).len() == samples.len());
    assert(samples_of(bytes) =~= samples);
}

/// Signed input passes through unchanged: its wire values are the samples
/// themselves, so the bytes are each sample's own little-endian bytes and
/// decode back to the input.
pub proof fn lemma_signed_pass_through(data: Seq<i16>)
    ensures
        s16_values(data) == data,
        samples_of(s16le(s16_values(data))) == data,
{
    assert(s16_values(data) =~= data);
    lemma_wire_round_trip(data);
}

/// Each unsigned sample `u` travels as the signed value `u - 32768`: 0 becomes
/// -32768, 32768 becomes 0 and 65535 becomes 32767, and nothing wraps.
pub proof fn lemma_unsigned_offset(data: Seq<u16>)
    ensures
        forall|i: int|
            0 <= i < data.len() ==> #[trigger] samples_of(s16le(s16_values(data)))[i] as int
                == data[i] as int - 32768,
{
    lemma_wire_round_trip(s16_values(data));
}

} // verus!
