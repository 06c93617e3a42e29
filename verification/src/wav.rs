//! Decoding of 16-bit PCM WAV containers from raw bytes.

use vstd::prelude::*;

verus! {

/// Why a byte buffer could not be decoded as a usable WAV container.
#[derive(Clone, Copy, Debug, PartialEq, Eq, Structural)]
pub enum WavError {
    /// The buffer does not begin with a `RIFF`/`WAVE` header.
    NotRiffWave,
    /// No `fmt ` chunk appears before the `data` chunk.
    MissingFormat,
    /// The `fmt ` chunk is too small to hold the fields this decoder reads.
    TruncatedFormat,
    /// The encoding is not integer PCM, or the sample width is not 16 bits.
    UnsupportedEncoding,
    /// The declared sample rate is zero.
    ZeroSampleRate,
    /// The chunk list ends without a `data` chunk.
    MissingData,
}

/// A decoded signal: raw 16-bit PCM samples and the container's sample rate.
#[derive(Debug, PartialEq, Eq)]
pub struct AudioSignal {
    pub samples: Vec<i16>,
    pub sample_rate: u32,
}

impl AudioSignal {
    /// The container invariant: a decoded signal always has a positive rate.
    pub open spec fn wf(self) -> bool {
        self.sample_rate > 0
    }
}

/// The value of the two bytes at `i`, read little-endian, in `0 .. 65536`.
pub open spec fn u16_le(b: Seq<u8>, i: int) -> int {
    b[i] + 256 * b[i + 1]
}

/// The value of the four bytes at `i`, read little-endian, in `0 .. 2^32`.
pub open spec fn u32_le(b: Seq<u8>, i: int) -> int {
    b[i] + 256 * b[i + 1] + 65536 * b[i + 2] + 16777216 * b[i + 3]
}

/// The two bytes at `i` as a signed 16-bit sample, in `-32768 .. 32768`.
pub open spec fn i16_le(b: Seq<u8>, i: int) -> int {
    if u16_le(b, i) >= 32768 {
        u16_le(b, i) - 65536
    } else {
        u16_le(b, i)
    }
}

/// The four bytes at `i` spell the given chunk identifier.
pub open spec fn id_at(b: Seq<u8>, i: int, c0: u8, c1: u8, c2: u8, c3: u8) -> bool {
    b[i] == c0 && b[i + 1] == c1 && b[i + 2] == c2 && b[i + 3] == c3
}

/// The buffer opens with a `RIFF` header whose form type is `WAVE`.
pub open spec fn is_riff_wave(b: Seq<u8>) -> bool {
    b.len() >= 12 && id_at(b, 0, 82, 73, 70, 70) && id_at(b, 8, 87, 65, 86, 69)
}

/// What walking the chunk list yields.
pub enum ChunkScan {
    /// A `data` chunk was reached with a `fmt ` chunk before it: the offset
    /// and declared size of the format body, then of the data body.
    Found { fmt_off: int, fmt_len: int, data_off: int, data_len: int },
    /// The chunk list ended (or ran off the buffer) without a `data` chunk.
    NoData,
    /// A `data` chunk was reached but no `fmt ` chunk precedes it.
    DataBeforeFormat,
}

/// Walks the RIFF chunk list from byte offset `pos`, carrying the offset and
/// declared size of the most recent `fmt ` chunk body, until the first `data`
/// chunk. A chunk whose declared body (padded to even length) would leave no
/// room for a further chunk header ends the walk.
pub open spec fn scan_chunks(b: Seq<u8>, pos: int, fmt: Option<(int, int)>) -> ChunkScan
    decreases b.len() - pos,
{
    if pos < 0 || pos + 8 > b.len() {
        ChunkScan::NoData
    } else {
        let size = u32_le(b, pos + 4);
        if id_at(b, pos, 100, 97, 116, 97) {
            match fmt {
                Option::Some((f, l)) => ChunkScan::Found {
                    fmt_off: f,
                    fmt_len: l,
                    data_off: pos + 8,
                    data_len: size,
                },
                Option::None => ChunkScan::DataBeforeFormat,
            }
        } else {
            let next_fmt = if id_at(b, pos, 102, 109, 116, 32) {
                Option::Some((pos + 8, size))
            } else {
                fmt
            };
            let next = pos + 8 + size + size % 2;
            if next + 8 > b.len() {
                ChunkScan::NoData
            } else {
                scan_chunks(b, next, next_fmt)
            }
        }
    }
}

/// The samples carried by a data body of declared size `dl` at offset `d`:
/// every complete little-endian pair inside the buffer is one sample, and a
/// trailing half-present sample is read as silence.
pub open spec fn data_samples(b: Seq<u8>, d: int, dl: int) -> Seq<i16> {
    let avail = if dl <= b.len() - d { dl } else { b.len() - d };
    Seq::new(
        (if avail >= 0 { (avail + 1) / 2 } else { 0 }) as nat,
        |k: int| if 2 * k + 1 < avail { i16_le(b, d + 2 * k) as i16 } else { 0i16 },
    )
}

/// The whole decoding, as a value: either the sample rate and sample sequence
/// a buffer denotes, or the reason it denotes none.
pub open spec fn spec_decode(b: Seq<u8>) -> Result<(u32, Seq<i16>), WavError> {
    if !is_riff_wave(b) {
        Result::Err(WavError::NotRiffWave)
    } else {
        match scan_chunks(b, 12, Option::None) {
            ChunkScan::NoData => Result::Err(WavError::MissingData),
            ChunkScan::DataBeforeFormat => Result::Err(WavError::MissingFormat),
            ChunkScan::Found { fmt_off, fmt_len, data_off, data_len } => {
                if fmt_len < 16 {
                    Result::Err(WavError::TruncatedFormat)
                } else if u16_le(b, fmt_off) != 1 || u16_le(b, fmt_off + 14) != 16 {
                    Result::Err(WavError::UnsupportedEncoding)
                } else if u32_le(b, fmt_off + 4) == 0 {
                    Result::Err(WavError::ZeroSampleRate)
                } else {
                    Result::Ok((u32_le(b, fmt_off + 4) as u32, data_samples(b, data_off, data_len)))
                }
            },
        }
    }
}

/// Reads the unsigned 16-bit little-endian value at `i`.
fn read_u16_le(b: &Vec<u8>, i: usize) -> (r: u16)
    requires
        i + 2 <= b.len(),
    ensures
        r == u16_le(b@, i as int),
{
    let lo = b[i] as u16;
    let hi = b[i + 1] as u16;
    lo + hi * 256
}

/// Reads the unsigned 32-bit little-endian value at `i`.
fn read_u32_le(b: &Vec<u8>, i: usize) -> (r: u32)
    requires
        i + 4 <= b.len(),
    ensures
        r == u32_le(b@, i as int),
{
    let b0 = b[i] as u32;
    let b1 = b[i + 1] as u32;
    let b2 = b[i + 2] as u32;
    let b3 = b[i + 3] as u32;
    b0 + b1 * 256 + b2 * 65536 + b3 * 16777216
}

/// Reads the signed 16-bit little-endian sample at `i`.
fn read_i16_le(b: &Vec<u8>, i: usize) -> (r: i16)
    requires
        i + 2 <= b.len(),
    ensures
        r == i16_le(b@, i as int),
{
    let v = read_u16_le(b, i);
    if v >= 32768 {
        ((v - 32768) as i16) - 32767 - 1
    } else {
        v as i16
    }
}

/// Whether the four bytes at `i` spell the given identifier; `i + 4` must be
/// within bounds.
fn check_id(b: &Vec<u8>, i: usize, c0: u8, c1: u8, c2: u8, c3: u8) -> (r: bool)
    requires
        i + 4 <= b.len(),
    ensures
        r == id_at(b@, i as int, c0, c1, c2, c3),
{
    b[i] == c0 && b[i + 1] == c1 && b[i + 2] == c2 && b[i + 3] == c3
}

/// Decodes a WAV container held in memory into its raw 16-bit PCM samples
/// and sample rate. The result is exactly what `spec_decode` says of the
/// bytes: multi-channel data comes out as the interleaved flat sequence, a
/// half-present trailing sample is read as silence, and a container whose
/// header cannot be used is rejected with the reason.
pub fn decode_wav(b: &Vec<u8>) -> (r: Result<AudioSignal, WavError>)
    ensures
        match r {
            Result::Ok(sig) => sig.wf() && spec_decode(b@) == Result::<(u32, Seq<i16>), WavError>::Ok(
                (sig.sample_rate, sig.samples@),
            ),
            Result::Err(e) => spec_decode(b@) == Result::<(u32, Seq<i16>), WavError>::Err(e),
        },
{
    let n = b.len();
    if n < 12 || !check_id(b, 0, 82, 73, 70, 70) || !check_id(b, 8, 87, 65, 86, 69) {
        return Result::Err(WavError::NotRiffWave);
    }
    let mut pos: usize = 12;
    let mut have_fmt: bool = false;
    let mut fmt_off: usize = 0;
    let mut fmt_len: usize = 0;
    loop
        invariant
            b@.len() == n,
            12 <= pos <= n,
            is_riff_wave(b@),
            have_fmt ==> fmt_off + fmt_len + 8 <= n,
            scan_chunks(b@, 12, Option::None) == scan_chunks(
                b@,
                pos as int,
                if have_fmt {
                    Option::Some((fmt_off as int, fmt_len as int))
                } else {
                    Option::<(int, int)>::None
                },
            ),
        decreases n - pos,
    {
        if pos > n - 8 {
            return Result::Err(WavError::MissingData);
        }
        let size32 = read_u32_le(b, pos + 4);
        let size = size32 as usize;
        if check_id(b, pos, 100, 97, 116, 97) {
            // The first data chunk ends the walk.
            if !have_fmt {
                return Result::Err(WavError::MissingFormat);
            }
            if fmt_len < 16 {
                return Result::Err(WavError::TruncatedFormat);
            }
            let audio_format = read_u16_le(b, fmt_off);
            let bits = read_u16_le(b, fmt_off + 14);
            if audio_format != 1 || bits != 16 {
                return Result::Err(WavError::UnsupportedEncoding);
            }
            let rate = read_u32_le(b, fmt_off + 4);
            if rate == 0 {
                return Result::Err(WavError::ZeroSampleRate);
            }
            let data_off = pos + 8;
            let avail = if size <= n - data_off {
                size
            } else {
                n - data_off
            };
            let count = (avail + 1) / 2;
            let mut samples: Vec<i16> = Vec::new();
            let ghost want = data_samples(b@, data_off as int, size as int);
            assert(want.len() == count);
            let mut k: usize = 0;
            while k < count
                invariant
                    b@.len() == n,
                    data_off + avail <= n,
                    avail < n,
                    avail == if size <= n - data_off {
                        size as int
                    } else {
                        n - data_off
                    },
                    count == (avail + 1) / 2,
                    want == data_samples(b@, data_off as int, size as int),
                    want.len() == count,
                    k <= count,
                    samples@.len() == k,
                    forall|j: int| 0 <= j < k ==> samples@[j] == want[j],
                decreases count - k,
            {
                let s: i16 = if 2 * k + 1 < avail {
                    read_i16_le(b, data_off + 2 * k)
                } else {
                    0
                };
                assert(s == want[k as int]);
                samples.push(s);
                k = k + 1;
            }
            assert(samples@ =~= want);
            return Result::Ok(AudioSignal { samples, sample_rate: rate });
        }
        // Some other chunk: skip its body, padded to even length, and
        // remember it if it was the format chunk.
        let fmt_here = check_id(b, pos, 102, 109, 116, 32);
        let room = n - (pos + 8);
        if size > room || size + (size % 2) + 8 > room {
            return Result::Err(WavError::MissingData);
        }
        if fmt_here {
            have_fmt = true;
            fmt_off = pos + 8;
            fmt_len = size;
        }
        pos = pos + 8 + size + size % 2;
    }
}

} // verus!
