use vstd::prelude::*;

use crate::error::AudioError;

verus! {

/// Denominator of a normalized signed 16-bit sample: the magnitude of `i16::MIN`.
pub const I16_SCALE: u32 = 32768;

/// Denominator of a normalized unsigned 16-bit sample: `u16::MAX`.
pub const U16_SCALE: u32 = 65535;

/// A normalized audio sample.
///
/// Integer encodings normalize to an exact fraction `num / den`, so nothing is
/// lost before the value is finally turned into a float for the output device.
/// A 32-bit float sample is already normalized and is carried as its IEEE-754
/// bit pattern, untouched.
#[derive(Debug, Clone, Copy, PartialEq, Eq, Structural)]
pub enum Sample {
    Fraction { num: i32, den: u32 },
    FloatBits(u32),
}

impl Sample {
    /// The sample is an exact fraction that lies in `[-1, 1]`.
    pub open spec fn in_unit_range(self) -> bool {
        self matches Sample::Fraction { num, den } && 0 < den && -(den as int) <= num <= den
    }
}

/// The sample encodings an input device may report.
#[derive(Debug, Clone, Copy, PartialEq, Eq, Structural)]
pub enum SampleFormat {
    I8,
    I16,
    I32,
    I64,
    U8,
    U16,
    U32,
    U64,
    F32,
    F64,
}

/// The three encodings that can be normalized.
#[derive(Debug, Clone, Copy, PartialEq, Eq, Structural)]
pub enum Encoding {
    F32,
    I16,
    U16,
}

/// The recognized encoding of a device format, if there is one.
pub open spec fn encoding_of(format: SampleFormat) -> Option<Encoding> {
    match format {
        SampleFormat::F32 => Some(Encoding::F32),
        SampleFormat::I16 => Some(Encoding::I16),
        SampleFormat::U16 => Some(Encoding::U16),
        _ => None,
    }
}

/// Checks, before any capture starts, that samples of `format` can be normalized.
pub fn check_format(format: SampleFormat) -> (r: Result<Encoding, AudioError>)
    ensures
        encoding_of(format) matches Some(e) ==> r == Ok::<Encoding, AudioError>(e),
        encoding_of(format) is None ==> r == Err::<Encoding, AudioError>(
            AudioError::UnsupportedFormat,
        ),
{
    match format {
        SampleFormat::F32 => Ok(Encoding::F32),
        SampleFormat::I16 => Ok(Encoding::I16),
        SampleFormat::U16 => Ok(Encoding::U16),
        _ => Err(AudioError::UnsupportedFormat),
    }
}

/// One batch of raw samples as the input device delivers it, in its encoding.
/// Float samples are given by their IEEE-754 bit patterns.
#[derive(Debug, PartialEq, Eq)]
pub enum RawBatch {
    I8(Vec<i8>),
    I16(Vec<i16>),
    I32(Vec<i32>),
    I64(Vec<i64>),
    U8(Vec<u8>),
    U16(Vec<u16>),
    U32(Vec<u32>),
    U64(Vec<u64>),
    F32(Vec<u32>),
    F64(Vec<u64>),
}

impl RawBatch {
    pub open spec fn spec_format(&self) -> SampleFormat {
        match self {
            RawBatch::I8(_) => SampleFormat::I8,
            RawBatch::I16(_) => SampleFormat::I16,
            RawBatch::I32(_) => SampleFormat::I32,
            RawBatch::I64(_) => SampleFormat::I64,
            RawBatch::U8(_) => SampleFormat::U8,
            RawBatch::U16(_) => SampleFormat::U16,
            RawBatch::U32(_) => SampleFormat::U32,
            RawBatch::U64(_) => SampleFormat::U64,
            RawBatch::F32(_) => SampleFormat::F32,
            RawBatch::F64(_) => SampleFormat::F64,
        }
    }

    /// The encoding the batch is delivered in.
    #[verifier::when_used_as_spec(spec_format)]
    pub fn format(&self) -> (r: SampleFormat)
        ensures
            r == self.spec_format(),
    {
        match self {
            RawBatch::I8(_) => SampleFormat::I8,
            RawBatch::I16(_) => SampleFormat::I16,
            RawBatch::I32(_) => SampleFormat::I32,
            RawBatch::I64(_) => SampleFormat::I64,
            RawBatch::U8(_) => SampleFormat::U8,
            RawBatch::U16(_) => SampleFormat::U16,
            RawBatch::U32(_) => SampleFormat::U32,
            RawBatch::U64(_) => SampleFormat::U64,
            RawBatch::F32(_) => SampleFormat::F32,
            RawBatch::F64(_) => SampleFormat::F64,
        }
    }
}

/// A signed 16-bit sample divided by the magnitude of the encoding's minimum.
pub open spec fn from_i16(s: i16) -> Sample {
    Sample::Fraction { num: s as i32, den: I16_SCALE }
}

/// An unsigned 16-bit sample divided by the encoding's maximum, then mapped
/// from `[0, 1]` onto `[-1, 1]`: `2 * (s / max) - 1 == (2 * s - max) / max`.
pub open spec fn from_u16(s: u16) -> Sample {
    Sample::Fraction { num: (2 * s - U16_SCALE) as i32, den: U16_SCALE }
}

/// A float sample passes through unchanged.
pub open spec fn from_f32_bits(bits: u32) -> Sample {
    Sample::FloatBits(bits)
}

/// The normalized samples of a batch, in delivery order; empty for a batch
/// whose encoding is not recognized.
pub open spec fn normalized(batch: RawBatch) -> Seq<Sample> {
    match batch {
        RawBatch::I16(v) => v@.map_values(|s: i16| from_i16(s)),
        RawBatch::U16(v) => v@.map_values(|s: u16| from_u16(s)),
        RawBatch::F32(v) => v@.map_values(|b: u32| from_f32_bits(b)),
        _ => Seq::empty(),
    }
}

/// Normalizes one signed 16-bit sample.
pub fn normalize_i16(s: i16) -> (r: Sample)
    ensures
        r == from_i16(s),
{
    Sample::Fraction { num: s as i32, den: I16_SCALE }
}

/// Normalizes one unsigned 16-bit sample.
pub fn normalize_u16(s: u16) -> (r: Sample)
    ensures
        r == from_u16(s),
{
    Sample::Fraction { num: 2 * (s as i32) - (U16_SCALE as i32), den: U16_SCALE }
}

/// Normalizes every sample of a batch, keeping their order. A batch in an
/// encoding that is not recognized is refused whole.
pub fn normalize_batch(batch: &RawBatch) -> (r: Result<Vec<Sample>, AudioError>)
    ensures
        encoding_of(batch.format()) is Some <==> r is Ok,
        r matches Ok(v) ==> v@ == normalized(*batch),
        r matches Err(e) ==> e == AudioError::UnsupportedFormat,
{
    let mut out: Vec<Sample> = Vec::new();
    match batch {
        RawBatch::I16(v) => {
            let mut i: usize = 0;
            while i < v.len()
                invariant
                    i <= v@.len(),
                    out@ == v@.subrange(0, i as int).map_values(|s: i16| from_i16(s)),
                decreases v@.len() - i,
            {
                out.push(normalize_i16(v[i]));
                i = i + 1;
                assert(v@.subrange(0, i as int) == v@.subrange(0, i - 1).push(v@[i - 1]));
            }
            assert(v@.subrange(0, v@.len() as int) == v@);
            Ok(out)
        },
        RawBatch::U16(v) => {
            let mut i: usize = 0;
            while i < v.len()
                invariant
                    i <= v@.len(),
                    out@ == v@.subrange(0, i as int).map_values(|s: u16| from_u16(s)),
                decreases v@.len() - i,
            {
                out.push(normalize_u16(v[i]));
                i = i + 1;
                assert(v@.subrange(0, i as int) == v@.subrange(0, i - 1).push(v@[i - 1]));
            }
            assert(v@.subrange(0, v@.len() as int) == v@);
            Ok(out)
        },
        RawBatch::F32(v) => {
            let mut i: usize = 0;
            while i < v.len()
                invariant
                    i <= v@.len(),
                    out@ == v@.subrange(0, i as int).map_values(|b: u32| from_f32_bits(b)),
                decreases v@.len() - i,
            {
                out.push(Sample::FloatBits(v[i]));
                i = i + 1;
                assert(v@.subrange(0, i as int) == v@.subrange(0, i - 1).push(v@[i - 1]));
            }
            assert(v@.subrange(0, v@.len() as int) == v@);
            Ok(out)
        },
        _ => Err(AudioError::UnsupportedFormat),
    }
}

/// Every normalized signed 16-bit sample lies in `[-1, 1]`: the minimum maps
/// to exactly `-1` and the maximum to just under `+1`, one step below it.
pub proof fn lemma_signed_in_unit_range(v: Vec<i16>)
    ensures
        normalized(RawBatch::I16(v)).len() == v@.len(),
        forall|i: int|
            0 <= i < v@.len() ==> (#[trigger] normalized(RawBatch::I16(v))[i]).in_unit_range(),
        forall|i: int|
            0 <= i < v@.len() && v@[i] == i16::MIN ==> #[trigger] normalized(RawBatch::I16(v))[i]
                == (Sample::Fraction { num: -(I16_SCALE as int) as i32, den: I16_SCALE }),
        forall|i: int|
            0 <= i < v@.len() && v@[i] == i16::MAX ==> #[trigger] normalized(RawBatch::I16(v))[i]
                == (Sample::Fraction { num: (I16_SCALE - 1) as i32, den: I16_SCALE }),
{
}

/// Every normalized unsigned 16-bit sample lies in `[-1, 1]`: zero maps to
/// exactly `-1` and the maximum to exactly `+1`.
pub proof fn lemma_unsigned_in_unit_range(v: Vec<u16>)
    ensures
        normalized(RawBatch::U16(v)).len() == v@.len(),
        forall|i: int|
            0 <= i < v@.len() ==> (#[trigger] normalized(RawBatch::U16(v))[i]).in_unit_range(),
        forall|i: int|
            0 <= i < v@.len() && v@[i] == 0 ==> #[trigger] normalized(RawBatch::U16(v))[i]
                == (Sample::Fraction { num: -(U16_SCALE as int) as i32, den: U16_SCALE }),
        forall|i: int|
            0 <= i < v@.len() && v@[i] == u16::MAX ==> #[trigger] normalized(RawBatch::U16(v))[i]
                == (Sample::Fraction { num: U16_SCALE as i32, den: U16_SCALE }),
{
}

/// Float samples come out exactly as they went in.
pub proof fn lemma_float_is_identity(v: Vec<u32>)
    ensures
        normalized(RawBatch::F32(v)).len() == v@.len(),
        forall|i: int|
            0 <= i < v@.len() ==> #[trigger] normalized(RawBatch::F32(v))[i] == Sample::FloatBits(
                v@[i],
            ),
{
}

} // verus!
