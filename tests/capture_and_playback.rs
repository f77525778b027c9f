use audio_replay::capture::CaptureBuffer;
use audio_replay::error::AudioError;
use audio_replay::playback::{playback_span, CapturedAudioSource, TimeSpan};
use audio_replay::sample::{
    check_format, normalize_batch, normalize_i16, normalize_u16, Encoding, RawBatch, Sample,
    SampleFormat,
};

fn as_f32(s: Sample) -> f32 {
    match s {
        Sample::Fraction { num, den } => num as f32 / den as f32,
        Sample::FloatBits(bits) => f32::from_bits(bits),
    }
}

fn in_unit_range(s: Sample) -> bool {
    match s {
        Sample::Fraction { num, den } => den > 0 && -(den as i64) <= num as i64 && num as i64 <= den as i64,
        Sample::FloatBits(_) => false,
    }
}

#[test]
fn signed_scenario_round_trip() {
    let mut buf = CaptureBuffer::new();
    assert_eq!(buf.append_batch(&RawBatch::I16(vec![0, 16384, -16384, 32767])), Ok(()));
    let data = buf.take_all();
    let expected = [0.0f32, 0.5, -0.5, 0.99997];
    assert_eq!(data.len(), 4);
    for (s, e) in data.iter().zip(expected.iter()) {
        assert!((as_f32(*s) - e).abs() < 1e-4);
    }
    let mut src = CapturedAudioSource::new(8000, 1, data.clone()).unwrap();
    assert_eq!(src.total_duration(), TimeSpan { secs: 0, nanos: 500_000 });
    for s in data.iter() {
        assert_eq!(src.next(), Some(*s));
    }
    assert_eq!(src.next(), None);
}

#[test]
fn signed_extremes() {
    assert_eq!(normalize_i16(i16::MIN), Sample::Fraction { num: -32768, den: 32768 });
    assert_eq!(as_f32(normalize_i16(i16::MIN)), -1.0);
    let top = as_f32(normalize_i16(i16::MAX));
    assert!(top < 1.0 && top > 0.9999);
    assert_eq!(normalize_i16(0), Sample::Fraction { num: 0, den: 32768 });
}

#[test]
fn signed_batch_in_range() {
    let raw: Vec<i16> = vec![i16::MIN, -1000, -1, 0, 1, 1000, i16::MAX];
    let out = normalize_batch(&RawBatch::I16(raw)).unwrap();
    assert_eq!(out.len(), 7);
    assert!(out.iter().all(|s| in_unit_range(*s)));
}

#[test]
fn unsigned_extremes() {
    assert_eq!(normalize_u16(0), Sample::Fraction { num: -65535, den: 65535 });
    assert_eq!(normalize_u16(u16::MAX), Sample::Fraction { num: 65535, den: 65535 });
    assert_eq!(as_f32(normalize_u16(0)), -1.0);
    assert_eq!(as_f32(normalize_u16(u16::MAX)), 1.0);
    assert_eq!(normalize_u16(32768), Sample::Fraction { num: 1, den: 65535 });
}

#[test]
fn unsigned_batch_in_range() {
    let raw: Vec<u16> = vec![0, 1, 32767, 32768, 40000, u16::MAX];
    let out = normalize_batch(&RawBatch::U16(raw)).unwrap();
    assert_eq!(out.len(), 6);
    assert!(out.iter().all(|s| in_unit_range(*s)));
}

#[test]
fn float_is_unchanged() {
    let values = [0.25f32, -0.75, 1.0, -1.0, 0.0];
    let raw: Vec<u32> = values.iter().map(|v| v.to_bits()).collect();
    let out = normalize_batch(&RawBatch::F32(raw)).unwrap();
    let back: Vec<f32> = out.iter().map(|s| as_f32(*s)).collect();
    assert_eq!(back, values.to_vec());
}

#[test]
fn batches_concatenate_in_order() {
    let mut buf = CaptureBuffer::new();
    assert_eq!(buf.append_batch(&RawBatch::I16(vec![1, 2])), Ok(()));
    assert_eq!(buf.append_batch(&RawBatch::U16(vec![0])), Ok(()));
    assert_eq!(buf.append_batch(&RawBatch::I16(vec![])), Ok(()));
    assert_eq!(buf.append_batch(&RawBatch::F32(vec![0.5f32.to_bits()])), Ok(()));
    assert_eq!(buf.len(), 4);
    assert_eq!(
        buf.take_all(),
        vec![
            Sample::Fraction { num: 1, den: 32768 },
            Sample::Fraction { num: 2, den: 32768 },
            Sample::Fraction { num: -65535, den: 65535 },
            Sample::FloatBits(0.5f32.to_bits()),
        ]
    );
}

#[test]
fn unsupported_batch_leaves_buffer_unchanged() {
    let mut buf = CaptureBuffer::new();
    assert_eq!(buf.append_batch(&RawBatch::I16(vec![7])), Ok(()));
    assert_eq!(buf.append_batch(&RawBatch::U8(vec![1, 2, 3])), Err(AudioError::UnsupportedFormat));
    assert_eq!(buf.append_batch(&RawBatch::F64(vec![0])), Err(AudioError::UnsupportedFormat));
    assert_eq!(buf.append_batch(&RawBatch::I32(vec![5])), Err(AudioError::UnsupportedFormat));
    assert_eq!(buf.take_all(), vec![Sample::Fraction { num: 7, den: 32768 }]);
}

#[test]
fn format_check_at_setup() {
    assert_eq!(check_format(SampleFormat::F32), Ok(Encoding::F32));
    assert_eq!(check_format(SampleFormat::I16), Ok(Encoding::I16));
    assert_eq!(check_format(SampleFormat::U16), Ok(Encoding::U16));
    for f in [
        SampleFormat::I8,
        SampleFormat::I32,
        SampleFormat::I64,
        SampleFormat::U8,
        SampleFormat::U32,
        SampleFormat::U64,
        SampleFormat::F64,
    ] {
        assert_eq!(check_format(f), Err(AudioError::UnsupportedFormat));
    }
    assert_eq!(RawBatch::U32(vec![]).format(), SampleFormat::U32);
}

#[test]
fn empty_buffer_drains_empty() {
    let buf = CaptureBuffer::new();
    assert_eq!(buf.len(), 0);
    assert!(buf.take_all().is_empty());
}

#[test]
fn pulls_count_down_to_exhaustion() {
    let data: Vec<Sample> = (0..5).map(|i| Sample::Fraction { num: i, den: 32768 }).collect();
    let mut src = CapturedAudioSource::new(44100, 2, data.clone()).unwrap();
    assert_eq!(src.channels(), 2);
    assert_eq!(src.sample_rate(), 44100);
    let duration = src.total_duration();
    for (i, s) in data.iter().enumerate() {
        assert_eq!(src.current_frame_len(), 5 - i);
        assert_eq!(src.next(), Some(*s));
        assert_eq!(src.current_frame_len(), 4 - i);
    }
    assert_eq!(src.current_frame_len(), 0);
    for _ in 0..3 {
        assert_eq!(src.next(), None);
        assert_eq!(src.current_frame_len(), 0);
    }
    assert_eq!(src.total_duration(), duration);
}

#[test]
fn empty_source_is_exhausted_at_once() {
    let mut src = CapturedAudioSource::new(8000, 1, Vec::new()).unwrap();
    assert_eq!(src.current_frame_len(), 0);
    assert_eq!(src.total_duration(), TimeSpan { secs: 0, nanos: 0 });
    assert_eq!(src.next(), None);
}

#[test]
fn zero_descriptors_are_refused() {
    let one = vec![Sample::FloatBits(0)];
    assert!(matches!(CapturedAudioSource::new(0, 1, one.clone()), Err(AudioError::InvalidDescriptor)));
    assert!(matches!(CapturedAudioSource::new(8000, 0, one.clone()), Err(AudioError::InvalidDescriptor)));
    assert!(matches!(CapturedAudioSource::new(0, 0, one), Err(AudioError::InvalidDescriptor)));
}

#[test]
fn duration_formula() {
    assert_eq!(playback_span(4, 8000, 1), TimeSpan { secs: 0, nanos: 500_000 });
    assert_eq!(playback_span(96_000, 48_000, 2), TimeSpan { secs: 1, nanos: 0 });
    assert_eq!(playback_span(264_600, 44_100, 2), TimeSpan { secs: 3, nanos: 0 });
    assert_eq!(playback_span(1, 3, 1), TimeSpan { secs: 0, nanos: 333_333_333 });
    assert_eq!(playback_span(7, 2, 1), TimeSpan { secs: 3, nanos: 500_000_000 });
    assert_eq!(
        playback_span(usize::MAX, 1, 1),
        TimeSpan { secs: usize::MAX as u64, nanos: 0 }
    );
    assert_eq!(playback_span(0, u32::MAX, u16::MAX), TimeSpan { secs: 0, nanos: 0 });
}
