use paulstretch_rust::wav_helper::{int_scale, interleave, uninterleave, WavError};

#[test]
fn interleave_empty() {
    assert!(interleave(Vec::<Vec<f32>>::new()).is_err());
}

#[test]
fn interleave_mono() {
    let v = vec![vec![0_f32, 1_f32, 2_f32]];
    let interleaved = interleave(v);
    assert!(interleaved.is_ok());
    assert_eq!(interleaved.unwrap(), vec![0_f32, 1_f32, 2_f32]);
}

#[test]
fn interleave_stereo() {
    let v = vec![vec![0_f32, 1_f32, 2_f32], vec![3_f32, 4_f32, 5_f32]];
    let interleaved = interleave(v);
    assert!(interleaved.is_ok());
    assert_eq!(
        interleaved.unwrap(),
        vec![0_f32, 3_f32, 1_f32, 4_f32, 2_f32, 5_f32]
    );
}

#[test]
fn interleave_multichannel() {
    assert!(interleave(vec![Vec::<f32>::new(), Vec::new(), Vec::new()]).is_err());
}

#[test]
fn uninterleave_empty() {
    assert!(uninterleave(Vec::<f32>::new(), 0).is_err());
}

#[test]
fn uninterleave_mono() {
    let v = vec![0_f32, 1_f32, 2_f32];
    let uninterleaved = uninterleave(v, 1);
    assert!(uninterleaved.is_ok());
    assert_eq!(uninterleaved.unwrap(), vec![vec![0_f32, 1_f32, 2_f32]]);
}

#[test]
fn uninterleave_stereo() {
    let v = vec![0_f32, 3_f32, 1_f32, 4_f32, 2_f32, 5_f32];
    let uninterleaved = uninterleave(v, 2);
    assert!(uninterleaved.is_ok());
    assert_eq!(
        uninterleaved.unwrap(),
        vec![vec![0_f32, 1_f32, 2_f32], vec![3_f32, 4_f32, 5_f32]]
    );
}

#[test]
fn uninterleave_multichannel() {
    assert!(uninterleave(Vec::<f32>::new(), 3).is_err());
}

#[test]
fn unsupported_channel_error_values() {
    assert_eq!(
        interleave(Vec::<Vec<f32>>::new()).unwrap_err(),
        WavError::UnsupportedChannelCount(0)
    );
    assert_eq!(
        uninterleave(Vec::<f32>::new(), 5).unwrap_err(),
        WavError::UnsupportedChannelCount(5)
    );
}

#[test]
fn int_scale_depths() {
    assert_eq!(int_scale(8), Ok(127));
    assert_eq!(int_scale(16), Ok(32767));
    assert_eq!(int_scale(24), Ok(8388607));
    assert_eq!(int_scale(32), Ok(2147483647));
    assert_eq!(int_scale(12), Err(WavError::UnsupportedBitDepth(12)));
    assert_eq!(int_scale(0), Err(WavError::UnsupportedBitDepth(0)));
}

#[test]
fn format_round_trip() {
    // Encoding a known float sample at 16-bit depth and decoding it
    // again lands within one quantization step of the original.
    let scale = int_scale(16).unwrap();
    let original = 0.5_f32;
    let encoded = (original * scale as f32) as i16;
    let decoded = encoded as f32 / scale as f32;
    assert!((decoded - original).abs() <= 1.0 / scale as f32);
}

#[test]
fn stereo_round_trip() {
    let flat = vec![0.25_f32, -0.5_f32, 0.75_f32, -1.0_f32];
    let channels = uninterleave(flat.clone(), 2).unwrap();
    assert_eq!(channels[0], vec![0.25_f32, 0.75_f32]);
    assert_eq!(channels[1], vec![-0.5_f32, -1.0_f32]);
    let back = interleave(channels).unwrap();
    assert_eq!(back, flat);
}
