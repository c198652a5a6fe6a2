use gifanim::errors::{EncodingError, GifError, ValidationError};
use gifanim::pipeline::{encode_gif, frame_outcome, test_encode_simple};
use gifanim::request::AnimationRequest;

/// A flat RGBA buffer of `frames.len()` solid-color frames of `w * h` pixels.
fn solid_frames(w: usize, h: usize, frames: &[[u8; 4]]) -> Vec<u8> {
    let mut data = Vec::with_capacity(w * h * 4 * frames.len());
    for color in frames {
        for _ in 0..(w * h) {
            data.extend_from_slice(color);
        }
    }
    data
}

/// Decodes a GIF stream into (width, height, repeat, frames as (delay, RGBA pixels)).
fn decode(bytes: &[u8]) -> (u16, u16, gif::Repeat, Vec<(u16, Vec<u8>)>) {
    let mut options = gif::DecodeOptions::new();
    options.set_color_output(gif::ColorOutput::RGBA);
    let mut decoder = options.read_info(bytes).expect("stream must parse");
    let width = decoder.width();
    let height = decoder.height();
    let repeat = decoder.repeat();
    let mut frames = Vec::new();
    while let Some(frame) = decoder.read_next_frame().expect("frame must parse") {
        frames.push((frame.delay, frame.buffer.to_vec()));
    }
    (width, height, repeat, frames)
}

#[test]
fn rejects_quality_below_range() {
    let data = solid_frames(2, 2, &[[1, 2, 3, 255]]);
    let err = encode_gif(data, 2, 2, 1, 10, 0).unwrap_err();
    assert!(matches!(&err, GifError::Validation(ValidationError::QualityOutOfRange)));
    assert_eq!(err.message(), "Quality must be between 1 and 30");
}

#[test]
fn rejects_quality_above_range() {
    let data = solid_frames(2, 2, &[[1, 2, 3, 255]]);
    let err = encode_gif(data, 2, 2, 1, 10, 31).unwrap_err();
    assert!(matches!(&err, GifError::Validation(ValidationError::QualityOutOfRange)));
}

#[test]
fn rejects_zero_fps() {
    let data = solid_frames(2, 2, &[[1, 2, 3, 255]]);
    let err = encode_gif(data, 2, 2, 1, 0, 10).unwrap_err();
    assert!(matches!(&err, GifError::Validation(ValidationError::FpsOutOfRange)));
    assert_eq!(err.message(), "FPS must be between 1 and 60");
}

#[test]
fn rejects_fps_above_range() {
    let data = solid_frames(2, 2, &[[1, 2, 3, 255]]);
    let err = encode_gif(data, 2, 2, 1, 61, 10).unwrap_err();
    assert!(matches!(&err, GifError::Validation(ValidationError::FpsOutOfRange)));
}

#[test]
fn rejects_zero_width() {
    let err = encode_gif(Vec::new(), 0, 2, 1, 10, 10).unwrap_err();
    assert!(matches!(&err, GifError::Validation(ValidationError::ZeroDimension)));
    assert_eq!(err.message(), "Width and height must be greater than 0");
}

#[test]
fn rejects_zero_height() {
    let err = encode_gif(Vec::new(), 2, 0, 1, 10, 10).unwrap_err();
    assert!(matches!(&err, GifError::Validation(ValidationError::ZeroDimension)));
}

#[test]
fn rejects_zero_frames() {
    let err = encode_gif(Vec::new(), 2, 2, 0, 10, 10).unwrap_err();
    assert!(matches!(&err, GifError::Validation(ValidationError::ZeroFrames)));
    assert_eq!(err.message(), "Number of frames must be greater than 0");
}

#[test]
fn rejects_buffer_length_mismatch_with_both_counts() {
    // 10x10, 2 frames wants 800 bytes; hand it 4.
    let err = encode_gif(vec![0, 0, 0, 0], 10, 10, 2, 2, 10).unwrap_err();
    match &err {
        GifError::Validation(ValidationError::LengthMismatch { expected, actual }) => {
            assert_eq!(*expected, 800);
            assert_eq!(*actual, 4);
        }
        other => panic!("wrong error: {:?}", other),
    }
    assert_eq!(
        err.message(),
        "Invalid frames data length: expected 800, got 4"
    );
}

#[test]
fn validation_order_reports_first_failure() {
    // Everything is wrong; the quality check comes first.
    let err = encode_gif(vec![1, 2, 3], 0, 0, 0, 0, 99).unwrap_err();
    assert!(matches!(&err, GifError::Validation(ValidationError::QualityOutOfRange)));
}

#[test]
fn validate_alone_accepts_a_valid_request() {
    let req = AnimationRequest {
        frames_data: solid_frames(3, 2, &[[9, 8, 7, 255]]),
        width: 3,
        height: 2,
        num_frames: 1,
        fps: 30,
        quality: 10,
    };
    assert!(req.validate().is_ok());
}

#[test]
fn delay_values_match_the_rounding_rule() {
    assert_eq!(gifanim::timing::delay_centis(2), 50);
    assert_eq!(gifanim::timing::delay_centis(60), 2);
    assert_eq!(gifanim::timing::delay_centis(33), 3);
    assert_eq!(gifanim::timing::delay_centis(1), 100);
    assert_eq!(gifanim::timing::delay_centis(50), 2);
    assert_eq!(gifanim::timing::delay_centis(51), 2);
    // Halves round away from zero: 100/40 = 2.5.
    assert_eq!(gifanim::timing::delay_centis(40), 3);
}

#[test]
fn round_trip_two_solid_frames() {
    let data = solid_frames(10, 10, &[[255, 0, 0, 255], [0, 0, 255, 255]]);
    let bytes = encode_gif(data, 10, 10, 2, 2, 10).expect("valid request must encode");
    let (w, h, repeat, frames) = decode(&bytes);
    assert_eq!(w, 10);
    assert_eq!(h, 10);
    assert_eq!(repeat, gif::Repeat::Infinite);
    assert_eq!(frames.len(), 2);
    for (i, expected) in [[255u8, 0, 0, 255], [0, 0, 255, 255]].iter().enumerate() {
        let (delay, pixels) = &frames[i];
        assert_eq!(*delay, 50);
        assert_eq!(pixels.len(), 10 * 10 * 4);
        for pixel in pixels.chunks(4) {
            assert_eq!(pixel, *expected);
        }
    }
}

#[test]
fn encoding_twice_decodes_identically() {
    let data = solid_frames(8, 5, &[[10, 200, 30, 255], [200, 10, 30, 255], [1, 2, 3, 255]]);
    let first = encode_gif(data.clone(), 8, 5, 3, 10, 10).expect("must encode");
    let second = encode_gif(data, 8, 5, 3, 10, 10).expect("must encode");
    let decoded_first = decode(&first);
    let decoded_second = decode(&second);
    assert_eq!(decoded_first.0, decoded_second.0);
    assert_eq!(decoded_first.1, decoded_second.1);
    assert_eq!(decoded_first.2, decoded_second.2);
    assert_eq!(decoded_first.3, decoded_second.3);
}

#[test]
fn frame_order_is_preserved() {
    let colors = [
        [255u8, 0, 0, 255],
        [0, 255, 0, 255],
        [0, 0, 255, 255],
        [255, 255, 0, 255],
        [0, 255, 255, 255],
    ];
    let data = solid_frames(4, 4, &colors);
    let bytes = encode_gif(data, 4, 4, 5, 5, 1).expect("must encode");
    let (_, _, _, frames) = decode(&bytes);
    assert_eq!(frames.len(), 5);
    for (i, color) in colors.iter().enumerate() {
        for pixel in frames[i].1.chunks(4) {
            assert_eq!(pixel, *color, "frame {} lost its color", i);
        }
    }
}

#[test]
fn frame_failure_aborts_with_that_index() {
    let outcome = frame_outcome(3, Err(String::from("corrupted raster")));
    match outcome.unwrap_err() {
        GifError::Encoding(EncodingError::FrameWrite { index, detail }) => {
            assert_eq!(index, 3);
            assert_eq!(detail, "corrupted raster");
        }
        other => panic!("wrong error: {:?}", other),
    }
    let err = frame_outcome(7, Err(String::from("oom"))).unwrap_err();
    assert_eq!(err.message(), "Frame 7 write failed: oom");
    assert!(frame_outcome(3, Ok(())).is_ok());
}

#[test]
fn smoke_test_runs_the_whole_pipeline() {
    let bytes = test_encode_simple().expect("smoke animation must encode");
    assert_eq!(&bytes[..6], b"GIF89a");
    let (w, h, repeat, frames) = decode(&bytes);
    assert_eq!((w, h), (10, 10));
    assert_eq!(repeat, gif::Repeat::Infinite);
    assert_eq!(frames.len(), 2);
    assert_eq!(frames[0].0, 50);
    assert_eq!(frames[1].0, 50);
    for pixel in frames[0].1.chunks(4) {
        assert_eq!(pixel, [255, 0, 0, 255]);
    }
    for pixel in frames[1].1.chunks(4) {
        assert_eq!(pixel, [0, 0, 255, 255]);
    }
}

#[test]
fn raster_copies_the_right_slice() {
    let req = AnimationRequest {
        frames_data: solid_frames(1, 1, &[[1, 2, 3, 4], [5, 6, 7, 8]]),
        width: 1,
        height: 1,
        num_frames: 2,
        fps: 10,
        quality: 10,
    };
    assert_eq!(req.raster(0), vec![1, 2, 3, 4]);
    assert_eq!(req.raster(1), vec![5, 6, 7, 8]);
}

#[test]
fn boundary_parameters_are_accepted() {
    // Quality and frame rate at both ends of their ranges, one 1x1 frame.
    let data = solid_frames(1, 1, &[[0, 255, 0, 255]]);
    let bytes = encode_gif(data.clone(), 1, 1, 1, 60, 30).expect("must encode");
    let (_, _, _, frames) = decode(&bytes);
    assert_eq!(frames.len(), 1);
    assert_eq!(frames[0].0, 2);
    assert_eq!(frames[0].1, vec![0, 255, 0, 255]);
    let bytes = encode_gif(data, 1, 1, 1, 1, 1).expect("must encode");
    let (_, _, _, frames) = decode(&bytes);
    assert_eq!(frames[0].0, 100);
}

#[test]
fn decimal_rendering_is_exact() {
    assert_eq!(gifanim::numfmt::decimal_string(0), "0");
    assert_eq!(gifanim::numfmt::decimal_string(7), "7");
    assert_eq!(gifanim::numfmt::decimal_string(10), "10");
    assert_eq!(gifanim::numfmt::decimal_string(800), "800");
    assert_eq!(
        gifanim::numfmt::decimal_string(340282366920938463463374607431768211455),
        "340282366920938463463374607431768211455"
    );
}

#[test]
fn encoding_error_messages_name_their_stage() {
    let init = GifError::Encoding(EncodingError::Initialization {
        detail: String::from("no space"),
    });
    assert_eq!(init.message(), "Failed to create encoder: no space");
    let finalize = GifError::Encoding(EncodingError::Finalization {
        detail: String::from("stuck"),
    });
    assert_eq!(finalize.message(), "Failed to finalize GIF encoder: stuck");
}
