use screen_capture::encoder::{duration_ms, rescale, VideoEncoder};
use screen_capture::error::CaptureError;
use screen_capture::timeline::{file_checksum, hex_string};

fn png_bytes(width: u32, height: u32) -> Vec<u8> {
    let img = image::RgbImage::from_pixel(width, height, image::Rgb([10, 20, 30]));
    let mut out = std::io::Cursor::new(Vec::new());
    img.write_to(&mut out, image::ImageFormat::Png).unwrap();
    out.into_inner()
}

#[test]
fn test_duration_calculation() {
    let encoder = VideoEncoder::new(1920, 1080, 30).unwrap();

    // 30 frames @ 30 fps = 1 second
    assert_eq!(encoder.calculate_duration(30) as f64 / 1000.0, 1.0);

    // 300 frames @ 30 fps = 10 seconds
    assert_eq!(encoder.calculate_duration(300) as f64 / 1000.0, 10.0);

    // 90 frames @ 30 fps = 3 seconds
    assert_eq!(encoder.calculate_duration(90) as f64 / 1000.0, 3.0);
}

#[test]
fn unsupported_geometry_is_refused() {
    assert!(matches!(VideoEncoder::new(0, 1080, 30), Err(CaptureError::Configuration(_))));
    assert!(matches!(VideoEncoder::new(1921, 1080, 30), Err(CaptureError::Configuration(_))));
    assert!(matches!(VideoEncoder::new(1920, 1080, 0), Err(CaptureError::Configuration(_))));
    assert!(matches!(VideoEncoder::new(1920, 1080, 241), Err(CaptureError::Configuration(_))));
}

#[test]
fn rescale_and_duration_values() {
    assert_eq!(rescale(0, 30), 0);
    assert_eq!(rescale(1, 30), 3000);
    assert_eq!(rescale(1, 7), 12857);
    assert_eq!(duration_ms(60, 30), 2000);
    assert_eq!(duration_ms(1, 30), 33);
}

#[test]
fn ninety_frames_give_ninety_ordered_packets() {
    let mut enc = VideoEncoder::new(1920, 1080, 30).unwrap();
    for seq in 0..90u64 {
        assert_eq!(enc.submit_frame(seq, 1920, 1080).unwrap(), seq);
        // the codec holds one frame back
        if seq > 0 {
            enc.write_packet(seq - 1).unwrap();
        }
    }
    enc.drain(&vec![89]).unwrap();
    assert_eq!(enc.packet_count(), 90);
    assert_eq!(enc.finish().unwrap(), (90, 3000));
    assert!(enc.is_finished());
    // never finalized twice
    assert!(matches!(enc.finish(), Err(CaptureError::Encoding(_))));
}

#[test]
fn frames_out_of_sequence_or_size_fail_the_stream() {
    let mut enc = VideoEncoder::new(64, 48, 30).unwrap();
    assert!(matches!(enc.submit_frame(1, 64, 48), Err(CaptureError::Encoding(_))));
    assert!(enc.submit_frame(0, 64, 48).is_err());
    let mut enc = VideoEncoder::new(64, 48, 30).unwrap();
    assert!(matches!(enc.submit_frame(0, 32, 48), Err(CaptureError::Configuration(_))));
}

#[test]
fn packets_out_of_order_are_refused() {
    let mut enc = VideoEncoder::new(64, 48, 30).unwrap();
    enc.submit_frame(0, 64, 48).unwrap();
    enc.submit_frame(1, 64, 48).unwrap();
    enc.write_packet(1).unwrap();
    assert!(matches!(enc.write_packet(0), Err(CaptureError::Encoding(_))));
    assert!(matches!(enc.finish(), Err(CaptureError::Encoding(_))));
}

#[test]
fn packet_without_frame_is_refused() {
    let mut enc = VideoEncoder::new(64, 48, 30).unwrap();
    assert!(matches!(enc.write_packet(0), Err(CaptureError::Encoding(_))));
}

#[test]
fn no_frames_means_no_container() {
    let mut enc = VideoEncoder::new(64, 48, 30).unwrap();
    assert_eq!(enc.finish(), Err(CaptureError::NoFrames));
}

#[test]
fn missing_packet_is_an_encoding_error() {
    let mut enc = VideoEncoder::new(64, 48, 30).unwrap();
    enc.submit_frame(0, 64, 48).unwrap();
    enc.submit_frame(1, 64, 48).unwrap();
    enc.write_packet(0).unwrap();
    assert!(matches!(enc.finish(), Err(CaptureError::Encoding(_))));
}

#[test]
fn bitrate_grows_with_quality() {
    let enc = VideoEncoder::new(1920, 1080, 30).unwrap();
    assert_eq!(enc.target_bitrate(80), 5_184_000);
    assert_eq!(enc.target_bitrate(0), 1_036_800);
    let mut last = 0;
    for q in 0..=100 {
        let b = enc.target_bitrate(q);
        assert!(b >= last);
        last = b;
    }
}

#[test]
fn decode_frames_gives_rgb_rows() {
    let enc = VideoEncoder::new(4, 2, 30).unwrap();
    let frames = vec![png_bytes(4, 2), png_bytes(4, 2)];
    let out = enc.decode_frames(&frames).unwrap();
    assert_eq!(out.len(), 2);
    assert_eq!(out[0].len(), 4 * 2 * 3);
    assert_eq!(&out[0][0..3], &[10, 20, 30]);
}

#[test]
fn decode_frames_refuses_other_sizes_and_garbage() {
    let enc = VideoEncoder::new(4, 2, 30).unwrap();
    assert!(matches!(enc.decode_frames(&vec![png_bytes(2, 2)]), Err(CaptureError::Configuration(_))));
    assert!(matches!(enc.decode_frames(&vec![vec![1, 2, 3]]), Err(CaptureError::Encoding(_))));
}

#[test]
fn checksum_is_sha256_hex() {
    assert_eq!(
        file_checksum(b"abc"),
        "ba7816bf8f01cfea414140de5dae2223b00361a396177a9cb410ff61f20015ad"
    );
    assert_eq!(hex_string(&[0x00, 0xff, 0x1a]), "00ff1a");
}
