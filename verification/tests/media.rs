use desk_switch::capture::{
    check_monitor_index, display_label, display_labels, frame_interval_micros,
    pacing_delay_micros, CaptureError, FrameRate,
};
use desk_switch::imaging::{bgra_to_rgb, decode_jpeg, encode_raw_frame, rgb_to_pixels, RawFrame};
use desk_switch::logbuf::{LogBuffer, LOG_CAPACITY};
use desk_switch::presentation::{
    capture_monitor_for, needs_new_window, resolution_label, resolution_preset_sizes, viewer_should_close,
};

#[test]
fn pixel_reordering() {
    assert_eq!(bgra_to_rgb(&[1, 2, 3, 4, 5, 6, 7, 8, 9]), vec![3, 2, 1, 7, 6, 5]);
    assert_eq!(bgra_to_rgb(&[]), Vec::<u8>::new());
    assert_eq!(rgb_to_pixels(&[0x12, 0x34, 0x56, 0xff, 0, 1, 7]), vec![0x123456, 0xff0001]);
}

#[test]
fn jpeg_roundtrip_keeps_size() {
    let (w, h) = (16usize, 8usize);
    let mut bgra = Vec::new();
    for i in 0..w * h {
        bgra.extend_from_slice(&[(i % 256) as u8, 128, 64, 255]);
    }
    let raw = RawFrame { width: w, height: h, bgra_data: bgra };
    let frame = encode_raw_frame(&raw, 60).expect("encodes");
    assert_eq!(frame.width, 16);
    assert_eq!(frame.height, 8);
    assert_eq!(&frame.jpeg_data[..2], &[0xff, 0xd8]);
    let decoded = decode_jpeg(&frame.jpeg_data).expect("decodes");
    assert_eq!(decoded.width, 16);
    assert_eq!(decoded.height, 8);
    assert_eq!(decoded.pixels.len(), 128);
}

#[test]
fn jpeg_garbage_is_refused() {
    assert!(decode_jpeg(&[1, 2, 3, 4]).is_none());
}

#[test]
fn capture_pacing() {
    assert_eq!(frame_interval_micros(30), 33333);
    assert_eq!(frame_interval_micros(1), 1000000);
    assert_eq!(pacing_delay_micros(33333, 1000), 32333);
    assert_eq!(pacing_delay_micros(33333, 40000), 0);
}

#[test]
fn monitor_index_check() {
    assert_eq!(check_monitor_index(0, 1), Ok(()));
    let e = check_monitor_index(2, 2).unwrap_err();
    assert_eq!(e, CaptureError::MonitorOutOfRange { index: 2, count: 2 });
    assert_eq!(e.message(), "Monitor index 2 out of range (found 2 displays)");
}

#[test]
fn monitor_labels() {
    assert_eq!(display_label(0, 1920, 1080), "Display 0: 1920x1080");
    assert_eq!(display_labels(&vec![(1440, 900), (3840, 2160)]), vec!["Display 0: 1440x900", "Display 1: 3840x2160"]);
}

#[test]
fn frame_rate_counter() {
    let mut f = FrameRate::new(1000);
    f.on_frame();
    f.on_frame();
    assert_eq!(f.tick(1999), None);
    f.on_frame();
    assert_eq!(f.tick(2000), Some(3));
    assert_eq!(f.tick(2500), None);
    assert_eq!(f.tick(3000), Some(0));
}

#[test]
fn log_keeps_newest_lines() {
    let mut log = LogBuffer::new();
    for i in 0..205 {
        log.push(format!("line {i}"));
    }
    assert_eq!(log.len(), LOG_CAPACITY);
    assert_eq!(log.line(0), "line 5");
    assert_eq!(log.line(199), "line 204");
}

#[test]
fn log_batch_equals_one_by_one() {
    let mut a = LogBuffer::new();
    let mut b = LogBuffer::new();
    for i in 0..150 {
        a.push(format!("x{i}"));
        b.push(format!("x{i}"));
    }
    let batch: Vec<String> = (0..120).map(|i| format!("y{i}")).collect();
    for l in batch.clone() {
        a.push(l);
    }
    b.push_all(batch);
    assert_eq!(a.len(), 200);
    assert_eq!(b.len(), 200);
    for i in 0..200 {
        assert_eq!(a.line(i), b.line(i));
    }
    assert_eq!(b.line(0), "x70");
    let mut c = LogBuffer::new();
    c.push_all(vec!["only".to_string()]);
    assert_eq!(c.len(), 1);
}

#[test]
fn window_choices() {
    assert_eq!(resolution_label(1920, 1080), "1920x1080 (Full HD)");
    assert_eq!(resolution_label(3840, 2160), "3840x2160 (4K)");
    assert_eq!(resolution_label(1024, 768), "1024x768");
    assert_eq!(capture_monitor_for(true, Some(2), 0), 2);
    assert_eq!(capture_monitor_for(true, None, 1), 1);
    assert_eq!(capture_monitor_for(false, Some(2), 1), 1);
    assert!(needs_new_window(false, (0, 0), 10, 10));
    assert!(needs_new_window(true, (10, 10), 10, 20));
    assert!(!needs_new_window(true, (10, 20), 10, 20));
    assert!(viewer_should_close(false, false));
    assert!(viewer_should_close(true, true));
    assert!(!viewer_should_close(true, false));
}

#[test]
fn preset_sizes_have_preset_labels() {
    let sizes = resolution_preset_sizes();
    assert_eq!(sizes, vec![(1280, 720), (1920, 1080), (2560, 1440), (3840, 2160)]);
    let labels: Vec<String> = sizes.iter().map(|&(w, h)| resolution_label(w, h)).collect();
    assert_eq!(labels, vec!["1280x720 (HD)", "1920x1080 (Full HD)", "2560x1440 (QHD)", "3840x2160 (4K)"]);
}
