use typed_image::image_buf::ShapeMismatch;
use typed_image::io::v4l::{Config, Webcam, FIELD_NONE};

#[test]
fn config_asks_for_rgb3_at_thirty_frames_a_second() {
    let c = Webcam::config(640, 480);
    assert_eq!(c.format, b"RGB3".to_vec());
    assert_eq!(c.resolution, (640, 480));
    assert_eq!(c.interval, (1, 30));
}

#[test]
fn config_keeps_the_defaults_of_the_device_library() {
    let c = Webcam::config(1, 2);
    assert_eq!(
        c,
        Config {
            interval: (1, 30),
            resolution: (1, 2),
            format: vec![0x52, 0x47, 0x42, 0x33],
            field: FIELD_NONE,
            nbuffers: 2,
        }
    );
    assert_eq!(FIELD_NONE, 1);
}

#[test]
fn a_new_camera_is_not_streaming() {
    let cam = Webcam::new(320, 240);
    assert_eq!(cam.width(), 320);
    assert_eq!(cam.height(), 240);
    assert!(!cam.streaming());
}

#[test]
fn start_gives_the_configuration_of_the_camera() {
    let cam = Webcam::new(320, 240);
    assert_eq!(cam.start(), Webcam::config(320, 240));
}

#[test]
fn a_refused_configuration_leaves_the_camera_idle() {
    let mut cam = Webcam::new(320, 240);
    cam.started(false);
    assert!(!cam.streaming());
    cam.started(true);
    assert!(cam.streaming());
    assert_eq!((cam.width(), cam.height()), (320, 240));
}

#[test]
fn capture_wraps_each_frame() {
    let mut cam = Webcam::new(4, 2);
    cam.started(true);
    for n in 0..5u8 {
        let image = cam.capture((4, 2), vec![n; 24]).unwrap();
        assert_eq!(image.shape(), (4, 2, 3));
        assert_eq!(image.data(), &vec![n; 24]);
    }
}

#[test]
fn capture_goes_by_the_resolution_of_the_frame() {
    let mut cam = Webcam::new(4, 2);
    cam.started(true);
    let image = cam.capture((2, 2), vec![0; 12]).unwrap();
    assert_eq!(image.shape(), (2, 2, 3));
}

#[test]
fn capture_refuses_a_frame_of_another_size() {
    let mut cam = Webcam::new(4, 2);
    cam.started(true);
    assert_eq!(cam.capture((4, 2), vec![0; 23]).err(), Some(ShapeMismatch));
    assert_eq!(cam.capture((4, 2), vec![]).err(), Some(ShapeMismatch));
    assert_eq!(cam.capture((u32::MAX, u32::MAX), vec![0; 3]).err(), Some(ShapeMismatch));
}
