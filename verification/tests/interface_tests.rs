use camera_gateway::decimal::{format_i64, format_u64, parse_i32, parse_i64, parse_u32, parse_u8};
use camera_gateway::interface::{CameraInfo, CameraInterface, ControlType, ImgType, ROIFormat};
use camera_gateway::svb_camera::{camera_info, control_reading, roi_format, supported_bins, supported_formats};
use camera_gateway::mock::MockCamera;

#[test]
fn img_type_from_ordinal() {
    assert_eq!(ImgType::from_i32(&0), ImgType::RAW8);
    assert_eq!(ImgType::from_i32(&11), ImgType::RGB32);
    assert_eq!(ImgType::from_i32(&12), ImgType::END);
    assert_eq!(ImgType::from_i32(&-1), ImgType::END);
}

#[test]
fn numerals_are_read_as_std_reads_them() {
    let samples = ["0", "7", "+7", "-7", "-0", "007", "", "+", "-", " 7", "7 ", "7a", "4294967295",
        "4294967296", "255", "256", "2147483647", "2147483648", "-2147483648", "-2147483649",
        "9223372036854775807", "9223372036854775808", "-9223372036854775808",
        "-9223372036854775809", "99999999999999999999999999", "١٢", "1_000", "0x10", "--1", "+-1"];
    for s in samples {
        assert_eq!(parse_i64(s), s.parse::<i64>().ok(), "{}", s);
        assert_eq!(parse_i32(s), s.parse::<i32>().ok(), "{}", s);
        assert_eq!(parse_u32(s), s.parse::<u32>().ok(), "{}", s);
        assert_eq!(parse_u8(s), s.parse::<u8>().ok(), "{}", s);
    }
}

#[test]
fn numerals_are_written_as_std_writes_them() {
    for n in [0i64, 1, 9, 10, 99, 100, -1, -10, 1912, i64::MAX, i64::MIN, i64::MIN + 1] {
        assert_eq!(format_i64(n), n.to_string());
    }
    for n in [0u64, 5, 10, 1304, u64::MAX] {
        assert_eq!(format_u64(n), n.to_string());
    }
}

#[test]
fn mock_frame_is_base64_of_one_sensor() {
    let cam = MockCamera::new(0);
    let frame = cam.get_frame().unwrap();
    assert_eq!(frame.len(), (1912 * 1304 + 2) / 3 * 4);
    assert!(frame.bytes().all(|b| b.is_ascii_alphanumeric() || b == b'+' || b == b'/' || b == b'='));
}

#[test]
fn img_type_ordinals_go_round() {
    let all = [ImgType::RAW8, ImgType::RAW10, ImgType::RAW12, ImgType::RAW14, ImgType::RAW16,
        ImgType::Y8, ImgType::Y10, ImgType::Y12, ImgType::Y14, ImgType::Y16, ImgType::RGB24,
        ImgType::RGB32];
    for (n, t) in all.iter().enumerate() {
        assert_eq!(t.to_i32(), n as i32);
        assert_eq!(ImgType::from_i32(&(n as i32)), *t);
    }
    assert_eq!(ImgType::END.to_i32(), -1);
    assert_eq!(ImgType::RAW16.as_str(), "RAW16");
    assert_eq!(ImgType::END.as_str(), "END");
}

#[test]
fn control_type_from_ordinal() {
    let all = [ControlType::GAIN, ControlType::EXPOSURE, ControlType::GAMMA,
        ControlType::GAMMA_CONTRAST, ControlType::WB_R, ControlType::WB_G, ControlType::WB_B,
        ControlType::FLIP, ControlType::FRAME_SPEED_MODE, ControlType::CONTRAST,
        ControlType::SHARPNESS, ControlType::SATURATION, ControlType::AUTO_TARGET_BRIGHTNESS,
        ControlType::BLACK_LEVEL, ControlType::COOLER_ENABLE, ControlType::TARGET_TEMPERATURE,
        ControlType::CURRENT_TEMPERATURE, ControlType::COOLER_POWER,
        ControlType::BAD_PIXEL_CORRECTION_ENABLE];
    assert_eq!(all.len(), 19);
    for (n, c) in all.iter().enumerate() {
        assert_eq!(ControlType::from_i32(&(n as i32)), *c);
        assert_eq!(ControlType::try_from_i32(n as i32), Some(*c));
        assert_eq!(c.to_i32(), n as i32);
    }
}

#[test]
fn control_type_outside_the_table_is_none() {
    assert_eq!(ControlType::try_from_i32(19), None);
    assert_eq!(ControlType::try_from_i32(-1), None);
    assert_eq!(ControlType::try_from_i32(i32::MAX), None);
    assert_eq!(ControlType::try_from_i32(i32::MIN), None);
}

#[test]
fn mock_describes_itself() {
    let cam = MockCamera::new(3);
    let info = cam.get_info();
    assert_eq!(info, CameraInfo {
        name: String::from("Mock Camera"),
        idx: 3,
        max_width: 1912,
        max_height: 1304,
        supported_img_type: vec![ImgType::RAW8, ImgType::RAW16],
        supported_bins: vec![1, 2, 4, 8],
        is_coolable: false,
    });
    assert_eq!(MockCamera::num_devices(), 0);
}

#[test]
fn mock_ignores_writes() {
    let mut cam = MockCamera::new(0);
    let fixed = ROIFormat { startx: 0, starty: 0, width: 1912, height: 1304, bin: 1, img_type: 0 };
    assert_eq!(cam.get_roi(), fixed);
    cam.set_roi(10, 20, 30, 40, 2, ImgType::RAW16);
    assert_eq!(cam.get_roi(), fixed);
    cam.set_control_value(ControlType::GAIN, 77, false);
    assert_eq!(cam.get_control_value(ControlType::GAIN), 0);
    assert_eq!(cam.get_img_type(), ImgType::RAW8);
}

#[test]
fn mock_capture_flag() {
    let mut cam = MockCamera::new(0);
    assert!(!cam.is_capture());
    cam.start_capture();
    assert!(cam.is_capture());
    cam.stop_capture();
    assert!(!cam.is_capture());
    cam.set_is_capture(true);
    assert!(cam.is_capture());
    cam.set_is_capture(false);
    assert!(!cam.is_capture());
}

#[test]
fn mock_frame_decodes_to_pixels_below_255() {
    let cam = MockCamera::new(0);
    let frame = cam.get_frame().unwrap();
    let bytes = base64::Engine::decode(&base64::engine::general_purpose::STANDARD, frame).unwrap();
    assert_eq!(bytes.len(), 1912 * 1304);
    assert!(bytes.iter().all(|b| *b < 255));
    assert!(bytes.iter().any(|b| *b != bytes[0]));
}

#[test]
fn formats_stop_at_the_end_mark() {
    assert_eq!(supported_formats(&vec![0, 4, -1, 5]), vec![ImgType::RAW8, ImgType::RAW16]);
    assert_eq!(supported_formats(&vec![-1, 0]), Vec::<ImgType>::new());
    assert_eq!(supported_formats(&vec![]), Vec::<ImgType>::new());
    assert_eq!(supported_formats(&vec![11, 12, -2]), vec![ImgType::RGB32, ImgType::END, ImgType::END]);
}

#[test]
fn bins_are_cut_to_bytes() {
    assert_eq!(supported_bins(&vec![1, 2, 4, 0, 0]), vec![1u8, 2, 4, 0, 0]);
    assert_eq!(supported_bins(&vec![256, 257, -1]), vec![0u8, 1, 255]);
}

#[test]
fn roi_from_vendor_numbers() {
    assert_eq!(roi_format(0, 0, 1920, 1080, 1, 0),
        ROIFormat { startx: 0, starty: 0, width: 1920, height: 1080, bin: 1, img_type: 0 });
    assert_eq!(roi_format(-1, 5, 6, 7, 258, -1),
        ROIFormat { startx: u32::MAX, starty: 5, width: 6, height: 7, bin: 2, img_type: 255 });
}

#[test]
fn info_from_vendor_properties() {
    let info = camera_info(String::from("SV305"), 1, 1920, 1080, &vec![0, 4, -1, -1], &vec![1, 2, 0]);
    assert_eq!(info, CameraInfo {
        name: String::from("SV305"),
        idx: 1,
        max_width: 1920,
        max_height: 1080,
        supported_img_type: vec![ImgType::RAW8, ImgType::RAW16],
        supported_bins: vec![1, 2, 0],
        is_coolable: false,
    });
}

#[test]
fn failed_control_read_gives_the_mark() {
    assert_eq!(control_reading(Some(42)), 42);
    assert_eq!(control_reading(Some(-7)), -7);
    assert_eq!(control_reading(None), -1);
}
