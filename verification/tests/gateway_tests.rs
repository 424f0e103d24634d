use camera_gateway::codec::encode_response;
use camera_gateway::dispatch::{Progress, StreamStep};
use camera_gateway::envelope::{ParamMap, Payload, ResponseEnvelope, ResultPayload};
use camera_gateway::gateway::{init_reply, receive, route, Inbound, INIT_TOPIC, INSTR_TOPIC, RESPONSE_TOPIC};
use camera_gateway::interface::{CameraInfo, CameraInterface, ControlType, ImgType, ROIFormat};
use camera_gateway::registry::{get_devices, open_devices, Vendor};

/// A hardware stand-in: one device, nothing to report.
#[derive(Debug, Clone)]
struct Bench {
    idx: usize,
    flag: bool,
}

impl CameraInterface for Bench {
    fn num_devices() -> usize {
        1
    }
    fn new(idx: usize) -> Self {
        Bench { idx, flag: false }
    }
    fn set_roi(&mut self, _: u32, _: u32, _: u32, _: u32, _: u8, _: ImgType) {}
    fn set_img_type(&mut self, _: ImgType) {}
    fn get_roi(&self) -> ROIFormat {
        ROIFormat { startx: 0, starty: 0, width: 2, height: 2, bin: 1, img_type: 0 }
    }
    fn get_img_type(&self) -> ImgType {
        ImgType::RAW8
    }
    fn start_capture(&mut self) {
        self.flag = true;
    }
    fn stop_capture(&mut self) {
        self.flag = false;
    }
    fn get_frame(&self) -> Option<String> {
        Some(String::from("AAAAAA=="))
    }
    fn get_control_value(&self, _: ControlType) -> i64 {
        -1
    }
    fn set_control_value(&mut self, _: ControlType, _: i64, _: bool) {}
    fn get_info(&self) -> CameraInfo {
        CameraInfo {
            name: String::from("bench"),
            idx: self.idx as u32,
            max_width: 2,
            max_height: 2,
            supported_img_type: vec![ImgType::RAW8],
            supported_bins: vec![1],
            is_coolable: false,
        }
    }
    fn is_capture(&self) -> bool {
        self.flag
    }
    fn set_is_capture(&mut self, is_capture: bool) {
        self.flag = is_capture;
    }
    fn adjust_white_balance(&self) {}
    fn close(&self) {}
}

fn envelope(id: &str, camera_idx: i32, cmd_idx: i32) -> String {
    format!("{{\"transaction_id\":\"{}\",\"camera_idx\":{},\"cmd_idx\":{},\"data\":{{}}}}", id, camera_idx, cmd_idx)
}

#[test]
fn topics() {
    assert_eq!(INSTR_TOPIC, "camera/instr");
    assert_eq!(INIT_TOPIC, "camera/init");
    assert_eq!(RESPONSE_TOPIC, "camera/responce");
}

#[test]
fn a_command_for_a_device_is_dispatched() {
    for idx in 0..3 {
        match receive("camera/instr", &envelope("t", idx, 2), 3) {
            Inbound::Dispatch { index, command } => {
                assert_eq!(index, idx as usize);
                assert_eq!(command.transaction_id, "t");
                assert_eq!(command.camera_idx, idx);
                assert_eq!(command.cmd_idx, 2);
            }
            other => panic!("{:?}", other),
        }
    }
}

#[test]
fn a_device_index_out_of_range_is_answered_with_a_failure() {
    for (idx, count) in [(-1, 3), (3, 3), (4, 3), (0, 0), (i32::MAX, 3), (i32::MIN, 3)] {
        match receive("camera/instr", &envelope("t9", idx, 2), count) {
            Inbound::Reject(response) => {
                assert_eq!(response, ResponseEnvelope {
                    transaction_id: String::from("t9"),
                    camera_idx: idx,
                    cmd_idx: 2,
                    data: ResultPayload::NoSuchDevice,
                });
                let text = encode_response(&response).unwrap();
                assert_eq!(text, format!(
                    "{{\"transaction_id\":\"t9\",\"camera_idx\":\"{}\",\"cmd_idx\":\"2\",\"data\":\"{{\\\"error\\\":\\\"no such device\\\"}}\"}}",
                    idx));
            }
            other => panic!("{:?}", other),
        }
    }
}

#[test]
fn a_malformed_envelope_is_dropped() {
    let missing_cmd = "{\"transaction_id\":\"t\",\"camera_idx\":0,\"data\":{}}";
    assert!(matches!(receive("camera/instr", missing_cmd, 3), Inbound::Dropped));
    assert!(matches!(receive("camera/init", missing_cmd, 3), Inbound::Dropped));
    assert!(matches!(receive("camera/instr", "", 3), Inbound::Dropped));
    assert!(matches!(receive("camera/instr", "{", 3), Inbound::Dropped));
}

#[test]
fn a_message_on_another_topic_is_dropped() {
    assert!(matches!(receive("camera/responce", &envelope("t", 0, 2), 3), Inbound::Dropped));
    assert!(matches!(receive("", &envelope("t", 0, 2), 3), Inbound::Dropped));
    assert!(matches!(receive("camera/instr/", &envelope("t", 0, 2), 3), Inbound::Dropped));
}

#[test]
fn the_init_topic_asks_for_enumeration() {
    for idx in [-1, 0, 99] {
        match receive("camera/init", &envelope("boot", idx, 8), 0) {
            Inbound::Reenumerate(command) => {
                assert_eq!(command.transaction_id, "boot");
                assert_eq!(command.camera_idx, idx);
            }
            other => panic!("{:?}", other),
        }
    }
}

#[test]
fn route_decides_on_topic_and_index() {
    let p = Payload::new(String::from("r"), 1, 0, ParamMap::new());
    assert!(matches!(route("camera/instr", p.clone(), 2), Inbound::Dispatch { index: 1, .. }));
    assert!(matches!(route("camera/instr", p.clone(), 1), Inbound::Reject(_)));
    assert!(matches!(route("camera/init", p.clone(), 1), Inbound::Reenumerate(_)));
    assert!(matches!(route("elsewhere", p, 2), Inbound::Dropped));
}

#[test]
fn init_reply_counts_the_devices() {
    let p = Payload::new(String::from("boot"), 5, 0, ParamMap::new());
    let r = init_reply(&p, 2);
    assert_eq!(r, ResponseEnvelope {
        transaction_id: String::from("boot"),
        camera_idx: -1,
        cmd_idx: 8,
        data: ResultPayload::DeviceCount(2),
    });
    assert_eq!(encode_response(&r).unwrap(),
        "{\"transaction_id\":\"boot\",\"camera_idx\":\"-1\",\"cmd_idx\":\"8\",\"data\":\"{\\\"num_device\\\":\\\"2\\\"}\"}");
}

#[test]
fn devices_are_listed_simulated_first() {
    let devices: Vec<Vendor<Bench>> = open_devices(2, 3);
    assert_eq!(devices.len(), 5);
    for (i, d) in devices.iter().enumerate() {
        match d {
            Vendor::MOCK(m) => {
                assert!(i < 2);
                assert_eq!(m.get_info().idx, i as u32);
                assert!(!m.is_capture());
            }
            Vendor::SVBONY(b) => {
                assert!(i >= 2);
                assert_eq!(b.idx, i - 2);
            }
        }
    }
    let none: Vec<Vendor<Bench>> = open_devices(0, 0);
    assert!(none.is_empty());
}

#[test]
fn enumeration_asks_each_kind_for_its_count() {
    let devices: Vec<Vendor<Bench>> = get_devices();
    assert_eq!(devices.len(), 1);
    assert!(matches!(devices[0], Vendor::SVBONY(_)));
}

#[test]
fn a_command_runs_against_either_kind() {
    let mut devices: Vec<Vendor<Bench>> = open_devices(1, 1);
    let p = Payload::new(String::from("k"), 0, 2, ParamMap::new());
    assert_eq!(devices[0].cmd_process(&p), Ok(Progress::Done(p.reply(ResultPayload::Roi(
        ROIFormat { startx: 0, starty: 0, width: 1912, height: 1304, bin: 1, img_type: 0 })))));
    let q = Payload::new(String::from("k"), 1, 2, ParamMap::new());
    assert_eq!(devices[1].cmd_process(&q), Ok(Progress::Done(q.reply(ResultPayload::Roi(
        ROIFormat { startx: 0, starty: 0, width: 2, height: 2, bin: 1, img_type: 0 })))));
    devices[0].close();
    devices[1].close();
}

#[test]
fn a_stream_runs_on_either_kind() {
    let mut devices: Vec<Vendor<Bench>> = open_devices(1, 1);
    let start = Payload::new(String::from("s"), 1, 6, ParamMap::new());
    let stop = Payload::new(String::from("e"), 1, 7, ParamMap::new());
    assert_eq!(devices[1].cmd_process(&start), Ok(Progress::Streaming));
    assert_eq!(devices[1].capture_step(&start),
        StreamStep::Frame(start.reply(ResultPayload::Frame(String::from("AAAAAA==")))));
    assert!(devices[1].cmd_process(&stop).is_ok());
    assert_eq!(devices[1].capture_step(&start), StreamStep::Closed(start.reply(ResultPayload::Empty)));
    assert_eq!(devices[0].capture_step(&start), StreamStep::Closed(start.reply(ResultPayload::Empty)));
}

#[test]
fn two_devices_do_not_share_state() {
    let mut devices: Vec<Vendor<Bench>> = open_devices(2, 0);
    let start = Payload::new(String::from("s"), 0, 6, ParamMap::new());
    assert_eq!(devices[0].cmd_process(&start), Ok(Progress::Streaming));
    assert!(matches!(devices[0].capture_step(&start), StreamStep::Frame(_)));
    assert!(matches!(devices[1].capture_step(&start), StreamStep::Closed(_)));
}
