use camera_gateway::codec::{
    decode_document, decode_envelope, encode_control, encode_device_count, encode_frame,
    encode_info, encode_payload, encode_response, encode_roi, gen_responce,
};
use camera_gateway::envelope::{CameraCmd, ParamMap, Payload, ResponseEnvelope, ResultPayload};
use camera_gateway::interface::{CameraInfo, CameraInterface, ImgType, ROIFormat};
use camera_gateway::json::{parse, quote, Json};
use camera_gateway::mock::MockCamera;

fn sample_text() -> &'static str {
    "{\"transaction_id\":\"abc\",\"camera_idx\":1,\"cmd_idx\":4,\"data\":{\"startx\":\"0\",\"starty\":\"8\",\"width\":\"100\",\"height\":\"50\",\"bin\":\"2\",\"img_type\":\"4\"}}"
}

#[test]
fn command_codes() {
    assert_eq!(CameraCmd::from_i32(&0), CameraCmd::GetInfo);
    assert_eq!(CameraCmd::from_i32(&1), CameraCmd::GetStatus);
    assert_eq!(CameraCmd::from_i32(&2), CameraCmd::GetRoi);
    assert_eq!(CameraCmd::from_i32(&3), CameraCmd::GetCtrlVal);
    assert_eq!(CameraCmd::from_i32(&4), CameraCmd::SetRoi);
    assert_eq!(CameraCmd::from_i32(&5), CameraCmd::SetCtrlVal);
    assert_eq!(CameraCmd::from_i32(&6), CameraCmd::StartCapture);
    assert_eq!(CameraCmd::from_i32(&7), CameraCmd::StopCapture);
    assert_eq!(CameraCmd::from_i32(&8), CameraCmd::Init);
    assert_eq!(CameraCmd::from_i32(&9), CameraCmd::NotImplemented);
    assert_eq!(CameraCmd::from_i32(&-1), CameraCmd::NotImplemented);
    assert_eq!(CameraCmd::from_i32(&i32::MAX), CameraCmd::NotImplemented);
}

#[test]
fn param_map_keeps_the_last_value() {
    let mut m = ParamMap::new();
    assert_eq!(m.get("a"), None);
    m.insert(String::from("a"), String::from("1"));
    m.insert(String::from("b"), String::from("2"));
    assert_eq!(m.get("a"), Some(&String::from("1")));
    assert_eq!(m.get("b"), Some(&String::from("2")));
    m.insert(String::from("a"), String::from("3"));
    assert_eq!(m.get("a"), Some(&String::from("3")));
    assert_eq!(m.get("b"), Some(&String::from("2")));
    assert_eq!(m.get("c"), None);
    assert_eq!(m.get(""), None);
}

#[test]
fn parse_gives_the_tree() {
    match parse("{\"k\":[1,2.5,\"s\",null,true,{\"n\":-3}]}") {
        Some(Json::Object(members)) => {
            assert_eq!(members.len(), 1);
            assert_eq!(members[0].0, "k");
            match &members[0].1 {
                Json::Array(items) => {
                    assert_eq!(items.len(), 6);
                    assert!(matches!(items[0], Json::Number(Some(1))));
                    assert!(matches!(items[1], Json::Number(None)));
                    assert!(matches!(&items[2], Json::Text(s) if s == "s"));
                    assert!(matches!(items[3], Json::Null));
                    assert!(matches!(items[4], Json::Bool(true)));
                    match &items[5] {
                        Json::Object(inner) => {
                            assert_eq!(inner.len(), 1);
                            assert_eq!(inner[0].0, "n");
                            assert!(matches!(inner[0].1, Json::Number(Some(-3))));
                        }
                        _ => panic!("object expected"),
                    }
                }
                _ => panic!("array expected"),
            }
        }
        _ => panic!("object expected"),
    }
    assert!(parse("{\"k\":").is_none());
    assert!(parse("").is_none());
    assert!(matches!(parse("18446744073709551615"), Some(Json::Number(None))));
    assert!(matches!(parse("9223372036854775807"), Some(Json::Number(Some(i64::MAX)))));
}

#[test]
fn quote_escapes() {
    assert_eq!(quote("plain"), Some(String::from("\"plain\"")));
    assert_eq!(quote("a\"b\\c\nd"), Some(String::from("\"a\\\"b\\\\c\\nd\"")));
    assert_eq!(quote(""), Some(String::from("\"\"")));
}

#[test]
fn decode_reads_every_member() {
    let p = decode_envelope(sample_text()).unwrap();
    assert_eq!(p.transaction_id, "abc");
    assert_eq!(p.camera_idx, 1);
    assert_eq!(p.cmd_idx, 4);
    assert_eq!(p.data.get("startx"), Some(&String::from("0")));
    assert_eq!(p.data.get("starty"), Some(&String::from("8")));
    assert_eq!(p.data.get("width"), Some(&String::from("100")));
    assert_eq!(p.data.get("height"), Some(&String::from("50")));
    assert_eq!(p.data.get("bin"), Some(&String::from("2")));
    assert_eq!(p.data.get("img_type"), Some(&String::from("4")));
    assert_eq!(p.data.get("value"), None);
}

#[test]
fn decode_ignores_members_it_does_not_know() {
    let p = decode_envelope(
        "{\"extra\":[1,2],\"transaction_id\":\"t\",\"camera_idx\":-1,\"cmd_idx\":8,\"data\":{}}",
    ).unwrap();
    assert_eq!(p.transaction_id, "t");
    assert_eq!(p.camera_idx, -1);
    assert_eq!(p.cmd_idx, 8);
    assert_eq!(p.data.get("extra"), None);
}

#[test]
fn decode_without_cmd_idx_gives_nothing() {
    assert!(decode_envelope("{\"transaction_id\":\"t\",\"camera_idx\":0,\"data\":{}}").is_none());
}

#[test]
fn decode_rejects_what_is_no_envelope() {
    let bad = [
        "",
        "not json",
        "[]",
        "\"text\"",
        "{}",
        "{\"camera_idx\":0,\"cmd_idx\":0,\"data\":{}}",
        "{\"transaction_id\":\"t\",\"cmd_idx\":0,\"data\":{}}",
        "{\"transaction_id\":\"t\",\"camera_idx\":0,\"cmd_idx\":0}",
        "{\"transaction_id\":7,\"camera_idx\":0,\"cmd_idx\":0,\"data\":{}}",
        "{\"transaction_id\":\"t\",\"camera_idx\":\"0\",\"cmd_idx\":0,\"data\":{}}",
        "{\"transaction_id\":\"t\",\"camera_idx\":0.5,\"cmd_idx\":0,\"data\":{}}",
        "{\"transaction_id\":\"t\",\"camera_idx\":0,\"cmd_idx\":2147483648,\"data\":{}}",
        "{\"transaction_id\":\"t\",\"camera_idx\":-2147483649,\"cmd_idx\":0,\"data\":{}}",
        "{\"transaction_id\":\"t\",\"camera_idx\":0,\"cmd_idx\":0,\"data\":[]}",
        "{\"transaction_id\":\"t\",\"camera_idx\":0,\"cmd_idx\":0,\"data\":{\"value\":5}}",
        "{\"transaction_id\":\"t\",\"camera_idx\":0,\"cmd_idx\":0,\"data\":{\"a\":\"b\",\"c\":null}}",
        "{\"transaction_id\":\"t\",\"camera_idx\":0,\"cmd_idx\":0,\"data\":{}",
    ];
    for text in bad {
        assert!(decode_envelope(text).is_none(), "{}", text);
    }
}

#[test]
fn decode_takes_the_widest_indices() {
    let p = decode_envelope(
        "{\"transaction_id\":\"\",\"camera_idx\":2147483647,\"cmd_idx\":-2147483648,\"data\":{}}",
    ).unwrap();
    assert_eq!(p.transaction_id, "");
    assert_eq!(p.camera_idx, i32::MAX);
    assert_eq!(p.cmd_idx, i32::MIN);
}

#[test]
fn decode_document_reads_a_built_tree() {
    let doc = Json::Object(vec![
        (String::from("cmd_idx"), Json::Number(Some(3))),
        (String::from("data"), Json::Object(vec![(String::from("ctrl_type"), Json::Text(String::from("1")))])),
        (String::from("camera_idx"), Json::Number(Some(0))),
        (String::from("transaction_id"), Json::Text(String::from("x"))),
    ]);
    let p = decode_document(&doc).unwrap();
    assert_eq!(p.transaction_id, "x");
    assert_eq!(p.camera_idx, 0);
    assert_eq!(p.cmd_idx, 3);
    assert_eq!(p.data.get("ctrl_type"), Some(&String::from("1")));
    assert!(decode_document(&Json::Array(vec![])).is_none());
    assert!(decode_document(&Json::Null).is_none());
    let no_number = Json::Object(vec![
        (String::from("cmd_idx"), Json::Number(None)),
        (String::from("data"), Json::Object(vec![])),
        (String::from("camera_idx"), Json::Number(Some(0))),
        (String::from("transaction_id"), Json::Text(String::from("x"))),
    ]);
    assert!(decode_document(&no_number).is_none());
}

#[test]
fn decode_document_takes_the_first_of_two_members() {
    let doc = Json::Object(vec![
        (String::from("cmd_idx"), Json::Number(Some(3))),
        (String::from("cmd_idx"), Json::Number(Some(4))),
        (String::from("data"), Json::Object(vec![
            (String::from("k"), Json::Text(String::from("first"))),
            (String::from("k"), Json::Text(String::from("second"))),
        ])),
        (String::from("camera_idx"), Json::Number(Some(0))),
        (String::from("transaction_id"), Json::Text(String::from("x"))),
    ]);
    let p = decode_document(&doc).unwrap();
    assert_eq!(p.cmd_idx, 3);
    assert_eq!(p.data.get("k"), Some(&String::from("second")));
}

#[test]
fn roi_text_is_exact() {
    let roi = ROIFormat { startx: 0, starty: 0, width: 1912, height: 1304, bin: 1, img_type: 0 };
    assert_eq!(encode_roi(&roi),
        "{\"startx\":0,\"starty\":0,\"width\":1912,\"height\":1304,\"bin\":1,\"img_type\":0}");
    let roi = ROIFormat { startx: u32::MAX, starty: 7, width: 8, height: 9, bin: 255, img_type: 255 };
    assert_eq!(encode_roi(&roi),
        "{\"startx\":4294967295,\"starty\":7,\"width\":8,\"height\":9,\"bin\":255,\"img_type\":255}");
}

#[test]
fn control_text_is_exact() {
    assert_eq!(encode_control(3, 0), "{\"ctrl_type\":\"3\",\"value\":\"0\"}");
    assert_eq!(encode_control(18, -25), "{\"ctrl_type\":\"18\",\"value\":\"-25\"}");
    assert_eq!(encode_control(0, i64::MIN), "{\"ctrl_type\":\"0\",\"value\":\"-9223372036854775808\"}");
}

#[test]
fn device_count_text_is_exact() {
    assert_eq!(encode_device_count(0), "{\"num_device\":\"0\"}");
    assert_eq!(encode_device_count(12), "{\"num_device\":\"12\"}");
}

#[test]
fn info_text_is_exact() {
    let info = MockCamera::new(3).get_info();
    assert_eq!(encode_info(&info), Ok(String::from(
        "{\"name\":\"Mock Camera\",\"idx\":3,\"max_width\":1912,\"max_height\":1304,\"supported_img_type\":[\"RAW8\",\"RAW16\"],\"supported_bins\":[1,2,4,8],\"is_coolable\":false}")));
    let bare = CameraInfo {
        name: String::from("a\"b"),
        idx: 0,
        max_width: 1,
        max_height: 2,
        supported_img_type: vec![],
        supported_bins: vec![],
        is_coolable: true,
    };
    assert_eq!(encode_info(&bare), Ok(String::from(
        "{\"name\":\"a\\\"b\",\"idx\":0,\"max_width\":1,\"max_height\":2,\"supported_img_type\":[],\"supported_bins\":[],\"is_coolable\":true}")));
    let one = CameraInfo {
        name: String::new(),
        idx: 0,
        max_width: 1,
        max_height: 2,
        supported_img_type: vec![ImgType::END],
        supported_bins: vec![3],
        is_coolable: false,
    };
    assert_eq!(encode_info(&one), Ok(String::from(
        "{\"name\":\"\",\"idx\":0,\"max_width\":1,\"max_height\":2,\"supported_img_type\":[\"END\"],\"supported_bins\":[3],\"is_coolable\":false}")));
}

#[test]
fn frame_text_is_exact() {
    assert_eq!(encode_frame("QUJD"), Ok(String::from("{\"frame\":\"QUJD\"}")));
    assert_eq!(encode_frame(""), Ok(String::from("{\"frame\":\"\"}")));
}

#[test]
fn payload_text_of_every_kind() {
    assert_eq!(encode_payload(&ResultPayload::Empty), Ok(String::from("{}")));
    assert_eq!(encode_payload(&ResultPayload::NoSuchDevice),
        Ok(String::from("{\"error\":\"no such device\"}")));
    assert_eq!(encode_payload(&ResultPayload::DeviceCount(2)),
        Ok(String::from("{\"num_device\":\"2\"}")));
    assert_eq!(encode_payload(&ResultPayload::Control { ctrl_type: 1, value: 9 }),
        Ok(String::from("{\"ctrl_type\":\"1\",\"value\":\"9\"}")));
    assert_eq!(encode_payload(&ResultPayload::Frame(String::from("AA=="))),
        Ok(String::from("{\"frame\":\"AA==\"}")));
    assert_eq!(encode_payload(&ResultPayload::Roi(
        ROIFormat { startx: 1, starty: 2, width: 3, height: 4, bin: 5, img_type: 6 })),
        Ok(String::from("{\"startx\":1,\"starty\":2,\"width\":3,\"height\":4,\"bin\":5,\"img_type\":6}")));
}

#[test]
fn response_text_is_exact() {
    assert_eq!(gen_responce(&String::from("t1"), &0, &2, String::from("{}")),
        Ok(String::from("{\"transaction_id\":\"t1\",\"camera_idx\":\"0\",\"cmd_idx\":\"2\",\"data\":\"{}\"}")));
    assert_eq!(gen_responce(&String::from("a\"b"), &-1, &8, String::from("{\"num_device\":\"2\"}")),
        Ok(String::from("{\"transaction_id\":\"a\\\"b\",\"camera_idx\":\"-1\",\"cmd_idx\":\"8\",\"data\":\"{\\\"num_device\\\":\\\"2\\\"}\"}")));
}

#[test]
fn response_text_reads_back_as_json() {
    let response = ResponseEnvelope {
        transaction_id: String::from("id \\ \"7\""),
        camera_idx: 4,
        cmd_idx: 2,
        data: ResultPayload::Roi(ROIFormat { startx: 1, starty: 2, width: 3, height: 4, bin: 1, img_type: 0 }),
    };
    let text = encode_response(&response).unwrap();
    let value: serde_json::Value = serde_json::from_str(&text).unwrap();
    assert_eq!(value["transaction_id"].as_str(), Some("id \\ \"7\""));
    assert_eq!(value["camera_idx"].as_str(), Some("4"));
    assert_eq!(value["cmd_idx"].as_str(), Some("2"));
    let data: serde_json::Value = serde_json::from_str(value["data"].as_str().unwrap()).unwrap();
    assert_eq!(data["startx"].as_u64(), Some(1));
    assert_eq!(data["starty"].as_u64(), Some(2));
    assert_eq!(data["width"].as_u64(), Some(3));
    assert_eq!(data["height"].as_u64(), Some(4));
    assert_eq!(data["bin"].as_u64(), Some(1));
    assert_eq!(data["img_type"].as_u64(), Some(0));
}

#[test]
fn reply_names_the_request() {
    let p = Payload::new(String::from("tx"), 5, 42, ParamMap::new());
    let r = p.reply(ResultPayload::Empty);
    assert_eq!(r, ResponseEnvelope {
        transaction_id: String::from("tx"),
        camera_idx: 5,
        cmd_idx: 42,
        data: ResultPayload::Empty,
    });
}
