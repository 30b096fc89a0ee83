use co2mqtt::frame::{parse_data, Record};
use co2mqtt::pipeline::{device_id_or_default, prepare, topic};
use co2mqtt::reading::{interpret, Reading, Value};

#[test]
fn temperature_frame() {
    let rec = parse_data(&[0x42, 0x13, 0x88, 0xDD, 0x0D, 0, 0, 0]).unwrap();
    assert_eq!(rec.low, 5000);
    let reading = interpret(&rec);
    assert_eq!(reading, Reading::Known(Value::Temp(5000)));
    assert_eq!(reading.name(), "temp");
}

#[test]
fn co2_frame() {
    let rec = parse_data(&[0x50, 0x01, 0x90, 0xE1, 0x0D, 0, 0, 0]).unwrap();
    let reading = interpret(&rec);
    assert_eq!(reading, Reading::Known(Value::CO2(400)));
    assert_eq!(reading.name(), "co2");
    assert_eq!(rec.decode(), Some(Value::CO2(400)));
}

#[test]
fn unknown_opcode_frame() {
    // 0x99 + 0x00 + 0x01 = 0x9A
    let rec = parse_data(&[0x99, 0x00, 0x01, 0x9A, 0x0D, 0, 0, 0]).unwrap();
    assert_eq!(rec.decode(), None);
    let reading = interpret(&rec);
    assert_eq!(reading, Reading::Unknown { op: 0x99, raw: 1 });
    assert_eq!(reading.name(), "unknown_0x99");
}

#[test]
fn unknown_names_use_two_lowercase_digits() {
    assert_eq!(interpret(&Record { op: 0x05, low: 3 }).name(), "unknown_0x05");
    assert_eq!(interpret(&Record { op: 0xAB, low: 3 }).name(), "unknown_0xab");
    assert_eq!(interpret(&Record { op: 0x00, low: 0 }).name(), "unknown_0x00");
}

#[test]
fn every_opcode_is_interpreted() {
    for op in 0u16..=255 {
        let op = op as u8;
        let reading = interpret(&Record { op, low: 7 });
        match op {
            0x42 => assert_eq!(reading, Reading::Known(Value::Temp(7))),
            0x50 => assert_eq!(reading, Reading::Known(Value::CO2(7))),
            _ => {
                assert_eq!(reading, Reading::Unknown { op, raw: 7 });
                assert_eq!(reading.name(), format!("unknown_0x{:02x}", op));
            }
        }
    }
}

#[test]
fn value_names() {
    assert_eq!(Value::CO2(1).name(), "co2");
    assert_eq!(Value::Temp(1).name(), "temp");
}

#[test]
fn topic_for_kitchen_co2() {
    assert_eq!(topic("kitchen", "co2"), "co2/kitchen/SENSOR/co2");
    assert_eq!(topic("", "temp"), "co2//SENSOR/temp");
}

#[test]
fn device_id_defaults_to_monitor() {
    assert_eq!(device_id_or_default(None), "monitor");
    assert_eq!(device_id_or_default(Some("kitchen".to_string())), "kitchen");
}

#[test]
fn prepare_builds_topic_and_reading() {
    let p = prepare("kitchen", &[0x50, 0x01, 0x90, 0xE1, 0x0D, 0, 0, 0]).unwrap();
    assert_eq!(p.topic, "co2/kitchen/SENSOR/co2");
    assert_eq!(p.reading, Reading::Known(Value::CO2(400)));
    let p = prepare("monitor", &[0x99, 0x00, 0x01, 0x9A, 0x0D, 1, 2, 3]).unwrap();
    assert_eq!(p.topic, "co2/monitor/SENSOR/unknown_0x99");
    assert_eq!(p.reading, Reading::Unknown { op: 0x99, raw: 1 });
}

#[test]
fn prepare_rejects_invalid_frame() {
    let buf = [0x42, 0x13, 0x88, 0xDD, 0x00, 0, 0, 0];
    let err = prepare("kitchen", &buf).err().unwrap();
    assert_eq!(err.bytes, buf);
}
