//! One step of the publishing loop: from a raw frame to the topic and the
//! reading to publish under it.

use vstd::prelude::*;
use vstd::string::*;
use crate::frame::{FrameError, frame_is_valid, parse_data, record_of};
use crate::reading::{Reading, interpret, spec_interpret};

verus! {

/// `co2/<device id>/SENSOR/<quantity name>`.
pub open spec fn spec_topic(device_id: Seq<char>, name: Seq<char>) -> Seq<char> {
    "co2/"@ + device_id + "/SENSOR/"@ + name
}

/// The topic under which a reading named `name` from `device_id` is published.
pub fn topic(device_id: &str, name: &str) -> (r: String)
    ensures
        r@ == spec_topic(device_id@, name@),
{
    let mut t = String::from_str("co2/");
    t.append(device_id);
    t.append("/SENSOR/");
    t.append(name);
    t
}

/// The device identifier to publish under: the configured one, else `monitor`.
pub fn device_id_or_default(configured: Option<String>) -> (r: String)
    ensures
        configured matches Some(s) ==> r@ == s@,
        configured is None ==> r@ == "monitor"@,
{
    match configured {
        Some(s) => s,
        None => String::from_str("monitor"),
    }
}

/// What one frame gives to publish: the reading and its topic.
pub struct Publication {
    pub topic: String,
    pub reading: Reading,
}

/// Decodes and interprets one raw frame from the device `device_id`.
///
/// Fails exactly when the frame does not pass validation, carrying the frame.
pub fn prepare(device_id: &str, buf: &[u8; 8]) -> (r: Result<Publication, FrameError>)
    ensures
        r is Ok <==> frame_is_valid(buf@),
        r matches Ok(p) ==> p.reading == spec_interpret(record_of(buf@)),
        r matches Ok(p) ==> p.topic@ == spec_topic(device_id@, p.reading.spec_name()),
        r matches Err(e) ==> e.bytes == *buf,
{
    match parse_data(buf) {
        Ok(rec) => {
            let reading = interpret(&rec);
            let name = reading.name();
            let topic = topic(device_id, name.as_str());
            Ok(Publication { topic, reading })
        },
        Err(e) => Err(e),
    }
}

} // verus!
