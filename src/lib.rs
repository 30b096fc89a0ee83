//! Decoding of the sensor's fixed-size binary frames into readings, and the
//! names and topics under which those readings are published.

pub mod frame;
pub mod text;
pub mod reading;
pub mod pipeline;
