//! An ESP-NOW to MQTT gateway: the wire format, the JSON form and the decisions of the
//! gateway's tasks, each with a proved contract.
pub mod device;
pub mod gateway;
pub mod json;
pub mod light;
pub mod mac;
pub mod packet;
pub mod topic;
