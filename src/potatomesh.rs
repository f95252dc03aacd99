use vstd::prelude::*;

verus! {

/// One text message as reported by the PotatoMesh API, reduced to the
/// fields that the bridge reads.
#[derive(Clone, Debug)]
pub struct PotatoMessage {
    pub id: u64,
    /// Receipt time at the mesh gateway, in seconds.
    pub rx_time: u64,
    pub rx_iso: String,
    pub from_id: String,
    pub to_id: String,
    pub channel: u8,
    pub portnum: Option<String>,
    pub text: String,
    pub rssi: Option<i16>,
    pub hop_limit: Option<u8>,
    pub lora_freq: u32,
    pub modem_preset: String,
    pub channel_name: String,
    pub reply_id: Option<u64>,
    pub node_id: String,
}

/// Metadata of one mesh node, reduced to its non-positional fields.
#[derive(Clone, Debug)]
pub struct PotatoNode {
    pub node_id: String,
    pub short_name: Option<String>,
    pub long_name: String,
    pub role: Option<String>,
    pub hw_model: Option<String>,
    pub last_heard: Option<u64>,
    pub first_heard: Option<u64>,
}

} // verus!
