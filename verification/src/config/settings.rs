use vstd::prelude::*;

verus! {

/// Ports and latency of the media paths.
pub struct Settings {
    pub udp_port: u16,
    pub ws_port: u16,
    pub airplay_port: u16,
    pub target_latency_ms: u32,
}

impl Default for Settings {
    fn default() -> (r: Self)
        ensures
            r.udp_port == 5001,
            r.ws_port == 5000,
            r.airplay_port == 5002,
            r.target_latency_ms == 100,
    {
        Settings { udp_port: 5001, ws_port: 5000, airplay_port: 5002, target_latency_ms: 100 }
    }
}

} // verus!
