//! Common control-plane protocol spoken between PC and Android.
//!
//! Transport: a TLS stream carrying newline-delimited JSON, one message per
//! line. The control plane covers pairing, calls, media state and SMS; raw
//! audio is out of scope here.
//!
//! Trust model: both sides own a persistent self-signed certificate. The
//! SHA-256 fingerprint of that certificate travels inside Hello/HelloAck so
//! each side can pin and verify the peer (see `pairing::trust`).
use vstd::prelude::*;

verus! {

/// Version of this protocol.
pub const PROTOCOL_VERSION: u32 = 1;

#[allow(inconsistent_fields)]
pub enum Message {
    Hello {
        device_id: String,
        device_name: String,
        platform: String,
        protocol_version: u32,
        /// SHA-256 hex fingerprint of the sender certificate. Optional on the
        /// wire so older builds still parse, but the PC rejects sessions without it.
        cert_fingerprint: Option<String>,
    },
    HelloAck {
        device_id: String,
        device_name: String,
        trusted: bool,
        /// SHA-256 hex fingerprint of the PC certificate; lets the phone pin the PC.
        cert_fingerprint: String,
    },
    Ping,
    Pong,
    IncomingCall { caller_number: Option<String>, caller_name: Option<String> },
    CallEnded,
    CallAnswer,
    CallDecline,
    /// PC -> Android: hang up an active call (distinct from CallDecline, which
    /// rejects an incoming ringing call).
    CallEnd,
    /// Android -> PC: the call was accepted and is now active.
    CallActive,
    /// PC -> Android: control command for the active media session.
    MediaCommand { command: MediaCommand },
    /// Android -> PC: state of the active media session.
    MediaState {
        package: Option<String>,
        state: MediaPlaybackState,
        title: Option<String>,
        artist: Option<String>,
        album: Option<String>,
    },
    /// Android -> PC: incoming SMS.
    SmsReceived { address: String, body: String, timestamp: i64 },
    /// PC -> Android: send an SMS.
    SmsSend { address: String, body: String },
    /// PC -> Android: request recent incoming SMS history.
    SmsList,
    /// Android -> PC: one item of SMS history.
    SmsItem { id: String, address: String, body: String, timestamp: i64 },
    /// Android -> PC: end of the sms_list response.
    SmsListEnd { count: u32 },
    SmsSent { address: String, body: String },
    SmsError { error: String },
    /// Android -> PC: start relaying the PC microphone to the phone.
    MicStart,
    /// Android -> PC: stop the microphone relay.
    MicStop,
    PhoneBluetoothStatus { hfp_calls_toggle_enabled: bool },
    PcBluetoothStatus { hfp_supported: HfpSupport },
    Error { message: String },
}

#[derive(Debug, Clone, Copy, PartialEq, Eq, Structural)]
pub enum MediaCommand {
    Play,
    Pause,
    PlayPause,
    Next,
    Previous,
}

#[derive(Debug, Clone, Copy, PartialEq, Eq, Structural)]
pub enum MediaPlaybackState {
    Playing,
    Paused,
    Buffering,
    /// No media session is active ("None" on the wire).
    NoSession,
    Unknown,
}

#[derive(Debug, Clone, Copy, PartialEq, Eq, Structural)]
pub enum HfpSupport {
    Supported,
    Unsupported,
    Unknown,
}

} // verus!
