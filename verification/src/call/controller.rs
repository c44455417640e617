//! Translates authenticated PhoneBridge call commands into platform HFP actions.
use super::hfp::HfpBackend;
use super::CallState;
use crate::protocol::Message;
use vstd::prelude::*;

verus! {

fn copy_text(s: &Option<String>) -> (r: Option<String>)
    ensures
        r == *s,
{
    match s {
        Some(t) => Some(t.clone()),
        None => None,
    }
}

/// The message that tells the phone whether this PC can act as a Hands-Free unit.
pub fn capability_message<B: HfpBackend>(hfp: &B) -> (r: Message)
    ensures
        r == (Message::PcBluetoothStatus { hfp_supported: hfp.spec_support() }),
{
    Message::PcBluetoothStatus { hfp_supported: hfp.support() }
}

/// `r` is the outcome of a call command that the backend answers with
/// `refusal`: on success the call moves to `next` and nothing is sent back;
/// otherwise the backend's reason is the error.
pub open spec fn commanded(
    refusal: Option<Seq<char>>,
    next: CallState,
    r: Result<(Option<CallState>, Option<Message>), String>,
) -> bool {
    match refusal {
        None => r == Ok::<(Option<CallState>, Option<Message>), String>((Some(next), None)),
        Some(reason) => r matches Err(e) && e@ == reason,
    }
}

/// What a call message does: the call state to record (`None`: leave it as it
/// is) and the reply to send back (`None`: no reply), or the backend's refusal.
///
/// An incoming call starts ringing; an answer has the backend answer the call
/// and makes it active; a decline has it decline the call and an ended call has
/// it hang up, both returning to idle; each state change happens only once the
/// backend carried its command out; the phone's Bluetooth status is answered with this PC's
/// capability; any other message changes nothing.
pub fn call_transition<B: HfpBackend>(hfp: &B, message: &Message) -> (r: Result<
    (Option<CallState>, Option<Message>),
    String,
>)
    ensures
        match *message {
            Message::IncomingCall { caller_number, caller_name } => r == Ok::<
                (Option<CallState>, Option<Message>),
                String,
            >((Some(CallState::Ringing { caller_number, caller_name }), None)),
            Message::CallAnswer => commanded(hfp.answer_refusal(), CallState::Active, r),
            Message::CallDecline => commanded(hfp.decline_refusal(), CallState::Idle, r),
            Message::CallEnded => commanded(hfp.end_refusal(), CallState::Idle, r),
            Message::PhoneBluetoothStatus { .. } => r == Ok::<
                (Option<CallState>, Option<Message>),
                String,
            >((None, Some(Message::PcBluetoothStatus { hfp_supported: hfp.spec_support() }))),
            _ => r == Ok::<(Option<CallState>, Option<Message>), String>((None, None)),
        },
{
    match message {
        Message::IncomingCall { caller_number, caller_name } => {
            Ok(
                (
                    Some(
                        CallState::Ringing {
                            caller_number: copy_text(caller_number),
                            caller_name: copy_text(caller_name),
                        },
                    ),
                    None,
                ),
            )
        },
        Message::CallAnswer => {
            match hfp.answer_call() {
                Ok(()) => Ok((Some(CallState::Active), None)),
                Err(e) => Err(e),
            }
        },
        Message::CallDecline => {
            match hfp.decline_call() {
                Ok(()) => Ok((Some(CallState::Idle), None)),
                Err(e) => Err(e),
            }
        },
        Message::CallEnded => {
            match hfp.end_call() {
                Ok(()) => Ok((Some(CallState::Idle), None)),
                Err(e) => Err(e),
            }
        },
        Message::PhoneBluetoothStatus { .. } => Ok((None, Some(capability_message(hfp)))),
        _ => Ok((None, None)),
    }
}

} // verus!
