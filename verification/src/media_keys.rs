//! Operating-system media keys and the actions they send to the frontend,
//! which drives the Web Playback SDK.
use vstd::prelude::*;

verus! {

/// The media keys the app registers.
#[derive(Debug, Clone, Copy, PartialEq, Eq)]
pub enum MediaKey {
    PlayPause,
    Next,
    Previous,
}

/// Name of the event carrying media-key actions to the frontend.
pub const MEDIA_KEY_EVENT: &'static str = "media-key";

/// The action name sent for a key.
pub open spec fn action_name(key: MediaKey) -> Seq<char> {
    match key {
        MediaKey::PlayPause => "playpause"@,
        MediaKey::Next => "next"@,
        MediaKey::Previous => "previous"@,
    }
}

/// The action name sent for a key.
pub fn media_key_action(key: MediaKey) -> (r: &'static str)
    ensures
        r@ == action_name(key),
{
    match key {
        MediaKey::PlayPause => "playpause",
        MediaKey::Next => "next",
        MediaKey::Previous => "previous",
    }
}

/// The action to send for a key event: only presses are forwarded, not
/// releases.
pub fn media_key_event(key: MediaKey, pressed: bool) -> (r: Option<&'static str>)
    ensures
        pressed <==> r is Some,
        r matches Some(a) ==> a@ == action_name(key),
{
    if pressed {
        Some(media_key_action(key))
    } else {
        None
    }
}

} // verus!
