//! The closed event vocabulary delivered to host callbacks, and the one
//! exhaustive translation table from the native layer's raw notification
//! codes to it. An unrecognized code yields no event: a deliberate
//! compatibility policy towards native-side additions, not an error.

use vstd::prelude::*;

verus! {

/// Raw notification code: no event was pending.
pub const EVENT_NONE: u32 = 0;

/// Raw notification code: the surface's window is closing.
pub const EVENT_QUIT: u32 = 1;

/// Raw notification code: the page's document finished loading.
pub const EVENT_DOM_CONTENT_LOADED: u32 = 2;

/// Raw notification code: page script sent a message to the host; the
/// notification carries the message as its payload.
pub const EVENT_SCRIPT_NOTIFY: u32 = 3;

/// Async notifications from the native rendering surface.
///
/// Values of this type are produced only by event translation; host code
/// consumes them and never constructs them to feed back in.
#[derive(Debug, Clone, PartialEq, Eq)]
pub enum Event {
    /// The surface's window was closed.
    Quit,
    /// The DOMContentLoaded event fired on the page.
    DOMContentLoaded,
    /// Script on the page sent the host a message.
    ScriptNotify(String),
}

/// The translation table as a mathematical function: which event, if any, a
/// raw (code, payload) pair stands for. A `ScriptNotify` code whose payload
/// is missing is treated like an unrecognized code and dropped.
pub open spec fn spec_translate(code: u32, payload: Option<String>) -> Option<Event> {
    if code == EVENT_QUIT {
        Some(Event::Quit)
    } else if code == EVENT_DOM_CONTENT_LOADED {
        Some(Event::DOMContentLoaded)
    } else if code == EVENT_SCRIPT_NOTIFY {
        match payload {
            Some(p) => Some(Event::ScriptNotify(p)),
            None => None,
        }
    } else {
        None
    }
}

/// Translates one raw (code, payload) notification into the event
/// vocabulary, exactly as `spec_translate` says: quit, page-loaded and
/// script-notify codes map to their events, and every other code maps to no
/// event.
pub fn translate_event(code: u32, payload: Option<String>) -> (r: Option<Event>)
    ensures
        r == spec_translate(code, payload),
{
    if code == EVENT_QUIT {
        Some(Event::Quit)
    } else if code == EVENT_DOM_CONTENT_LOADED {
        Some(Event::DOMContentLoaded)
    } else if code == EVENT_SCRIPT_NOTIFY {
        match payload {
            Some(p) => Some(Event::ScriptNotify(p)),
            None => None,
        }
    } else {
        None
    }
}

} // verus!
