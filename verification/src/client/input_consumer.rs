//! Replay of relayed events on a Linux virtual device that only knows
//! relative movements and the space bar.

use crate::protocol::input_event::InputEvent;
use crate::transport::protocol::input_event::linux::{
    EvKey, EventCode, LinuxInputEvent, REL_X, REL_Y, SYN_REPORT,
};
use vstd::prelude::*;

verus! {

/// Linux `EV_KEY` code of the space bar.
pub const KEY_SPACE: u16 = 57;

/// The Linux input events that replay `e`, ended by a `SYN_REPORT`: a
/// movement is replayed as such, any key press as a press of the space bar.
pub open spec fn consumer_events(e: InputEvent) -> Seq<LinuxInputEvent> {
    match e {
        InputEvent::MouseMove { dx, dy } => seq![
            LinuxInputEvent { event_code: EventCode::Rel(REL_X), value: dx },
            LinuxInputEvent { event_code: EventCode::Rel(REL_Y), value: dy },
            LinuxInputEvent { event_code: EventCode::Syn(SYN_REPORT), value: 0 },
        ],
        _ => seq![
            LinuxInputEvent { event_code: EventCode::Key(EvKey(KEY_SPACE)), value: 1 },
            LinuxInputEvent { event_code: EventCode::Syn(SYN_REPORT), value: 0 },
        ],
    }
}

/// The Linux input events (without time stamps) that replay a movement or a
/// key press.
pub fn to_consumer_events(e: InputEvent) -> (r: Vec<LinuxInputEvent>)
    requires
        e is MouseMove || e is KeyDown,
    ensures
        r@ == consumer_events(e),
{
    let mut es: Vec<LinuxInputEvent> = Vec::new();
    match e {
        InputEvent::MouseMove { dx, dy } => {
            es.push(LinuxInputEvent { event_code: EventCode::Rel(REL_X), value: dx });
            es.push(LinuxInputEvent { event_code: EventCode::Rel(REL_Y), value: dy });
        },
        _ => {
            es.push(LinuxInputEvent { event_code: EventCode::Key(EvKey(KEY_SPACE)), value: 1 });
        },
    }
    es.push(LinuxInputEvent { event_code: EventCode::Syn(SYN_REPORT), value: 0 });
    assert(es@ =~= consumer_events(e));
    es
}

} // verus!
