//! Mapping of relayed input events to the Linux input events written to a
//! virtual input device.

use crate::transport::protocol::input_event::linux::{
    EvKey, EventCode, LinuxInputEvent, REL_WHEEL, REL_X, REL_Y, SYN_REPORT,
};
use crate::transport::protocol::{
    InputEvent, KeyCode, MouseButton, MouseScrollDirection, KEY_CODE_COUNT, MOUSE_BUTTON_COUNT,
};
use crate::input_source::event::{LocalInputEvent, MouseMovement};
use crate::input_source::linux::{keyboard_event, mouse_event};
use crate::transport::protocol::input_event::linux::lemma_key_and_button_codes_disjoint;
use vstd::prelude::*;

verus! {

pub open spec fn event(event_code: EventCode, value: i32) -> LinuxInputEvent {
    LinuxInputEvent { event_code, value }
}

/// The Linux input events that replay `e`, ended by a `SYN_REPORT`.
pub open spec fn linux_events(e: InputEvent) -> Seq<LinuxInputEvent> {
    let es = match e {
        InputEvent::MouseMove { dx, dy } => seq![
            event(EventCode::Rel(REL_X), dx as i32),
            event(EventCode::Rel(REL_Y), dy as i32),
        ],
        InputEvent::MouseButtonDown { button } => seq![
            event(EventCode::Key(EvKey(button.linux_code())), 1),
        ],
        InputEvent::MouseButtonUp { button } => seq![
            event(EventCode::Key(EvKey(button.linux_code())), 0),
        ],
        InputEvent::MouseScroll { direction: MouseScrollDirection::Up { clicks } } => seq![
            event(EventCode::Rel(REL_WHEEL), clicks as i32),
        ],
        InputEvent::MouseScroll { direction: MouseScrollDirection::Down { clicks } } => seq![
            event(EventCode::Rel(REL_WHEEL), (-(clicks as int)) as i32),
        ],
        InputEvent::KeyDown { key } => seq![event(EventCode::Key(EvKey(key.linux_code())), 1)],
        InputEvent::KeyRepeat { key } => seq![event(EventCode::Key(EvKey(key.linux_code())), 2)],
        InputEvent::KeyUp { key } => seq![event(EventCode::Key(EvKey(key.linux_code())), 0)],
    };
    es.push(event(EventCode::Syn(SYN_REPORT), 0))
}

/// The Linux input events (without time stamps) that replay a relayed event.
pub fn to_linux_events(e: InputEvent) -> (r: Vec<LinuxInputEvent>)
    ensures
        r@ == linux_events(e),
{
    let mut es: Vec<LinuxInputEvent> = Vec::new();
    match e {
        InputEvent::MouseMove { dx, dy } => {
            es.push(LinuxInputEvent { event_code: EventCode::Rel(REL_X), value: dx as i32 });
            es.push(LinuxInputEvent { event_code: EventCode::Rel(REL_Y), value: dy as i32 });
        },
        InputEvent::MouseButtonDown { button } => {
            es.push(LinuxInputEvent { event_code: EventCode::Key(button.into()), value: 1 });
        },
        InputEvent::MouseButtonUp { button } => {
            es.push(LinuxInputEvent { event_code: EventCode::Key(button.into()), value: 0 });
        },
        InputEvent::MouseScroll { direction: MouseScrollDirection::Up { clicks } } => {
            es.push(
                LinuxInputEvent { event_code: EventCode::Rel(REL_WHEEL), value: clicks as i16 as i32 },
            );
        },
        InputEvent::MouseScroll { direction: MouseScrollDirection::Down { clicks } } => {
            es.push(
                LinuxInputEvent {
                    event_code: EventCode::Rel(REL_WHEEL),
                    value: -(clicks as i16) as i32,
                },
            );
        },
        InputEvent::KeyDown { key } => {
            es.push(LinuxInputEvent { event_code: EventCode::Key(key.into()), value: 1 });
        },
        InputEvent::KeyRepeat { key } => {
            es.push(LinuxInputEvent { event_code: EventCode::Key(key.into()), value: 2 });
        },
        InputEvent::KeyUp { key } => {
            es.push(LinuxInputEvent { event_code: EventCode::Key(key.into()), value: 0 });
        },
    }
    es.push(LinuxInputEvent { event_code: EventCode::Syn(SYN_REPORT), value: 0 });
    assert(es@ =~= linux_events(e));
    es
}

/// The `EV_KEY` codes a virtual input device enables: every mouse button,
/// then every key, in declaration order.
pub open spec fn device_key_codes() -> Seq<EvKey> {
    Seq::new(MOUSE_BUTTON_COUNT as nat, |i: int| EvKey(MouseButton::of_ordinal(i as u8)->0.linux_code()))
        + Seq::new(KEY_CODE_COUNT as nat, |i: int| EvKey(KeyCode::of_ordinal(i as u16)->0.linux_code()))
}

/// The `EV_KEY` codes to enable on the virtual input device.
pub fn virtual_device_key_codes() -> (r: Vec<EvKey>)
    ensures
        r@ == device_key_codes(),
{
    let mut codes: Vec<EvKey> = Vec::new();
    let mut i: u8 = 0;
    while i < MOUSE_BUTTON_COUNT
        invariant
            i <= MOUSE_BUTTON_COUNT,
            codes@ =~= Seq::new(i as nat, |j: int| EvKey(MouseButton::of_ordinal(j as u8)->0.linux_code())),
        decreases MOUSE_BUTTON_COUNT - i,
    {
        let b = MouseButton::from_repr(i);
        match b {
            Some(b) => codes.push(b.into()),
            None => {},
        }
        i = i + 1;
    }
    let ghost n = codes@.len();
    let mut k: u16 = 0;
    while k < KEY_CODE_COUNT
        invariant
            k <= KEY_CODE_COUNT,
            n == MOUSE_BUTTON_COUNT,
            codes@ =~= Seq::new(MOUSE_BUTTON_COUNT as nat, |j: int| EvKey(MouseButton::of_ordinal(j as u8)->0.linux_code()))
                + Seq::new(k as nat, |j: int| EvKey(KeyCode::of_ordinal(j as u16)->0.linux_code())),
        decreases KEY_CODE_COUNT - k,
    {
        let key = KeyCode::from_repr(k);
        match key {
            Some(key) => codes.push(key.into()),
            None => {},
        }
        k = k + 1;
    }
    codes
}

/// A key or button event, or an upward wheel turn, read from a Linux device,
/// relayed, and replayed on the client's virtual device reads back as the
/// same event: the first Linux event of the replay maps to it.
pub proof fn lemma_linux_replay_reads_back(e: LocalInputEvent)
    requires
        e.relayed() is Some,
        !(e is MouseMove),
        e matches LocalInputEvent::MouseScroll { direction } ==> direction matches MouseScrollDirection::Up {
            clicks,
        } && clicks > 0,
    ensures
        e is MouseScroll ==> mouse_event(linux_events(e.relayed()->0)[0]) == Some(e),
        !(e is MouseScroll) ==> keyboard_event(linux_events(e.relayed()->0)[0]) == Some(e),
{
    match e {
        LocalInputEvent::MouseButtonDown { button } | LocalInputEvent::MouseButtonUp { button } => {
            button.lemma_linux_code_inverse();
            KeyCode::lemma_of_linux_code_sound(button.linux_code());
            if let Some(k) = KeyCode::of_linux_code(button.linux_code()) {
                lemma_key_and_button_codes_disjoint(k, button);
            }
        },
        LocalInputEvent::KeyDown { key } | LocalInputEvent::KeyRepeat { key }
        | LocalInputEvent::KeyUp { key } => {
            key.lemma_linux_code_inverse();
            MouseButton::lemma_of_linux_code_sound(key.linux_code());
            if let Some(b) = MouseButton::of_linux_code(key.linux_code()) {
                lemma_key_and_button_codes_disjoint(key, b);
            }
        },
        LocalInputEvent::MouseScroll { direction } => {
            if let MouseScrollDirection::Up { clicks } = direction {
                assert((clicks as i32) as u8 == clicks) by (bit_vector);
            }
        },
        _ => {},
    }
}

/// A relayed movement is replayed on Linux as the same relative movement:
/// its horizontal and vertical amounts, then the end of the group.
pub proof fn lemma_relayed_movement_replays_as_movement(dx: i16, dy: i16)
    ensures
        ({
            let e = LocalInputEvent::MouseMove(MouseMovement { dx, dy });
            linux_events(e.relayed()->0) == seq![
                LinuxInputEvent { event_code: EventCode::Rel(REL_X), value: dx as i32 },
                LinuxInputEvent { event_code: EventCode::Rel(REL_Y), value: dy as i32 },
                LinuxInputEvent { event_code: EventCode::Syn(SYN_REPORT), value: 0 },
            ]
        }),
{
    let e = LocalInputEvent::MouseMove(MouseMovement { dx, dy });
    assert(linux_events(e.relayed()->0) =~= seq![
        LinuxInputEvent { event_code: EventCode::Rel(REL_X), value: dx as i32 },
        LinuxInputEvent { event_code: EventCode::Rel(REL_Y), value: dy as i32 },
        LinuxInputEvent { event_code: EventCode::Syn(SYN_REPORT), value: 0 },
    ]);
}

} // verus!
