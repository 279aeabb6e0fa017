//! The button events of a Linux virtual input device.

use crate::input::{
    click_plan, click_steps, ClickAction, InputStep, MouseButton, DOUBLE_CLICK_GAP_MS,
};
use evdev::{EventType, InputEvent, KeyCode};
use vstd::prelude::*;

verus! {

/// `evdev::InputEvent`, carried through as a value that is not looked into.
#[verifier::external_type_specification]
#[verifier::external_body]
pub struct ExInputEvent(InputEvent);

/// The event that `evdev::InputEvent::new` builds from an event type, a code
/// and a value.
pub uninterp spec fn input_event_of(kind: u16, code: u16, value: i32) -> InputEvent;

/// `evdev::InputEvent::new`: the event holds the three arguments and a zero
/// timestamp, so it is a function of the arguments alone.
pub assume_specification[ InputEvent::new ](type_: u16, code: u16, value: i32) -> (event:
    InputEvent)
    ensures
        event == input_event_of(type_, code, value),
;

/// The kernel's type number of key and button events.
pub const EV_KEY: u16 = 0x01;

/// The kernel's code of the left button.
pub const BTN_LEFT: u16 = 0x110;

/// The kernel's code of the right button.
pub const BTN_RIGHT: u16 = 0x111;

/// The kernel's code of the middle button.
pub const BTN_MIDDLE: u16 = 0x112;

/// The value of a key event that presses.
pub const KEY_DOWN: i32 = 1;

/// The value of a key event that releases.
pub const KEY_UP: i32 = 0;

/// `evdev::EventType::KEY`: its number is 1.
#[verifier::external_body]
fn key_event_type() -> (kind: u16)
    ensures
        kind == EV_KEY,
{
    EventType::KEY.0
}

/// `evdev::KeyCode::BTN_LEFT`: its code is 0x110.
#[verifier::external_body]
fn left_button_code() -> (code: u16)
    ensures
        code == BTN_LEFT,
{
    KeyCode::BTN_LEFT.code()
}

/// `evdev::KeyCode::BTN_RIGHT`: its code is 0x111.
#[verifier::external_body]
fn right_button_code() -> (code: u16)
    ensures
        code == BTN_RIGHT,
{
    KeyCode::BTN_RIGHT.code()
}

/// `evdev::KeyCode::BTN_MIDDLE`: its code is 0x112.
#[verifier::external_body]
fn middle_button_code() -> (code: u16)
    ensures
        code == BTN_MIDDLE,
{
    KeyCode::BTN_MIDDLE.code()
}

/// The key code by which the kernel knows a button.
pub open spec fn spec_button_to_key(button: MouseButton) -> u16 {
    match button {
        MouseButton::Left => BTN_LEFT,
        MouseButton::Right => BTN_RIGHT,
        MouseButton::Middle => BTN_MIDDLE,
    }
}

/// The key code by which the kernel knows a button.
pub fn button_to_key(button: MouseButton) -> (code: u16)
    ensures
        code == spec_button_to_key(button),
{
    match button {
        MouseButton::Left => left_button_code(),
        MouseButton::Right => right_button_code(),
        MouseButton::Middle => middle_button_code(),
    }
}

/// Every key code that a virtual device must announce to be able to click:
/// one for each button.
pub fn button_keys() -> (codes: [u16; 3])
    ensures
        codes@ == seq![BTN_LEFT, BTN_RIGHT, BTN_MIDDLE],
        forall|button: MouseButton| codes@.contains(#[trigger] spec_button_to_key(button)),
{
    let codes = [left_button_code(), right_button_code(), middle_button_code()];
    assert(codes@ =~= seq![BTN_LEFT, BTN_RIGHT, BTN_MIDDLE]);
    assert forall|button: MouseButton| codes@.contains(#[trigger] spec_button_to_key(button)) by {
        match button {
            MouseButton::Left => assert(codes@[0] == BTN_LEFT),
            MouseButton::Right => assert(codes@[1] == BTN_RIGHT),
            MouseButton::Middle => assert(codes@[2] == BTN_MIDDLE),
        }
    }
    codes
}

/// The events of one click of a button: a press, then a release, of the
/// button's key.
pub open spec fn click_events(button: MouseButton) -> Seq<InputEvent> {
    seq![
        input_event_of(EV_KEY, spec_button_to_key(button), KEY_DOWN),
        input_event_of(EV_KEY, spec_button_to_key(button), KEY_UP),
    ]
}

/// The events of one click of a button, in the order in which the device
/// emits them, each in a report of its own.
pub fn build_click_events(button: MouseButton) -> (events: Vec<InputEvent>)
    ensures
        events@ == click_events(button),
{
    let kind = key_event_type();
    let code = button_to_key(button);
    let mut events: Vec<InputEvent> = Vec::new();
    events.push(InputEvent::new(kind, code, KEY_DOWN));
    events.push(InputEvent::new(kind, code, KEY_UP));
    assert(events@ =~= click_events(button));
    events
}

/// One step of a click on a virtual device, as the host program performs
/// it.
#[derive(Clone, Copy, Debug, PartialEq)]
pub enum DeviceStep {
    /// Emit this event in a report of its own.
    Emit(InputEvent),
    /// Do nothing for this many milliseconds.
    Pause(u64),
}

/// What a step of a click comes to on a virtual device: a click is a press
/// and a release, a pause stays a pause.
pub open spec fn step_script(step: InputStep) -> Seq<DeviceStep> {
    match step {
        InputStep::Click(button) => seq![
            DeviceStep::Emit(click_events(button)[0]),
            DeviceStep::Emit(click_events(button)[1]),
        ],
        InputStep::Pause(millis) => seq![DeviceStep::Pause(millis)],
    }
}

/// What a run of steps comes to on a virtual device, step after step.
pub open spec fn script_of(steps: Seq<InputStep>) -> Seq<DeviceStep>
    decreases steps.len(),
{
    if steps.len() == 0 {
        Seq::empty()
    } else {
        script_of(steps.drop_last()) + step_script(steps.last())
    }
}

/// Everything that a virtual device does for one click of a button, single
/// or double, in order. The host program performs the steps one by one and
/// gives up at the first that fails.
pub fn click_script(button: MouseButton, action: ClickAction) -> (script: Vec<DeviceStep>)
    ensures
        script@ == script_of(click_steps(button, action)),
{
    let plan = click_plan(button, action);
    let mut script: Vec<DeviceStep> = Vec::new();
    let mut done: usize = 0;
    while done < plan.len()
        invariant
            done <= plan.len(),
            script@ == script_of(plan@.take(done as int)),
        decreases plan.len() - done,
    {
        let ghost before = script@;
        match plan[done] {
            InputStep::Click(button) => {
                let events = build_click_events(button);
                script.push(DeviceStep::Emit(events[0]));
                script.push(DeviceStep::Emit(events[1]));
            },
            InputStep::Pause(millis) => {
                script.push(DeviceStep::Pause(millis));
            },
        }
        proof {
            let next = plan@.take(done as int + 1);
            assert(next.drop_last() =~= plan@.take(done as int));
            assert(next.last() == plan@[done as int]);
            assert(script@ =~= before + step_script(plan@[done as int]));
        }
        done += 1;
    }
    assert(plan@.take(done as int) =~= plan@);
    script
}

/// On a virtual device a single click is a press and a release of the
/// button's key, and a double click is two single clicks with one pause
/// between them, of the double-click gap.
pub proof fn lemma_double_script_is_two_singles(button: MouseButton)
    ensures
        script_of(click_steps(button, ClickAction::Single)) == seq![
            DeviceStep::Emit(input_event_of(EV_KEY, spec_button_to_key(button), KEY_DOWN)),
            DeviceStep::Emit(input_event_of(EV_KEY, spec_button_to_key(button), KEY_UP)),
        ],
        script_of(click_steps(button, ClickAction::Double)) == script_of(
            click_steps(button, ClickAction::Single),
        ) + seq![DeviceStep::Pause(DOUBLE_CLICK_GAP_MS)] + script_of(
            click_steps(button, ClickAction::Single),
        ),
{
    let single = click_steps(button, ClickAction::Single);
    let double = click_steps(button, ClickAction::Double);
    let two = seq![InputStep::Click(button), InputStep::Pause(DOUBLE_CLICK_GAP_MS)];
    assert(single.drop_last() =~= Seq::<InputStep>::empty());
    assert(double.drop_last() =~= two);
    assert(two.drop_last() =~= single);
    reveal_with_fuel(script_of, 4);
    assert(script_of(single) =~= step_script(InputStep::Click(button)));
    assert(script_of(two) =~= script_of(single) + seq![DeviceStep::Pause(DOUBLE_CLICK_GAP_MS)]);
    assert(script_of(double) =~= script_of(single) + seq![DeviceStep::Pause(DOUBLE_CLICK_GAP_MS)]
        + script_of(single));
    assert(script_of(single) =~= seq![
        DeviceStep::Emit(input_event_of(EV_KEY, spec_button_to_key(button), KEY_DOWN)),
        DeviceStep::Emit(input_event_of(EV_KEY, spec_button_to_key(button), KEY_UP)),
    ]);
}

} // verus!
