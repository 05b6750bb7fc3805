use mic_mute::{
    hide_on_delivery, AudioController, AudioError, AudioInputDeviceTrait, Coordinator, EventIds,
    Message, TickEvents, Trigger, UiAction, HIDE_DELAY_MILLIS, THROTTLE_TIMEOUT_MILLIS,
};
use std::cell::RefCell;

/// Devices that always comply; records every state they are asked for.
struct Compliant {
    ids: Vec<u32>,
    muted: RefCell<bool>,
    requests: RefCell<Vec<bool>>,
}

impl AudioInputDeviceTrait for Compliant {
    fn input_device_ids(&self) -> Result<Vec<u32>, AudioError> {
        Ok(self.ids.clone())
    }

    fn is_muted(&self, _id: u32) -> Result<bool, AudioError> {
        Ok(*self.muted.borrow())
    }

    fn set_mute(&self, _id: u32, state: bool) -> Result<(), AudioError> {
        self.requests.borrow_mut().push(state);
        *self.muted.borrow_mut() = state;
        Ok(())
    }
}

fn coordinator(muted: bool) -> Coordinator<Compliant> {
    let devices = Compliant {
        ids: vec![1, 2, 3],
        muted: RefCell::new(muted),
        requests: RefCell::new(vec![]),
    };
    Coordinator::new(AudioController::new(devices).unwrap())
}

fn events(poll: bool, toggle: bool, hide: bool, quit: bool) -> TickEvents {
    TickEvents { poll, toggle, hide, quit }
}

#[test]
fn toggle_toggle_then_hide_scenario() {
    let mut c = coordinator(false);
    assert!(!c.muted());
    let a = c.tick_at(events(false, true, false, false), 0);
    assert!(c.muted());
    assert_eq!(a, vec![UiAction::Update(true)]);
    let a = c.tick_at(events(false, true, false, false), 10);
    assert!(!c.muted());
    assert_eq!(a, vec![UiAction::Update(false), UiAction::ScheduleHide]);
    let a = c.tick_at(events(false, false, true, false), 10 + HIDE_DELAY_MILLIS);
    assert_eq!(a, vec![UiAction::Hide]);
    assert!(!c.exited());
}

#[test]
fn stale_hide_after_remute_is_ignored() {
    let mut c = coordinator(true);
    let a = c.tick_at(events(false, true, false, false), 0);
    assert_eq!(a, vec![UiAction::Update(false), UiAction::ScheduleHide]);
    let a = c.tick_at(events(false, true, false, false), 100);
    assert_eq!(a, vec![UiAction::Update(true)]);
    let a = c.tick_at(events(false, false, true, false), HIDE_DELAY_MILLIS);
    assert_eq!(a, vec![]);
    assert!(c.muted());
}

#[test]
fn quit_forces_mute_then_exits() {
    let devices = Compliant {
        ids: vec![1, 2, 3],
        muted: RefCell::new(false),
        requests: RefCell::new(vec![]),
    };
    let mut c = Coordinator::new(AudioController::new(devices).unwrap());
    let a = c.tick_at(events(false, false, false, true), 0);
    assert!(c.muted());
    assert!(c.exited());
    assert_eq!(a, vec![UiAction::Update(true), UiAction::Exit]);
    assert_eq!(*c.controller().backend().requests.borrow(), vec![true, true, true]);
    assert!(*c.controller().backend().muted.borrow());
}

#[test]
fn nothing_happens_after_exit() {
    let mut c = coordinator(false);
    c.tick_at(events(false, false, false, true), 0);
    assert!(c.exited());
    let a = c.tick_at(events(true, true, true, true), 500);
    assert_eq!(a, vec![]);
    assert!(c.muted());
    assert!(c.exited());
}

/// Devices that refuse every change.
struct Stuck;

impl AudioInputDeviceTrait for Stuck {
    fn input_device_ids(&self) -> Result<Vec<u32>, AudioError> {
        Ok(vec![4, 5])
    }

    fn is_muted(&self, _id: u32) -> Result<bool, AudioError> {
        Ok(false)
    }

    fn set_mute(&self, id: u32, _state: bool) -> Result<(), AudioError> {
        Err(AudioError { msg: format!("device {} refused", id) })
    }
}

#[test]
fn failed_devices_are_reported() {
    let mut c = Coordinator::new(AudioController::new(Stuck).unwrap());
    let a = c.tick_at(events(false, true, false, false), 0);
    assert_eq!(a, vec![UiAction::Update(true), UiAction::DevicesFailed]);
    assert!(c.muted());
    let a = c.tick_at(events(false, true, false, true), 10);
    assert_eq!(
        a,
        vec![
            UiAction::Update(false),
            UiAction::DevicesFailed,
            UiAction::ScheduleHide,
            UiAction::Update(true),
            UiAction::DevicesFailed,
            UiAction::Exit,
        ]
    );
}

#[test]
fn quit_while_muted_still_reports_muted() {
    let mut c = coordinator(true);
    let a = c.tick_at(events(false, false, false, true), 0);
    assert!(c.muted());
    assert_eq!(a, vec![UiAction::Update(true), UiAction::Exit]);
}

#[test]
fn poll_is_rate_limited() {
    let mut c = coordinator(true);
    let a = c.tick_at(events(true, false, false, false), 1000);
    assert_eq!(a, vec![UiAction::Reposition]);
    let a = c.tick_at(events(true, false, false, false), 1050);
    assert_eq!(a, vec![]);
    let a = c.tick_at(events(true, false, false, false), 1000 + THROTTLE_TIMEOUT_MILLIS);
    assert_eq!(a, vec![UiAction::Reposition]);
}

#[test]
fn all_steps_in_one_tick_keep_their_order() {
    let mut c = coordinator(true);
    let a = c.tick_at(events(true, true, true, true), 0);
    assert_eq!(
        a,
        vec![
            UiAction::Reposition,
            UiAction::Update(false),
            UiAction::ScheduleHide,
            UiAction::Hide,
            UiAction::Update(true),
            UiAction::Exit,
        ]
    );
    assert!(c.muted());
}

#[test]
fn clock_driven_tick_toggles() {
    let mut c = coordinator(false);
    let a = c.tick(events(false, true, false, false));
    assert_eq!(a, vec![UiAction::Update(true)]);
    let a = c.tick(events(false, false, false, true));
    assert_eq!(a, vec![UiAction::Update(true), UiAction::Exit]);
}

#[test]
fn hide_is_revalidated_at_delivery() {
    assert!(hide_on_delivery(false));
    assert!(!hide_on_delivery(true));
    assert_eq!(Message::HidePopup, Message::HidePopup);
}

#[test]
fn event_ids_map_to_triggers() {
    let ids = EventIds {
        button_toggle_mute: "1001".to_string(),
        button_quit: "1002".to_string(),
        shortcut_shift_meta_a: 77,
    };
    assert_eq!(ids.menu_trigger(&"1001".to_string()), Some(Trigger::ToggleRequested));
    assert_eq!(ids.menu_trigger(&"1002".to_string()), Some(Trigger::QuitRequested));
    assert_eq!(ids.menu_trigger(&"9".to_string()), None);
    assert_eq!(ids.shortcut_trigger(77), Some(Trigger::ToggleRequested));
    assert_eq!(ids.shortcut_trigger(78), None);
}
