use vstd::prelude::*;

use crate::controller::{every_attempt_failed, set_each, toggled_state, AudioController};
use crate::device::{AudioError, AudioInputDeviceTrait};
use crate::throttle::{accept_answer, window_after_accept, Throttle};

verus! {

/// Window of the position-poll rate limiter, in milliseconds.
pub const THROTTLE_TIMEOUT_MILLIS: u64 = 200;

/// Delay between an unmute and the automatic hiding of the overlay, in milliseconds.
pub const HIDE_DELAY_MILLIS: u64 = 1000;

/// Messages posted back into the loop by deferred tasks.
#[derive(Debug, Clone, Copy, PartialEq, Eq, Structural)]
pub enum Message {
    HidePopup,
}

/// What a platform event asks of the loop, once its id has been recognised.
#[derive(Debug, Clone, Copy, PartialEq, Eq, Structural)]
pub enum Trigger {
    ToggleRequested,
    QuitRequested,
    PollTick,
}

/// The ids handed out when the menu items and the shortcut were registered.
#[derive(Debug, Clone)]
pub struct EventIds {
    pub button_toggle_mute: String,
    pub button_quit: String,
    pub shortcut_shift_meta_a: u32,
}

impl EventIds {
    /// The trigger a menu event stands for: toggle or quit for the two known
    /// items, nothing for any other id.
    pub fn menu_trigger(&self, id: &String) -> (r: Option<Trigger>)
        ensures
            r == (if id@ == self.button_quit@ {
                Some(Trigger::QuitRequested)
            } else if id@ == self.button_toggle_mute@ {
                Some(Trigger::ToggleRequested)
            } else {
                None::<Trigger>
            }),
    {
        if *id == self.button_quit {
            Some(Trigger::QuitRequested)
        } else if *id == self.button_toggle_mute {
            Some(Trigger::ToggleRequested)
        } else {
            None
        }
    }

    /// The trigger a shortcut event stands for: toggle for the registered
    /// shortcut, nothing for any other id.
    pub fn shortcut_trigger(&self, id: u32) -> (r: Option<Trigger>)
        ensures
            r == (if id == self.shortcut_shift_meta_a {
                Some(Trigger::ToggleRequested)
            } else {
                None::<Trigger>
            }),
    {
        if id == self.shortcut_shift_meta_a {
            Some(Trigger::ToggleRequested)
        } else {
            None
        }
    }
}

/// The event classes pending at one tick, at most one of each.
#[derive(Debug, Clone, Copy, PartialEq, Eq, Structural)]
pub struct TickEvents {
    pub poll: bool,
    pub toggle: bool,
    pub hide: bool,
    pub quit: bool,
}

/// What the loop asks of the user interface, in the order given.
#[derive(Debug, Clone, Copy, PartialEq, Eq, Structural)]
pub enum UiAction {
    /// Find the monitor under the pointer and move the overlay there.
    Reposition,
    /// Show this mute state in the menu-bar icon and the overlay.
    Update(bool),
    /// Post `Message::HidePopup` after `HIDE_DELAY_MILLIS`.
    ScheduleHide,
    /// Hide the overlay.
    Hide,
    /// Every device refused the state just shown; tell the user.
    DevicesFailed,
    /// Leave the loop.
    Exit,
}

/// A delivered hide message acts only while the state is still unmuted.
pub open spec fn hide_applies(muted: bool) -> bool {
    !muted
}

/// The mute state after the toggle step of a tick.
pub open spec fn muted_after_toggle(muted: bool, events: TickEvents) -> bool {
    if events.toggle {
        toggled_state(muted, None)
    } else {
        muted
    }
}

/// The mute state at the end of a tick: a quit forces it to muted.
pub open spec fn muted_after_tick(muted: bool, events: TickEvents) -> bool {
    if events.quit {
        true
    } else {
        muted_after_toggle(muted, events)
    }
}

/// The actions of one tick, from the state at its start, the pending events,
/// whether the rate limiter admitted the poll, and whether every device refused
/// the toggle's and the quit's state.
pub open spec fn tick_actions(
    muted: bool,
    events: TickEvents,
    admitted: bool,
    toggle_failed: bool,
    quit_failed: bool,
) -> Seq<UiAction> {
    let m = muted_after_toggle(muted, events);
    let toggle_alert = if toggle_failed {
        seq![UiAction::DevicesFailed]
    } else {
        Seq::<UiAction>::empty()
    };
    let quit_alert = if quit_failed {
        seq![UiAction::DevicesFailed]
    } else {
        Seq::<UiAction>::empty()
    };
    let poll_part = if events.poll && admitted {
        seq![UiAction::Reposition]
    } else {
        Seq::<UiAction>::empty()
    };
    let toggle_part = if !events.toggle {
        Seq::<UiAction>::empty()
    } else if m {
        seq![UiAction::Update(m)] + toggle_alert
    } else {
        seq![UiAction::Update(m)] + toggle_alert + seq![UiAction::ScheduleHide]
    };
    let hide_part = if events.hide && hide_applies(m) {
        seq![UiAction::Hide]
    } else {
        Seq::<UiAction>::empty()
    };
    let quit_part = if events.quit {
        seq![UiAction::Update(true)] + quit_alert + seq![UiAction::Exit]
    } else {
        Seq::<UiAction>::empty()
    };
    poll_part + toggle_part + hide_part + quit_part
}

/// A quit leaves the state muted whatever came before, and its tick ends by
/// showing the muted state, then the failure if every device refused it, then
/// exiting.
pub proof fn lemma_quit_leaves_muted(
    muted: bool,
    events: TickEvents,
    admitted: bool,
    toggle_failed: bool,
    quit_failed: bool,
)
    requires
        events.quit,
    ensures
        muted_after_tick(muted, events),
        ({
            let acts = tick_actions(muted, events, admitted, toggle_failed, quit_failed);
            let k: int = if quit_failed {
                3
            } else {
                2
            };
            acts.len() >= k && acts[acts.len() - k] == UiAction::Update(true) && acts[acts.len()
                - 1] == UiAction::Exit
        }),
{
}

/// Two ticks that each carry only a toggle bring the state back to where it was.
pub proof fn lemma_two_toggle_ticks_restore(muted: bool)
    ensures
        ({
            let only_toggle = TickEvents { poll: false, toggle: true, hide: false, quit: false };
            muted_after_tick(muted_after_tick(muted, only_toggle), only_toggle) == muted
        }),
{
}

/// A toggle that unmutes shows the unmuted state and schedules a hide; one that
/// mutes shows the muted state and schedules none.
pub proof fn lemma_toggle_tick_actions(muted: bool)
    ensures
        ({
            let only_toggle = TickEvents { poll: false, toggle: true, hide: false, quit: false };
            tick_actions(muted, only_toggle, false, false, false) == if muted {
                seq![UiAction::Update(false), UiAction::ScheduleHide]
            } else {
                seq![UiAction::Update(true)]
            }
        }),
{
    let only_toggle = TickEvents { poll: false, toggle: true, hide: false, quit: false };
    assert(tick_actions(muted, only_toggle, false, false, false) =~= if muted {
        seq![UiAction::Update(false), UiAction::ScheduleHide]
    } else {
        seq![UiAction::Update(true)]
    });
}

/// A hide message acts only when the state is unmuted at delivery.
pub proof fn lemma_stale_hide_ignored(muted: bool)
    ensures
        ({
            let only_hide = TickEvents { poll: false, toggle: false, hide: true, quit: false };
            tick_actions(muted, only_hide, false, false, false) == if muted {
                Seq::<UiAction>::empty()
            } else {
                seq![UiAction::Hide]
            }
        }),
{
    let only_hide = TickEvents { poll: false, toggle: false, hide: true, quit: false };
    assert(tick_actions(muted, only_hide, false, false, false) =~= if muted {
        Seq::<UiAction>::empty()
    } else {
        seq![UiAction::Hide]
    });
}

/// Whether a delivered hide message should hide the overlay: only while the
/// state is still unmuted, whatever transition scheduled it.
pub fn hide_on_delivery(muted: bool) -> (r: bool)
    ensures
        r == hide_applies(muted),
{
    !muted
}

/// The single-threaded dispatcher: owns the mute state, through the controller,
/// and the poll rate limiter, and turns each tick's events into UI actions.
pub struct Coordinator<B> {
    controller: AudioController<B>,
    throttle: Throttle,
    exited: bool,
}

impl<B: AudioInputDeviceTrait> Coordinator<B> {
    /// The aggregate mute state.
    pub closed spec fn muted_state(&self) -> bool {
        self.controller.muted_state()
    }

    /// The backend behind the controller.
    pub closed spec fn port(&self) -> B {
        self.controller.port()
    }

    /// The devices the controller drives.
    pub closed spec fn device_ids(&self) -> Seq<u32> {
        self.controller.device_ids()
    }

    /// The rate limiter's window.
    pub closed spec fn poll_window(&self) -> Seq<u64> {
        self.throttle.window()
    }

    /// The rate limiter's window length.
    pub closed spec fn poll_timeout(&self) -> u64 {
        self.throttle.timeout_ms()
    }

    /// Whether a quit has been processed.
    pub closed spec fn has_exited(&self) -> bool {
        self.exited
    }

    pub closed spec fn wf(&self) -> bool {
        self.controller.wf() && self.throttle.wf()
    }

    /// A dispatcher over this controller, with an empty poll window of
    /// `THROTTLE_TIMEOUT_MILLIS`.
    pub fn new(controller: AudioController<B>) -> (r: Self)
        requires
            controller.wf(),
        ensures
            r.wf(),
            r.muted_state() == controller.muted_state(),
            r.port() == controller.port(),
            r.device_ids() == controller.device_ids(),
            r.poll_window() == Seq::<u64>::empty(),
            r.poll_timeout() == THROTTLE_TIMEOUT_MILLIS,
            !r.has_exited(),
    {
        Coordinator { controller, throttle: Throttle::new(THROTTLE_TIMEOUT_MILLIS), exited: false }
    }

    /// The aggregate mute state.
    pub fn muted(&self) -> (r: bool)
        ensures
            r == self.muted_state(),
    {
        self.controller.muted()
    }

    /// The controller that owns the devices and the mute state.
    pub fn controller(&self) -> (r: &AudioController<B>)
        ensures
            r.port() == self.port(),
            r.device_ids() == self.device_ids(),
            r.muted_state() == self.muted_state(),
    {
        &self.controller
    }

    /// Whether a quit has been processed.
    pub fn exited(&self) -> (r: bool)
        ensures
            r == self.has_exited(),
    {
        self.exited
    }

    /// Processes one tick at time `now` (milliseconds on the rate limiter's
    /// clock), in fixed order: an admitted poll asks for a reposition; a toggle
    /// sets every device to the opposite state and shows it, scheduling a hide
    /// when it is unmuted; a hide message hides the overlay only while still
    /// unmuted; a quit mutes every device, shows it, and exits. A step whose
    /// state every device refused is followed by `DevicesFailed`. Once exited,
    /// a tick does nothing.
    #[verifier::rlimit(60)]
    pub fn tick_at(&mut self, events: TickEvents, now: u64) -> (r: Vec<UiAction>)
        requires
            old(self).wf(),
        ensures
            final(self).wf(),
            final(self).port() == old(self).port(),
            final(self).device_ids() == old(self).device_ids(),
            final(self).poll_timeout() == old(self).poll_timeout(),
            old(self).has_exited() ==> (r@.len() == 0 && final(self).has_exited()
                && final(self).muted_state() == old(self).muted_state()
                && final(self).poll_window() == old(self).poll_window()),
            !old(self).has_exited() ==> tick_done(*old(self), *final(self), events, now, r@),
    {
        if self.exited {
            return Vec::new();
        }
        let ghost m0 = self.controller.muted_state();
        let ghost port = self.controller.port();
        let ghost ids = self.controller.device_ids();
        let ghost window0 = self.throttle.window();
        let ghost timeout = self.throttle.timeout_ms();
        let ghost admitted = accept_answer(window0, now, timeout) is Ok;
        let ghost mut toggle_results: Seq<Result<(), AudioError>> = Seq::empty();
        let ghost mut quit_results: Seq<Result<(), AudioError>> = Seq::empty();
        let mut toggle_failed = false;
        let mut quit_failed = false;
        let mut actions: Vec<UiAction> = Vec::new();
        if events.poll {
            match self.throttle.accept_at(now) {
                Ok(()) => actions.push(UiAction::Reposition),
                Err(_) => {},
            }
        }
        if events.toggle {
            let outcome = self.controller.toggle(None);
            proof {
                toggle_results = choose|results: Seq<Result<(), AudioError>>|
                    set_each(port, ids, toggled_state(m0, None), results) && (outcome is Err
                        <==> every_attempt_failed(results));
            }
            toggle_failed = match outcome {
                Ok(_) => false,
                Err(_) => true,
            };
            assert(toggle_failed == every_attempt_failed(toggle_results));
            let m = self.controller.muted();
            actions.push(UiAction::Update(m));
            if toggle_failed {
                actions.push(UiAction::DevicesFailed);
            }
            if !m {
                actions.push(UiAction::ScheduleHide);
            }
        }
        if events.hide && hide_on_delivery(self.controller.muted()) {
            actions.push(UiAction::Hide);
        }
        if events.quit {
            let outcome = self.controller.toggle(Some(true));
            proof {
                quit_results = choose|results: Seq<Result<(), AudioError>>|
                    set_each(port, ids, true, results) && (outcome is Err <==> every_attempt_failed(
                        results,
                    ));
            }
            quit_failed = match outcome {
                Ok(_) => false,
                Err(_) => true,
            };
            assert(quit_failed == every_attempt_failed(quit_results));
            actions.push(UiAction::Update(true));
            if quit_failed {
                actions.push(UiAction::DevicesFailed);
            }
            actions.push(UiAction::Exit);
            self.exited = true;
        }
        assert(actions@ =~= tick_actions(m0, events, admitted, toggle_failed, quit_failed));
        assert(tick_record(
            port,
            ids,
            m0,
            events,
            admitted,
            toggle_results,
            quit_results,
            actions@,
        ));
        assert(self.controller.muted_state() == muted_after_tick(m0, events));
        assert(self.throttle.window() == (if events.poll {
            window_after_accept(window0, now, timeout)
        } else {
            window0
        }));
        assert(port == old(self).port() && ids == old(self).device_ids() && m0 == old(
            self,
        ).muted_state());
        assert(window0 == old(self).poll_window() && timeout == old(self).poll_timeout());
        assert(self.exited == events.quit);
        assert(tick_done(*old(self), *self, events, now, actions@));
        actions
    }

    /// Processes one tick at the current time; see `tick_at`.
    pub fn tick(&mut self, events: TickEvents) -> (r: Vec<UiAction>)
        requires
            old(self).wf(),
        ensures
            final(self).wf(),
            final(self).port() == old(self).port(),
            final(self).device_ids() == old(self).device_ids(),
            old(self).has_exited() ==> (r@.len() == 0 && final(self).has_exited()
                && final(self).muted_state() == old(self).muted_state()),
            !old(self).has_exited() ==> exists|now: u64|
                tick_done(*old(self), *final(self), events, now, r@),
    {
        let now = self.throttle.now_ms();
        self.tick_at(events, now)
    }
}

/// The actions of a tick that started in state `muted`, where the toggle's and
/// the quit's requests went to every device of `ids` through `port` in order
/// with the outcomes given, and the actions report when all of one failed.
pub open spec fn tick_record<B: AudioInputDeviceTrait>(
    port: B,
    ids: Seq<u32>,
    muted: bool,
    events: TickEvents,
    admitted: bool,
    toggle_results: Seq<Result<(), AudioError>>,
    quit_results: Seq<Result<(), AudioError>>,
    actions: Seq<UiAction>,
) -> bool {
    &&& events.toggle ==> set_each(port, ids, toggled_state(muted, None), toggle_results)
    &&& events.quit ==> set_each(port, ids, true, quit_results)
    &&& actions == tick_actions(
        muted,
        events,
        admitted,
        events.toggle && every_attempt_failed(toggle_results),
        events.quit && every_attempt_failed(quit_results),
    )
}

/// A tick at `now` took the coordinator from `before` to `after` and returned
/// `actions`: the state, the poll window and the exit flag move as the events
/// ask, and the actions follow from what the devices answered.
pub open spec fn tick_done<B: AudioInputDeviceTrait>(
    before: Coordinator<B>,
    after: Coordinator<B>,
    events: TickEvents,
    now: u64,
    actions: Seq<UiAction>,
) -> bool {
    &&& after.muted_state() == muted_after_tick(before.muted_state(), events)
    &&& after.poll_window() == (if events.poll {
        window_after_accept(before.poll_window(), now, before.poll_timeout())
    } else {
        before.poll_window()
    })
    &&& after.has_exited() == events.quit
    &&& exists|
        toggle_results: Seq<Result<(), AudioError>>,
        quit_results: Seq<Result<(), AudioError>>,
    |
        #[trigger] tick_record(
            before.port(),
            before.device_ids(),
            before.muted_state(),
            events,
            accept_answer(before.poll_window(), now, before.poll_timeout()) is Ok,
            toggle_results,
            quit_results,
            actions,
        )
}

} // verus!
