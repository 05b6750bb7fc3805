use vstd::prelude::*;

use crate::device::{AudioError, AudioInputDeviceTrait};

verus! {

/// Why the controller could not be built or could not apply a mute state.
#[derive(Debug, Clone)]
pub enum ControllerError {
    /// The backend failed to list the input devices.
    Enumeration(AudioError),
    /// The backend listed no input device.
    NoInputDevices,
    /// Every device refused the new state; one error per device, in order.
    AllDevicesFailed(Vec<AudioError>),
}

/// A device report counts as muted only when the device answered and said so.
pub open spec fn reports_muted(report: Result<bool, AudioError>) -> bool {
    report matches Ok(true)
}

/// Every report in the sequence counts as muted.
pub open spec fn all_reports_muted(reports: Seq<Result<bool, AudioError>>) -> bool {
    forall|i: int| 0 <= i < reports.len() ==> reports_muted(#[trigger] reports[i])
}

/// Every attempt of a non-empty fan-out failed.
pub open spec fn every_attempt_failed(results: Seq<Result<(), AudioError>>) -> bool {
    results.len() > 0 && forall|i: int| 0 <= i < results.len() ==> (#[trigger] results[i]) is Err
}

/// `reports` is what a query of `n` devices can gather: one report per device
/// queried, in order, stopping right after the first that is not muted.
pub open spec fn is_query_record(reports: Seq<Result<bool, AudioError>>, n: nat) -> bool {
    &&& reports.len() <= n
    &&& forall|j: int| 0 <= j < reports.len() - 1 ==> reports_muted(#[trigger] reports[j])
    &&& reports.len() < n ==> (reports.len() > 0 && !reports_muted(reports[reports.len() - 1]))
}

/// `reports` is a query of the devices `ids` through `port`, in order: report
/// `j` is the backend's answer for device `j`, stopping right after the first
/// that is not muted.
pub open spec fn queried_in_order<B: AudioInputDeviceTrait>(
    port: B,
    ids: Seq<u32>,
    reports: Seq<Result<bool, AudioError>>,
) -> bool {
    &&& is_query_record(reports, ids.len())
    &&& forall|j: int| 0 <= j < reports.len() ==> port.query_outcome(ids[j], #[trigger] reports[j])
}

/// `results` holds, for every device of `ids` in order, the backend's outcome of
/// setting it to `state` through `port`.
pub open spec fn set_each<B: AudioInputDeviceTrait>(
    port: B,
    ids: Seq<u32>,
    state: bool,
    results: Seq<Result<(), AudioError>>,
) -> bool {
    &&& results.len() == ids.len()
    &&& forall|i: int| 0 <= i < results.len() ==> port.set_outcome(ids[i], state, #[trigger] results[i])
}

/// The state that a toggle asks for: the requested one, else the opposite of the current one.
pub open spec fn toggled_state(current: bool, requested: Option<bool>) -> bool {
    match requested {
        Some(state) => state,
        None => !current,
    }
}

/// Folds per-device mute reports into the aggregate state: `true` exactly when
/// every device answered that it is muted. A failed query counts as unmuted.
pub fn all_muted(reports: &Vec<Result<bool, AudioError>>) -> (r: bool)
    ensures
        r == all_reports_muted(reports@),
{
    let mut i: usize = 0;
    while i < reports.len()
        invariant
            i <= reports.len(),
            forall|j: int| 0 <= j < i ==> reports_muted(#[trigger] reports@[j]),
        decreases reports.len() - i,
    {
        match &reports[i] {
            Ok(true) => {},
            _ => {
                assert(!reports_muted(reports@[i as int]));
                return false;
            },
        }
        i = i + 1;
    }
    true
}

/// The overall outcome of setting every device: success unless every attempt failed,
/// in which case the error carries each device's error in order.
pub fn fan_out_outcome(results: Vec<Result<(), AudioError>>) -> (r: Result<(), ControllerError>)
    ensures
        r is Err <==> every_attempt_failed(results@),
        r matches Err(e) ==> (e matches ControllerError::AllDevicesFailed(errs) && errs@.len()
            == results@.len() && forall|i: int|
            0 <= i < errs@.len() ==> results@[i] == Err::<(), AudioError>(#[trigger] errs@[i])),
{
    let ghost all = results@;
    let n = results.len();
    let mut rest = results;
    let mut errors: Vec<AudioError> = Vec::new();
    let mut i: usize = 0;
    while i < n
        invariant
            n == all.len(),
            all == results@,
            i <= n,
            rest@ == all.subrange(i as int, n as int),
            errors@.len() == i,
            forall|j: int| 0 <= j < i ==> all[j] == Err::<(), AudioError>(#[trigger] errors@[j]),
        decreases n - i,
    {
        assert(rest@[0] == all[i as int]);
        let item = rest.remove(0);
        match item {
            Ok(()) => {
                assert(all[i as int] is Ok);
                assert(!every_attempt_failed(all));
                return Ok(());
            },
            Err(e) => {
                errors.push(e);
            },
        }
        assert(rest@ =~= all.subrange(i + 1, n as int));
        i = i + 1;
    }
    if n == 0 {
        Ok(())
    } else {
        assert forall|j: int| 0 <= j < all.len() implies (#[trigger] all[j]) is Err by {
            assert(all[j] == Err::<(), AudioError>(errors@[j]));
        }
        Err(ControllerError::AllDevicesFailed(errors))
    }
}

/// The state a toggle moves to.
pub fn toggle_target(current: bool, requested: Option<bool>) -> (r: bool)
    ensures
        r == toggled_state(current, requested),
{
    match requested {
        Some(state) => state,
        None => !current,
    }
}

/// Accepts a device listing only when it succeeded and named at least one device.
pub fn validate_listing(listing: Result<Vec<u32>, AudioError>) -> (r: Result<
    Vec<u32>,
    ControllerError,
>)
    ensures
        match listing {
            Ok(ids) => if ids@.len() == 0 {
                r matches Err(ControllerError::NoInputDevices)
            } else {
                r matches Ok(v) && v@ == ids@
            },
            Err(_) => r matches Err(ControllerError::Enumeration(_)),
        },
{
    match listing {
        Ok(ids) => {
            if ids.len() == 0 {
                Err(ControllerError::NoInputDevices)
            } else {
                Ok(ids)
            }
        },
        Err(e) => Err(ControllerError::Enumeration(e)),
    }
}

/// Whatever the number of devices, one that reports unmuted, or fails to
/// answer, makes the aggregate state unmuted; when all report muted it is muted.
pub proof fn lemma_one_unmuted_device_decides(reports: Seq<Result<bool, AudioError>>, i: int)
    requires
        0 <= i < reports.len(),
        !reports_muted(reports[i]),
    ensures
        !all_reports_muted(reports),
{
}

/// When every device reports muted, the aggregate state is muted.
pub proof fn lemma_all_muted_devices_decide(reports: Seq<Result<bool, AudioError>>)
    requires
        forall|i: int| 0 <= i < reports.len() ==> reports[i] == Ok::<bool, AudioError>(true),
    ensures
        all_reports_muted(reports),
{
    assert forall|i: int| 0 <= i < reports.len() implies reports_muted(#[trigger] reports[i]) by {
        assert(reports[i] == Ok::<bool, AudioError>(true));
    }
}

/// Two toggles in a row, with nothing requested, restore the state they started from.
pub proof fn lemma_toggle_twice_restores(muted: bool)
    ensures
        toggled_state(toggled_state(muted, None), None) == muted,
{
}

/// A fan-out in which some device accepted the state succeeds, however many others failed.
pub proof fn lemma_partial_failure_succeeds(results: Seq<Result<(), AudioError>>, i: int)
    requires
        0 <= i < results.len(),
        results[i] is Ok,
    ensures
        !every_attempt_failed(results),
{
}

/// Owns the input devices of one session and the aggregate mute state shown to the user.
pub struct AudioController<B> {
    backend: B,
    devices: Vec<u32>,
    muted: bool,
}

impl<B: AudioInputDeviceTrait> AudioController<B> {
    /// The ids of the devices this controller drives, fixed at construction.
    pub closed spec fn device_ids(&self) -> Seq<u32> {
        self.devices@
    }

    /// The backend the controller drives.
    pub closed spec fn port(&self) -> B {
        self.backend
    }

    /// The aggregate mute state: `true` when every device is taken to be muted.
    pub closed spec fn muted_state(&self) -> bool {
        self.muted
    }

    /// A controller always drives at least one device.
    pub closed spec fn wf(&self) -> bool {
        self.devices@.len() > 0
    }

    /// Lists the input devices once and reads their aggregate mute state.
    /// Fails when the listing fails or names no device.
    pub fn new(backend: B) -> (r: Result<Self, ControllerError>)
        ensures
            r matches Ok(c) ==> c.wf() && c.port() == backend && exists|
                reports: Seq<Result<bool, AudioError>>,
            |
                queried_in_order(backend, c.device_ids(), reports) && c.muted_state()
                    == all_reports_muted(reports),
            r matches Err(e) ==> (e is Enumeration || e is NoInputDevices),
    {
        let listing = backend.input_device_ids();
        let devices = match validate_listing(listing) {
            Ok(ids) => ids,
            Err(e) => {
                return Err(e);
            },
        };
        let mut controller = AudioController { backend, devices, muted: false };
        controller.muted = controller.is_muted_all();
        Ok(controller)
    }

    /// The aggregate mute state last set or read.
    pub fn muted(&self) -> (r: bool)
        ensures
            r == self.muted_state(),
    {
        self.muted
    }

    /// The backend the controller drives.
    pub fn backend(&self) -> (r: &B)
        ensures
            *r == self.port(),
    {
        &self.backend
    }

    /// The ids of the devices this controller drives.
    pub fn devices(&self) -> (r: &Vec<u32>)
        ensures
            r@ == self.device_ids(),
    {
        &self.devices
    }

    /// Queries the devices in order and stops at the first one that is not
    /// confirmed muted. Returns the reports gathered, the last of which is the
    /// first non-muted one when the query stopped early.
    pub fn query_reports(&self) -> (r: Vec<Result<bool, AudioError>>)
        ensures
            queried_in_order(self.port(), self.device_ids(), r@),
    {
        let mut reports: Vec<Result<bool, AudioError>> = Vec::new();
        let mut i: usize = 0;
        while i < self.devices.len()
            invariant
                i <= self.devices@.len(),
                reports@.len() == i,
                forall|j: int| 0 <= j < i ==> reports_muted(#[trigger] reports@[j]),
                forall|j: int|
                    0 <= j < i ==> self.backend.query_outcome(
                        self.devices@[j],
                        #[trigger] reports@[j],
                    ),
            decreases self.devices@.len() - i,
        {
            let report = self.backend.is_muted(self.devices[i]);
            let muted = match &report {
                Ok(true) => true,
                _ => false,
            };
            reports.push(report);
            if !muted {
                return reports;
            }
            i = i + 1;
        }
        reports
    }

    /// Reads the aggregate mute state from the devices: `true` exactly when each
    /// device queried reported muted, stopping at the first that did not.
    pub fn is_muted_all(&self) -> (r: bool)
        ensures
            exists|reports: Seq<Result<bool, AudioError>>|
                queried_in_order(self.port(), self.device_ids(), reports) && r
                    == all_reports_muted(reports),
    {
        let reports = self.query_reports();
        let r = all_muted(&reports);
        assert(queried_in_order(self.port(), self.device_ids(), reports@) && r
            == all_reports_muted(reports@));
        r
    }

    /// Asks every device for the given state, going on past failures, then
    /// takes that state as the aggregate one. Fails only when every device failed.
    pub fn mute_all(&mut self, state: bool) -> (r: Result<(), ControllerError>)
        ensures
            final(self).muted_state() == state,
            final(self).device_ids() == old(self).device_ids(),
            final(self).wf() == old(self).wf(),
            final(self).port() == old(self).port(),
            r matches Err(e) ==> e is AllDevicesFailed,
            exists|results: Seq<Result<(), AudioError>>|
                set_each(old(self).port(), old(self).device_ids(), state, results) && (r is Err
                    <==> every_attempt_failed(results)),
    {
        let mut results: Vec<Result<(), AudioError>> = Vec::new();
        let mut i: usize = 0;
        while i < self.devices.len()
            invariant
                i <= self.devices@.len(),
                results@.len() == i,
                forall|j: int|
                    0 <= j < i ==> self.backend.set_outcome(
                        self.devices@[j],
                        state,
                        #[trigger] results@[j],
                    ),
            decreases self.devices@.len() - i,
        {
            let outcome = self.backend.set_mute(self.devices[i], state);
            results.push(outcome);
            i = i + 1;
        }
        self.muted = state;
        let ghost attempts = results@;
        let r = fan_out_outcome(results);
        assert(set_each(old(self).port(), old(self).device_ids(), state, attempts) && (r is Err
            <==> every_attempt_failed(attempts)));
        r
    }

    /// Moves every device to the requested state, or to the opposite of the
    /// current aggregate state when none is requested, and returns the new state.
    pub fn toggle(&mut self, state: Option<bool>) -> (r: Result<bool, ControllerError>)
        ensures
            final(self).muted_state() == toggled_state(old(self).muted_state(), state),
            final(self).device_ids() == old(self).device_ids(),
            final(self).wf() == old(self).wf(),
            r matches Ok(m) ==> m == final(self).muted_state(),
            final(self).port() == old(self).port(),
            r matches Err(e) ==> e is AllDevicesFailed,
            exists|results: Seq<Result<(), AudioError>>|
                set_each(
                    old(self).port(),
                    old(self).device_ids(),
                    toggled_state(old(self).muted_state(), state),
                    results,
                ) && (r is Err <==> every_attempt_failed(results)),
    {
        let target = toggle_target(self.muted, state);
        match self.mute_all(target) {
            Ok(()) => Ok(target),
            Err(e) => Err(e),
        }
    }
}

} // verus!
