use vstd::prelude::*;

verus! {

/// A failure reported by the audio backend for one device or for enumeration.
#[derive(Debug, Clone)]
pub struct AudioError {
    pub msg: String,
}

/// The per-device mute capability over some audio backend.
///
/// Devices are named by the backend's opaque numeric ids.
pub trait AudioInputDeviceTrait {
    /// `r` is an answer the backend may give when asked whether device `id` is
    /// muted. A backend that says nothing of its answers admits every one.
    closed spec fn query_outcome(&self, id: u32, r: Result<bool, AudioError>) -> bool {
        true
    }

    /// `r` is an outcome the backend may give when asked to set device `id` to
    /// `state`. A backend that says nothing of its outcomes admits every one.
    closed spec fn set_outcome(&self, id: u32, state: bool, r: Result<(), AudioError>) -> bool {
        true
    }

    /// Lists the ids of every device that has input channels.
    fn input_device_ids(&self) -> Result<Vec<u32>, AudioError>;

    /// Reports whether the device with this id is muted.
    fn is_muted(&self, id: u32) -> (r: Result<bool, AudioError>)
        ensures
            self.query_outcome(id, r),
    ;

    /// Sets the mute state of the device with this id.
    fn set_mute(&self, id: u32, state: bool) -> (r: Result<(), AudioError>)
        ensures
            self.set_outcome(id, state, r),
    ;
}

/// The status a hardware call returns on success.
pub const AUDIO_HARDWARE_NO_ERROR: i32 = 0;

/// The status a hardware call returns for a property the device does not have.
pub const AUDIO_HARDWARE_UNKNOWN_PROPERTY_ERROR: i32 = 2003332927;

/// A hardware status that lets the operation go on: success, or a property
/// the device does not have.
pub open spec fn tolerated(status: i32) -> bool {
    status == AUDIO_HARDWARE_NO_ERROR || status == AUDIO_HARDWARE_UNKNOWN_PROPERTY_ERROR
}

/// The ids of the candidates that have at least one input buffer, in order.
pub open spec fn input_ids_of(candidates: Seq<(u32, u32)>) -> Seq<u32>
    decreases candidates.len(),
{
    if candidates.len() == 0 {
        Seq::<u32>::empty()
    } else {
        let init = input_ids_of(candidates.drop_last());
        if candidates.last().1 > 0 {
            init.push(candidates.last().0)
        } else {
            init
        }
    }
}

/// Whether a hardware status lets the operation go on.
pub fn status_tolerated(status: i32) -> (r: bool)
    ensures
        r == tolerated(status),
{
    status == AUDIO_HARDWARE_NO_ERROR || status == AUDIO_HARDWARE_UNKNOWN_PROPERTY_ERROR
}

/// Reads the mute property's raw value: muted exactly when it is 1.
pub fn mute_flag(raw: u32) -> (r: bool)
    ensures
        r == (raw == 1),
{
    raw == 1
}

/// The mute property's raw value for a state.
pub fn mute_value(state: bool) -> (r: u32)
    ensures
        r == (if state {
            1u32
        } else {
            0u32
        }),
{
    if state {
        1
    } else {
        0
    }
}

/// Keeps the devices that can record: each candidate is a device id with the
/// number of buffers of its input stream configuration.
pub fn input_device_ids(candidates: &Vec<(u32, u32)>) -> (r: Vec<u32>)
    ensures
        r@ == input_ids_of(candidates@),
{
    let mut ids: Vec<u32> = Vec::new();
    let mut i: usize = 0;
    while i < candidates.len()
        invariant
            i <= candidates@.len(),
            ids@ == input_ids_of(candidates@.subrange(0, i as int)),
        decreases candidates@.len() - i,
    {
        let (id, buffers) = candidates[i];
        assert(candidates@.subrange(0, i + 1).drop_last() =~= candidates@.subrange(0, i as int));
        if buffers > 0 {
            ids.push(id);
        }
        i = i + 1;
    }
    assert(candidates@.subrange(0, candidates@.len() as int) =~= candidates@);
    ids
}

} // verus!
