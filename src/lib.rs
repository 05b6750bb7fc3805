//! Keeps a muted indicator in step with the mute state of every audio input
//! device, under toggle, quit and poll triggers.
pub mod config;
pub mod controller;
pub mod device;
pub mod event_loop;
pub mod packaging;
pub mod shared;
pub mod text;
pub mod throttle;

pub use controller::{
    all_muted, validate_listing, fan_out_outcome, toggle_target, AudioController,
    ControllerError,
};
pub use device::{
    input_device_ids, mute_flag, mute_value, status_tolerated, AudioError,
    AudioInputDeviceTrait, AUDIO_HARDWARE_NO_ERROR, AUDIO_HARDWARE_UNKNOWN_PROPERTY_ERROR,
};
pub use throttle::Throttle;
pub use event_loop::{
    hide_on_delivery, Coordinator, EventIds, Message, TickEvents, Trigger, UiAction,
    HIDE_DELAY_MILLIS, THROTTLE_TIMEOUT_MILLIS,
};
pub use text::{
    get_mic_mute_description_text, get_mute_menu_text, get_mute_title_text, label_color,
    popup_image, tray_image, Appearance, LabelColor, MicImage,
};
pub use config::{capitalize, display_name, split_on, AppVars};
pub use packaging::BuildVars;
pub use shared::arc_lock;
