use vstd::prelude::*;

verus! {

/// The system appearance, as far as icon and colour choices go.
#[derive(Debug, Clone, Copy, PartialEq, Eq, Structural)]
pub enum Appearance {
    Light,
    Dark,
    Unspecified,
}

/// The microphone images shipped with the application.
#[derive(Debug, Clone, Copy, PartialEq, Eq, Structural)]
pub enum MicImage {
    /// Dark glyph, microphone on.
    MicOn,
    /// Dark glyph, microphone off.
    MicOff,
    /// Light glyph, microphone on.
    MicOnLight,
    /// Light glyph, microphone off.
    MicOffLight,
}

/// The colours of the overlay's status text.
#[derive(Debug, Clone, Copy, PartialEq, Eq, Structural)]
pub enum LabelColor {
    Black,
    White,
    /// Red 239, 68, 68.
    DarkRed,
    /// Red 248, 113, 113.
    LightRed,
}

/// The menu item's label: the action it performs.
pub fn get_mute_menu_text(muted: bool) -> (r: &'static str)
    ensures
        r@ == (if muted {
            "Unmute"@
        } else {
            "Mute"@
        }),
{
    if muted {
        "Unmute"
    } else {
        "Mute"
    }
}

/// The overlay's status line.
pub fn get_mic_mute_description_text(muted: bool) -> (r: &'static str)
    ensures
        r@ == (if muted {
            "Microphone off"@
        } else {
            "Microphone on"@
        }),
{
    if muted {
        "Microphone off"
    } else {
        "Microphone on"
    }
}

/// The overlay window's title.
pub fn get_mute_title_text(muted: bool) -> (r: &'static str)
    ensures
        r@ == (if muted {
            "Muted"@
        } else {
            "Unmuted"@
        }),
{
    if muted {
        "Muted"
    } else {
        "Unmuted"
    }
}

/// The overlay's image: dark glyphs on a light appearance, light glyphs
/// otherwise; an unspecified appearance always shows the microphone on.
pub fn popup_image(appearance: Appearance, muted: bool) -> (r: MicImage)
    ensures
        r == (if appearance == Appearance::Light {
            if muted {
                MicImage::MicOff
            } else {
                MicImage::MicOn
            }
        } else if appearance == Appearance::Dark && muted {
            MicImage::MicOffLight
        } else {
            MicImage::MicOnLight
        }),
{
    match appearance {
        Appearance::Light => if muted {
            MicImage::MicOff
        } else {
            MicImage::MicOn
        },
        Appearance::Dark => if muted {
            MicImage::MicOffLight
        } else {
            MicImage::MicOnLight
        },
        Appearance::Unspecified => MicImage::MicOnLight,
    }
}

/// The menu-bar icon: light glyphs whatever the appearance.
pub fn tray_image(muted: bool) -> (r: MicImage)
    ensures
        r == (if muted {
            MicImage::MicOffLight
        } else {
            MicImage::MicOnLight
        }),
{
    if muted {
        MicImage::MicOffLight
    } else {
        MicImage::MicOnLight
    }
}

/// The status text's colour: red when muted, else plain; darker shades on a
/// light appearance.
pub fn label_color(appearance: Appearance, muted: bool) -> (r: LabelColor)
    ensures
        r == (if appearance == Appearance::Light {
            if muted {
                LabelColor::DarkRed
            } else {
                LabelColor::Black
            }
        } else if appearance == Appearance::Dark && muted {
            LabelColor::LightRed
        } else {
            LabelColor::White
        }),
{
    match appearance {
        Appearance::Light => if muted {
            LabelColor::DarkRed
        } else {
            LabelColor::Black
        },
        Appearance::Dark => if muted {
            LabelColor::LightRed
        } else {
            LabelColor::White
        },
        Appearance::Unspecified => LabelColor::White,
    }
}

} // verus!
