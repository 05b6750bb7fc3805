use mic_mute::{
    capitalize, display_name, get_mic_mute_description_text, get_mute_menu_text,
    get_mute_title_text, input_device_ids, label_color, mute_flag, mute_value, popup_image,
    split_on, status_tolerated, tray_image, AppVars, Appearance, BuildVars, LabelColor,
    MicImage, AUDIO_HARDWARE_NO_ERROR, AUDIO_HARDWARE_UNKNOWN_PROPERTY_ERROR,
};

#[test]
fn labels() {
    assert_eq!(get_mute_menu_text(true), "Unmute");
    assert_eq!(get_mute_menu_text(false), "Mute");
    assert_eq!(get_mic_mute_description_text(true), "Microphone off");
    assert_eq!(get_mic_mute_description_text(false), "Microphone on");
    assert_eq!(get_mute_title_text(true), "Muted");
    assert_eq!(get_mute_title_text(false), "Unmuted");
}

#[test]
fn images_and_colours() {
    assert_eq!(popup_image(Appearance::Light, true), MicImage::MicOff);
    assert_eq!(popup_image(Appearance::Light, false), MicImage::MicOn);
    assert_eq!(popup_image(Appearance::Dark, true), MicImage::MicOffLight);
    assert_eq!(popup_image(Appearance::Unspecified, false), MicImage::MicOnLight);
    assert_eq!(popup_image(Appearance::Unspecified, true), MicImage::MicOnLight);
    assert_eq!(popup_image(Appearance::Dark, false), MicImage::MicOnLight);
    assert_eq!(tray_image(true), MicImage::MicOffLight);
    assert_eq!(tray_image(false), MicImage::MicOnLight);
    assert_eq!(label_color(Appearance::Light, true), LabelColor::DarkRed);
    assert_eq!(label_color(Appearance::Light, false), LabelColor::Black);
    assert_eq!(label_color(Appearance::Dark, true), LabelColor::LightRed);
    assert_eq!(label_color(Appearance::Dark, false), LabelColor::White);
    assert_eq!(label_color(Appearance::Unspecified, true), LabelColor::White);
}

#[test]
fn capitalize_cases() {
    assert_eq!(capitalize(""), "");
    assert_eq!(capitalize("mic"), "Mic");
    assert_eq!(capitalize("Mic"), "Mic");
    assert_eq!(capitalize("ßa"), "SSa");
    assert_eq!(capitalize("éte"), "Éte");
}

#[test]
fn split_cases() {
    assert_eq!(split_on("a:b:c", ':'), vec!["a", "b", "c"]);
    assert_eq!(split_on("", ':'), vec![""]);
    assert_eq!(split_on(":a:", ':'), vec!["", "a", ""]);
    assert_eq!(split_on("abc", ':'), vec!["abc"]);
}

#[test]
fn display_names() {
    assert_eq!(display_name("mic-mute"), "Mic Mute");
    assert_eq!(display_name("mute"), "Mute");
    assert_eq!(display_name("a--b"), "A  B");
    assert_eq!(display_name(""), "");
}

#[test]
fn app_vars_from_package() {
    let v = AppVars::from_package("mic-mute", "0.1.0", "Mutes", "https://x", "MIT", "A <a>:B <b>");
    assert_eq!(v.name, "Mic Mute");
    assert_eq!(v.shortname, "mic-mute");
    assert_eq!(v.version, "0.1.0");
    assert_eq!(v.description, "Mutes");
    assert_eq!(v.repository, "https://x");
    assert_eq!(v.license, "MIT");
    assert_eq!(v.authors, vec!["A <a>", "B <b>"]);
}

#[test]
fn dmg_command() {
    let vars = BuildVars {
        name: "mic-mute".to_string(),
        version: "1.2.0".to_string(),
        target: "aarch64-apple-darwin".to_string(),
    };
    assert_eq!(vars.build_title(), "mic-mute-1.2.0-aarch64-apple-darwin");
    assert_eq!(vars.dmg_file_name(), "mic-mute-1.2.0-aarch64-apple-darwin.dmg");
    assert_eq!(vars.bundle_source(), "./target/aarch64-apple-darwin/release/bundle/osx");
    assert_eq!(
        vars.create_dmg_command(),
        "hdiutil create -volname mic-mute-1.2.0-aarch64-apple-darwin -srcfolder ./target/aarch64-apple-darwin/release/bundle/osx -ov -format UDZO mic-mute-1.2.0-aarch64-apple-darwin.dmg"
    );
}

#[test]
fn hardware_decoding() {
    assert!(status_tolerated(AUDIO_HARDWARE_NO_ERROR));
    assert!(status_tolerated(AUDIO_HARDWARE_UNKNOWN_PROPERTY_ERROR));
    assert!(!status_tolerated(-50));
    assert_eq!(AUDIO_HARDWARE_UNKNOWN_PROPERTY_ERROR, i32::from_be_bytes(*b"who?"));
    assert!(mute_flag(1));
    assert!(!mute_flag(0));
    assert!(!mute_flag(2));
    assert_eq!(mute_value(true), 1);
    assert_eq!(mute_value(false), 0);
    assert_eq!(input_device_ids(&vec![(5, 0), (6, 2), (7, 1), (8, 0)]), vec![6, 7]);
    assert_eq!(input_device_ids(&vec![]), Vec::<u32>::new());
}

#[test]
fn shared_handle_holds_value() {
    let h = mic_mute::arc_lock(5u8);
    *h.write().unwrap() += 1;
    assert_eq!(*h.read().unwrap(), 6);
}
