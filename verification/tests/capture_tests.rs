use qtpstream::capture::{
    capture_pipeline_description, encoded_size, pick_framerate, playback_pipeline_description,
    select_audio_device, AudioDevice,
};

#[test]
fn size_is_kept_without_downscale() {
    assert_eq!(encoded_size(1536, 864, 0), (1536, 864));
    assert_eq!(encoded_size(1536, 864, -10), (1536, 864));
}

#[test]
fn size_is_downscaled_by_percent() {
    assert_eq!(encoded_size(1536, 864, 20), (1228, 691));
    assert_eq!(encoded_size(1920, 1080, 40), (1152, 648));
}

#[test]
fn downscale_beyond_hundred_wraps_like_the_casts() {
    // 100 * (100 - 150) / 100 = -50, which as a u32 wraps around.
    assert_eq!(encoded_size(100, 101, 150), ((-50i32) as u32, (-50i32) as u32));
    // -5050 / 100 rounds toward zero.
    assert_eq!(encoded_size(101, 101, 150).0, (-50i32) as u32);
}

#[test]
fn framerate_is_the_last_mode_or_sixty() {
    assert_eq!(pick_framerate(&vec![]), 60);
    assert_eq!(pick_framerate(&vec![60, 144, 75]), 75);
    assert_eq!(pick_framerate(&vec![240]), 240);
}

fn device(api: Option<&str>, is_default: Option<&str>, id: Option<&str>) -> AudioDevice {
    AudioDevice {
        api: api.map(String::from),
        is_default: is_default.map(String::from),
        id: id.map(String::from),
    }
}

#[test]
fn default_wasapi2_device_is_chosen() {
    let devices = vec![
        device(Some("wasapi"), Some("true"), Some("a")),
        device(Some("wasapi2"), Some("false"), Some("b")),
        device(Some("wasapi2"), Some("true"), Some("c")),
        device(None, None, None),
    ];
    assert_eq!(select_audio_device(&devices), "c");
}

#[test]
fn last_default_device_wins() {
    let devices = vec![
        device(Some("wasapi2"), Some("true"), Some("first")),
        device(Some("wasapi2"), Some("true"), Some("second")),
    ];
    assert_eq!(select_audio_device(&devices), "second");
}

#[test]
fn no_device_gives_empty_id() {
    assert_eq!(select_audio_device(&vec![]), "");
    assert_eq!(select_audio_device(&vec![device(Some("mmdevice"), None, None)]), "");
}

#[test]
fn capture_pipeline_names_the_device() {
    assert_eq!(
        capture_pipeline_description("{0.0.0.1}"),
        "wasapi2src device={0.0.0.1} loopback=true ! audioresample ! audioconvert ! queue ! audio/x-raw,rate=24000 ! opusenc ! appsink"
    );
}

#[test]
fn playback_pipeline_is_fixed() {
    assert_eq!(
        playback_pipeline_description(),
        "appsrc ! opusparse ! opusdec !audio/x-raw,rate=24000 ! queue ! audioconvert ! audioresample ! wasapi2sink"
    );
}

#[test]
fn irrelevant_devices_do_not_change_the_choice() {
    let base = vec![
        device(Some("wasapi2"), Some("true"), Some("x")),
        device(Some("wasapi2"), Some("false"), Some("y")),
    ];
    let grown = vec![
        device(None, None, None),
        device(Some("wasapi2"), Some("true"), Some("x")),
        device(Some("mmdevice"), Some("true"), Some("m")),
        device(Some("wasapi2"), Some("false"), Some("y")),
        device(Some("wasapi2"), Some("no"), None),
    ];
    assert_eq!(select_audio_device(&base), select_audio_device(&grown));
}
