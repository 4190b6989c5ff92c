//! The host's capture settings: the size it encodes, the frame rate it asks for, the
//! audio device it records from and the audio pipeline it records with.

use vstd::prelude::*;

verus! {

/// Division that rounds toward zero, as Rust's `/` on signed integers.
pub open spec fn div_toward_zero(a: int, b: int) -> int {
    if a >= 0 {
        a / b
    } else {
        -((-a) / b)
    }
}

/// One side of the captured size downscaled by `downscale` percent, computed as the
/// host does it: the side as an `i32`, times `100 - downscale`, divided by 100 toward
/// zero, back to a `u32`.
pub open spec fn downscaled_side(side: u32, downscale: i32) -> u32 {
    div_toward_zero((side as i32) * (100 - downscale), 100) as u32
}

/// Whether a side can be downscaled without overflow of the `i32` product.
pub open spec fn downscale_fits(side: u32, downscale: i32) -> bool {
    i32::MIN <= (side as i32) * (100 - downscale) <= i32::MAX
}

/// The size that the host encodes: the monitor's size, downscaled when `downscale`
/// is positive.
pub open spec fn encoded_size_of(width: u32, height: u32, downscale: i32) -> (u32, u32) {
    if downscale > 0 {
        (downscaled_side(width, downscale), downscaled_side(height, downscale))
    } else {
        (width, height)
    }
}

fn downscale_side(side: u32, downscale: i32) -> (scaled: u32)
    requires
        downscale > 0,
        downscale_fits(side, downscale),
    ensures
        scaled == downscaled_side(side, downscale),
{
    let factor: i32 = 100 - downscale;
    let signed_side: i32 = side as i32;
    let product: i32 = signed_side * factor;
    let quotient: i32 = if product >= 0 {
        product / 100
    } else {
        let magnitude: i32 = (0 - (product + 1)) / 100;
        if (0 - (product + 1)) % 100 == 99 {
            0 - magnitude - 1
        } else {
            0 - magnitude
        }
    };
    quotient as u32
}

/// The size that the host encodes for a monitor of `width` × `height`.
pub fn encoded_size(width: u32, height: u32, downscale: i32) -> (size: (u32, u32))
    requires
        downscale > 0 ==> downscale_fits(width, downscale) && downscale_fits(height, downscale),
    ensures
        size == encoded_size_of(width, height, downscale),
{
    if downscale > 0 {
        (downscale_side(width, downscale), downscale_side(height, downscale))
    } else {
        (width, height)
    }
}

/// The frame rate that the host asks for: the refresh rate of the monitor's last video
/// mode, or 60 when it reports none.
pub open spec fn framerate_of(refresh_rates: Seq<u16>) -> i32 {
    if refresh_rates.len() == 0 {
        60
    } else {
        refresh_rates.last() as i32
    }
}

/// Picks the frame rate from the refresh rates of the monitor's video modes, in the
/// order the monitor lists them.
pub fn pick_framerate(refresh_rates: &Vec<u16>) -> (framerate: i32)
    ensures
        framerate == framerate_of(refresh_rates@),
{
    let mut framerate: i32 = 60;
    let mut i: usize = 0;
    while i < refresh_rates.len()
        invariant
            0 <= i <= refresh_rates@.len(),
            framerate == framerate_of(refresh_rates@.take(i as int)),
        decreases refresh_rates@.len() - i,
    {
        framerate = refresh_rates[i] as i32;
        i = i + 1;
        assert(refresh_rates@.take(i as int).last() == refresh_rates@[i - 1]);
    }
    assert(refresh_rates@.take(i as int) =~= refresh_rates@);
    framerate
}

/// The properties of an audio sink device that the host looks at, as serialized text:
/// `device.api`, `device.default` and `device.id` (`None` where the device lacks one).
pub struct AudioDevice {
    pub api: Option<String>,
    pub is_default: Option<String>,
    pub id: Option<String>,
}

/// The abstract value of an [`AudioDevice`].
pub struct AudioDeviceView {
    pub api: Option<Seq<char>>,
    pub is_default: Option<Seq<char>>,
    pub id: Option<Seq<char>>,
}

pub open spec fn text_view(text: Option<String>) -> Option<Seq<char>> {
    match text {
        Some(t) => Some(t@),
        None => None,
    }
}

impl View for AudioDevice {
    type V = AudioDeviceView;

    open spec fn view(&self) -> AudioDeviceView {
        AudioDeviceView {
            api: text_view(self.api),
            is_default: text_view(self.is_default),
            id: text_view(self.id),
        }
    }
}

/// A device of the WASAPI2 API.
pub open spec fn is_wasapi2(d: AudioDeviceView) -> bool {
    d.api == Some("wasapi2"@)
}

/// The WASAPI2 device that the system uses by default.
pub open spec fn is_default_wasapi2(d: AudioDeviceView) -> bool {
    is_wasapi2(d) && d.is_default == Some("true"@)
}

/// The properties the host reads of a device are there: the default flag of every
/// WASAPI2 device, and the id of the default one.
pub open spec fn device_complete(d: AudioDeviceView) -> bool {
    &&& is_wasapi2(d) ==> d.is_default is Some
    &&& is_default_wasapi2(d) ==> d.id is Some
}

/// The id of the last default WASAPI2 device in the list, or the empty text.
pub open spec fn selected_device_id(devices: Seq<AudioDeviceView>) -> Seq<char>
    decreases devices.len(),
{
    if devices.len() == 0 {
        Seq::empty()
    } else if is_default_wasapi2(devices.last()) {
        devices.last().id.unwrap()
    } else {
        selected_device_id(devices.drop_last())
    }
}

/// The abstract list of devices.
pub open spec fn devices_view(devices: Seq<AudioDevice>) -> Seq<AudioDeviceView> {
    devices.map_values(|d: AudioDevice| d@)
}

fn text_equals(text: &Option<String>, expected: &str) -> (eq: bool)
    ensures
        eq == (text_view(*text) == Some(expected@)),
{
    match text {
        Some(t) => {
            let e = String::from_str(expected);
            *t == e
        },
        None => false,
    }
}

/// Chooses the audio device to record from: the id of the last WASAPI2 device marked
/// default, or the empty text when there is none.
pub fn select_audio_device(devices: &Vec<AudioDevice>) -> (id: String)
    requires
        forall|i: int| 0 <= i < devices@.len() ==> device_complete(#[trigger] devices@[i]@),
    ensures
        id@ == selected_device_id(devices_view(devices@)),
{
    let mut id = String::new();
    let mut i: usize = 0;
    while i < devices.len()
        invariant
            0 <= i <= devices@.len(),
            forall|j: int| 0 <= j < devices@.len() ==> device_complete(#[trigger] devices@[j]@),
            id@ == selected_device_id(devices_view(devices@.take(i as int))),
        decreases devices@.len() - i,
    {
        let device = &devices[i];
        let ghost before = devices_view(devices@.take(i as int));
        assert(devices_view(devices@.take(i + 1)).drop_last() =~= before);
        assert(devices_view(devices@.take(i + 1)).last() == device@);
        if text_equals(&device.api, "wasapi2") && text_equals(&device.is_default, "true") {
            match &device.id {
                Some(found) => {
                    id = found.clone();
                },
                None => {},
            }
        }
        i = i + 1;
    }
    assert(devices@.take(i as int) =~= devices@);
    id
}

/// The launch description of the host's audio pipeline: loopback capture of the device,
/// resampled to 24 kHz and encoded as Opus into an app sink.
pub open spec fn capture_pipeline_of(device_id: Seq<char>) -> Seq<char> {
    "wasapi2src device="@ + device_id
        + " loopback=true ! audioresample ! audioconvert ! queue ! audio/x-raw,rate=24000 ! opusenc ! appsink"@
}

/// Writes the launch description of the host's audio pipeline for a device.
pub fn capture_pipeline_description(device_id: &str) -> (description: String)
    ensures
        description@ == capture_pipeline_of(device_id@),
{
    let mut description = String::from_str("wasapi2src device=");
    description.append(device_id);
    description.append(
        " loopback=true ! audioresample ! audioconvert ! queue ! audio/x-raw,rate=24000 ! opusenc ! appsink",
    );
    description
}

/// The launch description of the viewer's audio pipeline: Opus from an app source,
/// decoded, resampled and played.
pub open spec fn playback_pipeline_of() -> Seq<char> {
    "appsrc ! opusparse ! opusdec !audio/x-raw,rate=24000 ! queue ! audioconvert ! audioresample ! wasapi2sink"@
}

/// Writes the launch description of the viewer's audio pipeline.
pub fn playback_pipeline_description() -> (description: String)
    ensures
        description@ == playback_pipeline_of(),
{
    let mut description = String::from_str(
        "appsrc ! opusparse ! opusdec !audio/x-raw,rate=24000 ! queue ! audioconvert ! audioresample ! wasapi2sink",
    );
    description.append("");
    proof {
        reveal_strlit("");
    }
    description
}

} // verus!
