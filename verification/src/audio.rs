use vstd::prelude::*;

use crate::state::{RecordingState, SessionEvent, session_step_spec};
use crate::text::{option_string_view, holds_string};

verus! {

/// The sample rate the transcription models expect, in hertz.
pub const TARGET_SAMPLE_RATE: u32 = 16000;

/// Which microphone to open.
#[derive(Debug, Clone, Copy, PartialEq, Eq, Structural)]
pub enum DeviceChoice {
    /// The input device at this position of the enumerated list.
    Listed(usize),
    /// The system's default input device.
    SystemDefault,
}

/// The names of the enumerated input devices as plain values (`None` where a
/// device's name could not be read).
pub open spec fn device_names_view(names: Seq<Option<String>>) -> Seq<Option<Seq<char>>> {
    names.map_values(|o: Option<String>| option_string_view(o))
}

/// Viewing the device names keeps each of them, in order.
pub proof fn lemma_device_names_view(names: Seq<Option<String>>)
    ensures
        device_names_view(names).len() == names.len(),
        forall|i: int|
            0 <= i < names.len() ==> #[trigger] device_names_view(names)[i] == option_string_view(
                names[i],
            ),
{
}

/// Whether no enumerated device carries the saved name.
pub open spec fn saved_device_absent(saved: Option<Seq<char>>, names: Seq<Option<Seq<char>>>) -> bool {
    saved is None || forall|j: int| 0 <= j < names.len() ==> names[j] != saved
}

/// The microphone to record from: the first enumerated device whose name is
/// the saved device name; when no name is saved or no device carries it, the
/// system default; and when there is no default device either, the error
/// "No default input device available".
pub fn choose_input_device(
    saved: &Option<String>,
    names: &Vec<Option<String>>,
    has_default: bool,
) -> (r: Result<DeviceChoice, String>)
    ensures
        match r {
            Ok(DeviceChoice::Listed(i)) => {
                &&& option_string_view(*saved) is Some
                &&& i < names@.len()
                &&& device_names_view(names@)[i as int] == option_string_view(*saved)
                &&& forall|j: int| 0 <= j < i ==> device_names_view(names@)[j]
                    != option_string_view(*saved)
            },
            Ok(DeviceChoice::SystemDefault) => {
                &&& has_default
                &&& saved_device_absent(option_string_view(*saved), device_names_view(names@))
            },
            Err(e) => {
                &&& !has_default
                &&& saved_device_absent(option_string_view(*saved), device_names_view(names@))
                &&& e@ == "No default input device available"@
            },
        },
        (option_string_view(*saved) is Some && exists|j: int|
            0 <= j < names@.len() && option_string_view(#[trigger] names@[j])
                == option_string_view(*saved)) ==> r matches Ok(DeviceChoice::Listed(_)),
        r matches Ok(DeviceChoice::Listed(i)) ==> i < names@.len() && option_string_view(
            names@[i as int],
        ) == option_string_view(*saved) && option_string_view(*saved) is Some,
        r matches Ok(DeviceChoice::Listed(i)) ==> forall|j: int|
            0 <= j < i ==> option_string_view(#[trigger] names@[j]) != option_string_view(*saved),
        r is Err ==> !has_default,
        r matches Ok(DeviceChoice::SystemDefault) ==> has_default,
{
    let ghost sv = option_string_view(*saved);
    let ghost nv = device_names_view(names@);
    proof {
        lemma_device_names_view(names@);
    }
    if let Some(name) = saved {
        let mut i: usize = 0;
        while i < names.len()
            invariant
                i <= names@.len(),
                sv == Some(name@),
                sv == option_string_view(*saved),
                nv == device_names_view(names@),
                forall|j: int| 0 <= j < i ==> option_string_view(#[trigger] names@[j]) != sv,
                forall|j: int|
                    0 <= j < names@.len() ==> #[trigger] nv[j] == option_string_view(names@[j]),
            decreases names@.len() - i,
        {
            assert(nv[i as int] == option_string_view(names@[i as int]));
            if holds_string(&names[i], name) {
                return Ok(DeviceChoice::Listed(i));
            }
            i = i + 1;
        }
    }
    if has_default {
        Ok(DeviceChoice::SystemDefault)
    } else {
        Err(String::from_str("No default input device available"))
    }
}

/// What to do with the captured audio once the microphone is closed.
#[derive(Debug, Clone, Copy, PartialEq, Eq, Structural)]
pub enum StopPlan {
    /// Nothing was captured: skip transcription and go back to listening.
    Discard,
    /// Transcribe, first averaging interleaved channels down to one
    /// (`downmix`) and converting to the target rate (`resample`) as needed.
    Transcribe { downmix: bool, resample: bool },
}

/// The handling of a stopped capture of `sample_count` interleaved samples
/// taken with `channels` channels at `sample_rate` hertz. The controller's
/// next state agrees with it: `Listening` for a discarded capture,
/// `Transcribing` otherwise.
pub fn plan_stop(sample_count: usize, channels: u16, sample_rate: u32) -> (p: StopPlan)
    ensures
        (p == StopPlan::Discard) == (sample_count == 0),
        p matches StopPlan::Transcribe { downmix, resample } ==> downmix == (channels > 1)
            && resample == (sample_rate != TARGET_SAMPLE_RATE),
        (p == StopPlan::Discard) == (session_step_spec(
            SessionEvent::CaptureStopped { samples: sample_count },
        ) == RecordingState::Listening),
{
    if sample_count == 0 {
        StopPlan::Discard
    } else {
        StopPlan::Transcribe { downmix: channels > 1, resample: sample_rate != TARGET_SAMPLE_RATE }
    }
}

} // verus!
