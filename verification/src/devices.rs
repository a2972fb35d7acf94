//! Finding the audio devices a recording is asked to use, among those the backend lists.
use vstd::prelude::*;
use vstd::string::StringExecFns;
use crate::errors::{RecorderError, RuntimeBuilderError};
use crate::format::SampleFormat;

verus! {

/// Which side of the recording a device is for.
#[derive(Debug, Clone, Copy, PartialEq, Eq, Structural)]
pub enum DeviceRole {
    Input,
    Output,
}

/// Whether the device listed with name `listed` (`None` when its name could not be read)
/// is the device named `name`.
pub open spec fn names_match(listed: Option<String>, name: Seq<char>) -> bool {
    listed matches Some(s) && s@ == name
}

/// Whether some device in `names` is named `name`.
pub open spec fn lists_name(names: Seq<Option<String>>, name: Seq<char>) -> bool {
    exists|j: int| 0 <= j < names.len() && names_match(#[trigger] names[j], name)
}

/// The position of the first device in `names` that is named `name`, if any. A device
/// whose name could not be read (`None`) matches no name.
pub fn find_device_by_name(names: &Vec<Option<String>>, name: &String) -> (r: Option<usize>)
    ensures
        r matches Some(i) ==> i < names@.len() && names_match(names@[i as int], name@) && forall|
            j: int,
        | 0 <= j < i ==> !names_match(#[trigger] names@[j], name@),
        r is None ==> forall|j: int| 0 <= j < names@.len() ==> !names_match(#[trigger] names@[j], name@),
{
    let mut i: usize = 0;
    while i < names.len()
        invariant
            i <= names@.len(),
            forall|j: int| 0 <= j < i ==> !names_match(#[trigger] names@[j], name@),
        decreases names@.len() - i,
    {
        match &names[i] {
            Some(listed) => {
                if listed.eq(name) {
                    return Some(i);
                }
            },
            None => {},
        }
        i = i + 1;
    }
    None
}

/// Finds the device named `name` in `listing`, the backend's list of device names for
/// `role` (or the message of its failure to list them). A failed listing is reported as
/// such; a name not in the list as a device not found.
pub fn find_named_device(
    listing: Result<Vec<Option<String>>, String>,
    name: &String,
    role: DeviceRole,
) -> (r: Result<usize, RuntimeBuilderError>)
    ensures
        listing matches Err(e) ==> (r matches Err(RuntimeBuilderError::GetIoDeviceError(m, w)) && m
            == e && w@ == (if role is Input {
            "input_devices"@
        } else {
            "output_devices"@
        })),
        listing matches Ok(names) ==> (r is Ok || r matches Err(
            RuntimeBuilderError::GetIoDeviceError(_, _),
        )),
        listing matches Ok(names) ==> (r matches Ok(i) ==> (i < names@.len() && names_match(
            names@[i as int],
            name@,
        ) && forall|j: int| 0 <= j < i ==> !names_match(#[trigger] names@[j], name@))),
        listing matches Ok(names) ==> (r is Err <==> !lists_name(names@, name@)),
        listing matches Ok(names) ==> (r matches Err(RuntimeBuilderError::GetIoDeviceError(m, w))
            ==> (m@ == (if role is Input {
            "requested input device not found"@
        } else {
            "requested output device not found"@
        }) && w@ == (if role is Input {
            "input_device"@
        } else {
            "output_device"@
        }))),
{
    proof {
        reveal_strlit("input_devices");
        reveal_strlit("output_devices");
        reveal_strlit("requested input device not found");
        reveal_strlit("requested output device not found");
        reveal_strlit("input_device");
        reveal_strlit("output_device");
    }
    let names = match listing {
        Ok(names) => names,
        Err(err) => {
            let which = match role {
                DeviceRole::Input => String::from_str("input_devices"),
                DeviceRole::Output => String::from_str("output_devices"),
            };
            return Err(RuntimeBuilderError::GetIoDeviceError(err, which));
        },
    };
    match find_device_by_name(&names, name) {
        Some(i) => Ok(i),
        None => {
            let (message, which) = match role {
                DeviceRole::Input => (
                    String::from_str("requested input device not found"),
                    String::from_str("input_device"),
                ),
                DeviceRole::Output => (
                    String::from_str("requested output device not found"),
                    String::from_str("output_device"),
                ),
            };
            Err(RuntimeBuilderError::GetIoDeviceError(message, which))
        },
    }
}

/// Takes the system's default device for `role`, or reports that there is none.
pub fn require_default_device<D>(device: Option<D>, role: DeviceRole) -> (r: Result<D, RuntimeBuilderError>)
    ensures
        device matches Some(d) ==> r == Ok::<D, RuntimeBuilderError>(d),
        device is None ==> (r matches Err(RuntimeBuilderError::GetIoDeviceError(m, w)) && m@
            == "no default device found"@ && w@ == (if role is Input {
            "default_input"@
        } else {
            "default_output"@
        })),
{
    proof {
        reveal_strlit("no default device found");
        reveal_strlit("default_input");
        reveal_strlit("default_output");
    }
    match device {
        Some(device) => Ok(device),
        None => {
            let which = match role {
                DeviceRole::Input => String::from_str("default_input"),
                DeviceRole::Output => String::from_str("default_output"),
            };
            Err(RuntimeBuilderError::GetIoDeviceError(String::from_str("no default device found"), which))
        },
    }
}

/// The word that names `role` in messages: `input` or `output`.
pub open spec fn spec_role_label(role: DeviceRole) -> Seq<char> {
    if role is Input {
        "input"@
    } else {
        "output"@
    }
}

/// The word that names `role` in messages.
pub fn role_label(role: DeviceRole) -> (s: String)
    ensures
        s@ == spec_role_label(role),
{
    proof {
        reveal_strlit("input");
        reveal_strlit("output");
    }
    match role {
        DeviceRole::Input => String::from_str("input"),
        DeviceRole::Output => String::from_str("output"),
    }
}

/// Streams are only captured as 32-bit floating-point samples: any other format of the
/// `role` device is refused, naming the format and the side.
pub fn check_capture_format(format: SampleFormat, role: DeviceRole) -> (r: Result<(), RecorderError>)
    ensures
        format == SampleFormat::F32 ==> r is Ok,
        format != SampleFormat::F32 ==> (r matches Err(RecorderError::UnsupportedSampleFormat(f, s))
            && f == format && s@ == spec_role_label(role)),
{
    match format {
        SampleFormat::F32 => Ok(()),
        sample_format => Err(RecorderError::UnsupportedSampleFormat(sample_format, role_label(role))),
    }
}

/// The runtime's version of `check_capture_format`, with the runtime builder's error.
pub fn check_stream_format(format: SampleFormat, role: DeviceRole) -> (r: Result<(), RuntimeBuilderError>)
    ensures
        format == SampleFormat::F32 ==> r is Ok,
        format != SampleFormat::F32 ==> (r matches Err(
            RuntimeBuilderError::UnsupportedSampleFormat(f, s),
        ) && f == format && s@ == spec_role_label(role)),
{
    match format {
        SampleFormat::F32 => Ok(()),
        sample_format => Err(
            RuntimeBuilderError::UnsupportedSampleFormat(sample_format, role_label(role)),
        ),
    }
}

/// Whether a requested device name asks for the system default, which is so for the name
/// `default`.
pub fn is_default_request(name: &String) -> (b: bool)
    ensures
        b == (name@ == "default"@),
{
    proof {
        reveal_strlit("default");
    }
    let default_name = String::from_str("default");
    name.eq(&default_name)
}

} // verus!
