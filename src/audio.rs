use vstd::prelude::*;

verus! {

/// Which input device to open, and which of its supported stream
/// configurations (1-based) to use.
pub struct AudioConfig {
    pub input_device: String,
    pub input_channel: usize,
}

/// One input device as the device list shows it.
pub struct AudioDeviceMeta {
    pub name: String,
    pub default: bool,
}

/// The device name that stands for the host's default input device.
pub open spec fn default_token() -> Seq<char> {
    seq!['d', 'e', 'f', 'a', 'u', 'l', 't']
}

/// Where the configured input device is to be found.
#[derive(Clone, Copy, Debug, PartialEq, Eq, Structural)]
pub enum DeviceChoice {
    /// The host's default input device.
    HostDefault,
    /// The enumerated input device at this position.
    Listed(usize),
    /// No enumerated input device has the configured name.
    NotFound,
}

/// The device list: each enumerated name, marked default when it equals the
/// name of the host's default input device.
pub fn describe_devices(names: &Vec<String>, default_name: &String) -> (r: Vec<AudioDeviceMeta>)
    ensures
        r@.len() == names@.len(),
        forall|i: int|
            0 <= i < names@.len() ==> {
                &&& (#[trigger] r@[i]).name@ == names@[i]@
                &&& r@[i].default == (names@[i]@ == default_name@)
            },
{
    let mut r: Vec<AudioDeviceMeta> = Vec::new();
    let mut i: usize = 0;
    while i < names.len()
        invariant
            i <= names@.len(),
            r@.len() == i,
            forall|k: int|
                0 <= k < i ==> {
                    &&& (#[trigger] r@[k]).name@ == names@[k]@
                    &&& r@[k].default == (names@[k]@ == default_name@)
                },
        decreases names@.len() - i,
    {
        let name = names[i].clone();
        let default = names[i] == *default_name;
        r.push(AudioDeviceMeta { name, default });
        i = i + 1;
    }
    r
}

/// Finds the device named in `config` among the enumerated input devices:
/// the literal name "default" picks the host's default device, any other name
/// the first enumerated device of that name.
pub fn select_device(config: &AudioConfig, names: &Vec<String>) -> (r: DeviceChoice)
    ensures
        config.input_device@ == default_token() ==> r == DeviceChoice::HostDefault,
        config.input_device@ != default_token() ==> match r {
            DeviceChoice::Listed(i) => {
                &&& i < names@.len()
                &&& names@[i as int]@ == config.input_device@
                &&& forall|j: int| 0 <= j < i ==> names@[j]@ != config.input_device@
            },
            DeviceChoice::NotFound => forall|j: int|
                0 <= j < names@.len() ==> names@[j]@ != config.input_device@,
            DeviceChoice::HostDefault => false,
        },
{
    let token = "default".to_owned();
    proof {
        reveal_strlit("default");
    }
    assert(token@ =~= default_token());
    let wants_default = config.input_device.eq(&token);
    if wants_default {
        return DeviceChoice::HostDefault;
    }
    assert(config.input_device@ != default_token());
    let mut i: usize = 0;
    while i < names.len()
        invariant
            i <= names@.len(),
            config.input_device@ != default_token(),
            forall|j: int| 0 <= j < i ==> names@[j]@ != config.input_device@,
        decreases names@.len() - i,
    {
        if names[i] == config.input_device {
            return DeviceChoice::Listed(i);
        }
        i = i + 1;
    }
    DeviceChoice::NotFound
}

/// The 0-based position of the stream configuration that `config` names by
/// its 1-based index, among `count` supported ones; `None` when out of range.
pub fn select_config(config: &AudioConfig, count: usize) -> (r: Option<usize>)
    ensures
        r == (if 1 <= config.input_channel <= count {
            Some((config.input_channel - 1) as usize)
        } else {
            None
        }),
{
    if 1 <= config.input_channel && config.input_channel <= count {
        Some(config.input_channel - 1)
    } else {
        None
    }
}

} // verus!
