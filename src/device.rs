use vstd::prelude::*;

use crate::error::ClientError;

verus! {

/// Direction of an audio device.
#[derive(PartialEq, Eq, Structural, Hash, Debug, Clone, Copy)]
pub enum DeviceType {
    Input,
    Output,
}

impl DeviceType {
    pub fn to_string(&self) -> (r: String)
        ensures
            r@ == match self {
                DeviceType::Input => "Input"@,
                DeviceType::Output => "Output"@,
            },
    {
        match self {
            DeviceType::Input => String::from_str("Input"),
            DeviceType::Output => String::from_str("Output"),
        }
    }
}

/// The stream settings a device advertises.
#[derive(PartialEq, Eq, Structural, Debug, Clone, Copy)]
pub struct StreamConfig {
    pub sample_rate: u32,
    pub channels: u16,
}

impl StreamConfig {
    pub fn sample_rate(&self) -> (r: u32)
        ensures
            r == self.sample_rate,
    {
        self.sample_rate
    }

    pub fn channels(&self) -> (r: u16)
        ensures
            r == self.channels,
    {
        self.channels
    }
}

/// One audio device as the platform enumerated it. `device` is the
/// device's position in the platform's enumeration, when it has one.
#[derive(Debug, Clone)]
pub struct DeviceInfo {
    pub name: String,
    pub device_type: DeviceType,
    pub active: bool,
    pub default: bool,
    pub config: StreamConfig,
    pub device: Option<usize>,
}

/// A device as plain values.
pub type DeviceView = (Seq<char>, DeviceType, bool, bool, StreamConfig, Option<usize>);

/// The plain values of a device.
pub open spec fn device_view(d: DeviceInfo) -> DeviceView {
    (d.name@, d.device_type, d.active, d.default, d.config, d.device)
}

/// The plain values of a list of devices.
pub open spec fn device_views(s: Seq<DeviceInfo>) -> Seq<DeviceView> {
    s.map_values(|d: DeviceInfo| device_view(d))
}

/// `d` with its direction and its active flag set.
pub open spec fn with_flags(d: DeviceView, t: DeviceType, active: bool) -> DeviceView {
    (d.0, t, active, d.3, d.4, d.5)
}

/// Position of the first device in `s` named `name`, if any.
pub open spec fn first_named(s: Seq<DeviceView>, name: Seq<char>) -> Option<int> {
    if exists|i: int| 0 <= i < s.len() && (#[trigger] s[i]).0 == name {
        Some(
            choose|i: int|
                0 <= i < s.len() && (#[trigger] s[i]).0 == name && forall|j: int|
                    0 <= j < i ==> (#[trigger] s[j]).0 != name,
        )
    } else {
        None
    }
}

/// Position of the first default device in `s`, if any.
pub open spec fn first_default(s: Seq<DeviceView>) -> Option<int> {
    if exists|i: int| 0 <= i < s.len() && (#[trigger] s[i]).3 {
        Some(
            choose|i: int|
                0 <= i < s.len() && (#[trigger] s[i]).3 && forall|j: int|
                    0 <= j < i ==> !(#[trigger] s[j]).3,
        )
    } else {
        None
    }
}

/// Whether at most one device of `s` is active.
pub open spec fn at_most_one_active(s: Seq<DeviceView>) -> bool {
    forall|i: int, j: int| 0 <= i < s.len() && 0 <= j < s.len() && (#[trigger] s[i]).2 && (
    #[trigger] s[j]).2 ==> i == j
}

impl DeviceInfo {
    pub fn new(
        name: String,
        device_type: DeviceType,
        default: bool,
        config: StreamConfig,
        device: Option<usize>,
    ) -> (r: DeviceInfo)
        ensures
            device_view(r) == (name@, device_type, false, default, config, device),
    {
        DeviceInfo { name, device_type, active: false, default, config, device }
    }

    pub fn config(&self) -> (r: StreamConfig)
        ensures
            r == self.config,
    {
        self.config
    }

    pub fn device(&self) -> (r: Option<usize>)
        ensures
            r == self.device,
    {
        self.device
    }

    /// A copy of this device.
    pub fn duplicate(&self) -> (r: DeviceInfo)
        ensures
            device_view(r) == device_view(*self),
    {
        DeviceInfo {
            name: self.name.clone(),
            device_type: self.device_type,
            active: self.active,
            default: self.default,
            config: self.config,
            device: self.device,
        }
    }

    /// A copy of this device with the given direction and active flag.
    fn with_flags(&self, t: DeviceType, active: bool) -> (r: DeviceInfo)
        ensures
            device_view(r) == with_flags(device_view(*self), t, active),
    {
        DeviceInfo {
            name: self.name.clone(),
            device_type: t,
            active,
            default: self.default,
            config: self.config,
            device: self.device,
        }
    }
}

/// The first device named `device_name`, or `NoDevice` when none is.
pub fn get_device_config(device_name: &str, device_infos: &Vec<DeviceInfo>) -> (r: Result<
    DeviceInfo,
    ClientError,
>)
    ensures
        match first_named(device_views(device_infos@), device_name@) {
            Some(i) => r matches Ok(d) && device_view(d) == device_views(device_infos@)[i],
            None => r == Err::<DeviceInfo, ClientError>(ClientError::NoDevice),
        },
{
    let wanted = String::from_str(device_name);
    let ghost s = device_views(device_infos@);
    let mut i: usize = 0;
    while i < device_infos.len()
        invariant
            i <= device_infos@.len(),
            s == device_views(device_infos@),
            wanted@ == device_name@,
            forall|j: int| 0 <= j < i ==> (#[trigger] s[j]).0 != device_name@,
        decreases device_infos@.len() - i,
    {
        if device_infos[i].name == wanted {
            assert(s[i as int].0 == device_name@);
            assert(first_named(s, device_name@) == Some(i as int)) by {
                let k = choose|k: int|
                    0 <= k < s.len() && (#[trigger] s[k]).0 == device_name@ && forall|j: int|
                        0 <= j < k ==> (#[trigger] s[j]).0 != device_name@;
                assert(k == i) by {
                    if k < i {
                        assert(s[k].0 != device_name@);
                    }
                    if k > i {
                        assert(s[i as int].0 != device_name@);
                    }
                }
            }
            return Ok(device_infos[i].duplicate());
        }
        i += 1;
    }
    Err(ClientError::NoDevice)
}

/// Marks the first default device of `devices` active and every other
/// inactive, all with direction `device_type`; `NoDevice` when no device is
/// the default.
pub fn init_device_type(device_type: DeviceType, devices: Vec<DeviceInfo>) -> (r: Result<
    Vec<DeviceInfo>,
    ClientError,
>)
    ensures
        match first_default(device_views(devices@)) {
            Some(i) => r matches Ok(out) && device_views(out@) == device_views(devices@).map(
                |k: int, d: DeviceView| with_flags(d, device_type, k == i),
            ),
            None => r == Err::<Vec<DeviceInfo>, ClientError>(ClientError::NoDevice),
        },
{
    let ghost s = device_views(devices@);
    let mut found: Option<usize> = None;
    let mut i: usize = 0;
    while i < devices.len()
        invariant
            i <= devices@.len(),
            s == device_views(devices@),
            match found {
                Some(f) => f < i && s[f as int].3 && forall|j: int|
                    0 <= j < f ==> !(#[trigger] s[j]).3,
                None => forall|j: int| 0 <= j < i ==> !(#[trigger] s[j]).3,
            },
        decreases devices@.len() - i,
    {
        if found.is_none() && devices[i].default {
            found = Some(i);
        }
        i += 1;
    }
    let chosen = match found {
        Some(f) => f,
        None => {
            return Err(ClientError::NoDevice);
        },
    };
    assert(first_default(s) == Some(chosen as int)) by {
        let c = choose|c: int|
            0 <= c < s.len() && (#[trigger] s[c]).3 && forall|j: int|
                0 <= j < c ==> !(#[trigger] s[j]).3;
        assert(c == chosen) by {
            if c < chosen {
                assert(!s[c].3);
            }
            if c > chosen {
                assert(!s[chosen as int].3);
            }
        }
    }
    let mut out: Vec<DeviceInfo> = Vec::new();
    let mut k: usize = 0;
    while k < devices.len()
        invariant
            k <= devices@.len(),
            s == device_views(devices@),
            out@.len() == k,
            forall|j: int|
                0 <= j < k ==> device_view(#[trigger] out@[j]) == with_flags(
                    s[j],
                    device_type,
                    j == chosen,
                ),
        decreases devices@.len() - k,
    {
        out.push(devices[k].with_flags(device_type, k == chosen));
        k += 1;
    }
    assert(device_views(out@) == s.map(
        |j: int, d: DeviceView| with_flags(d, device_type, j == chosen as int),
    ));
    Ok(out)
}

/// Position of the first active device in `s`, if any.
pub open spec fn first_active(s: Seq<DeviceView>) -> Option<int> {
    if exists|i: int| 0 <= i < s.len() && (#[trigger] s[i]).2 {
        Some(
            choose|i: int|
                0 <= i < s.len() && (#[trigger] s[i]).2 && forall|j: int|
                    0 <= j < i ==> !(#[trigger] s[j]).2,
        )
    } else {
        None
    }
}

/// `s` with only position `chosen` active, if any, and every direction kept.
pub open spec fn select(s: Seq<DeviceView>, chosen: Option<int>) -> Seq<DeviceView> {
    s.map(|k: int, d: DeviceView| with_flags(d, d.1, chosen == Some(k)))
}

/// Position of the first device of `list` named `name`.
fn position_named(list: &Vec<DeviceInfo>, name: &String) -> (r: Option<usize>)
    ensures
        first_named(device_views(list@), name@) == match r {
            Some(p) => Some(p as int),
            None => None::<int>,
        },
{
    let ghost s = device_views(list@);
    let mut i: usize = 0;
    while i < list.len()
        invariant
            i <= list@.len(),
            s == device_views(list@),
            forall|j: int| 0 <= j < i ==> (#[trigger] s[j]).0 != name@,
        decreases list@.len() - i,
    {
        if list[i].name == *name {
            assert(s[i as int].0 == name@);
            assert(first_named(s, name@) == Some(i as int)) by {
                let k = choose|k: int|
                    0 <= k < s.len() && (#[trigger] s[k]).0 == name@ && forall|j: int|
                        0 <= j < k ==> (#[trigger] s[j]).0 != name@;
                assert(k == i) by {
                    if k < i {
                        assert(s[k].0 != name@);
                    }
                    if k > i {
                        assert(s[i as int].0 != name@);
                    }
                }
            }
            return Some(i);
        }
        i += 1;
    }
    None
}

/// A copy of `list` where only position `chosen`, if any, is active.
fn select_in(list: &Vec<DeviceInfo>, chosen: Option<usize>) -> (r: Vec<DeviceInfo>)
    ensures
        device_views(r@) == select(
            device_views(list@),
            match chosen {
                Some(c) => Some(c as int),
                None => None,
            },
        ),
{
    let ghost s = device_views(list@);
    let ghost c: Option<int> = match chosen {
        Some(c) => Some(c as int),
        None => None,
    };
    let mut out: Vec<DeviceInfo> = Vec::new();
    let mut k: usize = 0;
    while k < list.len()
        invariant
            k <= list@.len(),
            s == device_views(list@),
            c == match chosen {
                Some(x) => Some(x as int),
                None => None::<int>,
            },
            out@.len() == k,
            forall|j: int|
                0 <= j < k ==> device_view(#[trigger] out@[j]) == with_flags(
                    s[j],
                    s[j].1,
                    c == Some(j),
                ),
        decreases list@.len() - k,
    {
        let on = match chosen {
            Some(x) => x == k,
            None => false,
        };
        assert(device_view(list@[k as int]) == s[k as int]);
        assert(on == (c == Some(k as int)));
        out.push(list[k].with_flags(list[k].device_type, on));
        k += 1;
    }
    assert(device_views(out@) == select(s, c));
    out
}

/// At most one device is active once a selection is made.
proof fn lemma_select_one_active(s: Seq<DeviceView>, chosen: Option<int>)
    ensures
        at_most_one_active(select(s, chosen)),
{
}

/// The audio devices of both directions, with one active selection in each.
pub struct CpalDeviceHandler {
    input_devices: Vec<DeviceInfo>,
    output_devices: Vec<DeviceInfo>,
}

impl CpalDeviceHandler {
    pub closed spec fn inputs(&self) -> Seq<DeviceView> {
        device_views(self.input_devices@)
    }

    pub closed spec fn outputs(&self) -> Seq<DeviceView> {
        device_views(self.output_devices@)
    }

    /// The devices of direction `t`.
    pub open spec fn devices_of(&self, t: DeviceType) -> Seq<DeviceView> {
        match t {
            DeviceType::Input => self.inputs(),
            DeviceType::Output => self.outputs(),
        }
    }

    /// At most one device of each direction is active.
    pub open spec fn wf(&self) -> bool {
        at_most_one_active(self.inputs()) && at_most_one_active(self.outputs())
    }

    /// Takes the enumerated devices of both directions and makes each
    /// direction's default device the active one.
    pub fn new(input_devices: Vec<DeviceInfo>, output_devices: Vec<DeviceInfo>) -> (r: Result<
        CpalDeviceHandler,
        ClientError,
    >)
        ensures
            match (first_default(device_views(input_devices@)), first_default(device_views(output_devices@))) {
                (Some(i), Some(o)) => r matches Ok(h) && h.wf() && h.inputs()
                    == device_views(input_devices@).map(
                    |k: int, d: DeviceView| with_flags(d, DeviceType::Input, k == i),
                ) && h.outputs() == device_views(output_devices@).map(
                    |k: int, d: DeviceView| with_flags(d, DeviceType::Output, k == o),
                ),
                _ => r == Err::<CpalDeviceHandler, ClientError>(ClientError::NoDevice),
            },
    {
        let ghost si = device_views(input_devices@);
        let ghost so = device_views(output_devices@);
        let inputs = match init_device_type(DeviceType::Input, input_devices) {
            Ok(v) => v,
            Err(e) => return Err(e),
        };
        let outputs = match init_device_type(DeviceType::Output, output_devices) {
            Ok(v) => v,
            Err(e) => return Err(e),
        };
        let h = CpalDeviceHandler { input_devices: inputs, output_devices: outputs };
        assert(at_most_one_active(h.inputs()));
        assert(at_most_one_active(h.outputs()));
        Ok(h)
    }

    /// The devices of direction `device_type`.
    pub fn get_devices(&self, device_type: DeviceType) -> (r: Vec<DeviceInfo>)
        ensures
            device_views(r@) == self.devices_of(device_type),
    {
        let list = match device_type {
            DeviceType::Input => &self.input_devices,
            DeviceType::Output => &self.output_devices,
        };
        let mut out: Vec<DeviceInfo> = Vec::new();
        let mut k: usize = 0;
        while k < list.len()
            invariant
                k <= list@.len(),
                out@.len() == k,
                forall|j: int|
                    0 <= j < k ==> device_view(#[trigger] out@[j]) == device_view(list@[j]),
            decreases list@.len() - k,
        {
            out.push(list[k].duplicate());
            k += 1;
        }
        assert(device_views(out@) == device_views(list@));
        out
    }

    /// The active device of direction `device_type`, if any.
    pub fn get_active_device(&self, device_type: DeviceType) -> (r: Option<DeviceInfo>)
        ensures
            match first_active(self.devices_of(device_type)) {
                Some(i) => r matches Some(d) && device_view(d) == self.devices_of(device_type)[i],
                None => r is None,
            },
    {
        let list = match device_type {
            DeviceType::Input => &self.input_devices,
            DeviceType::Output => &self.output_devices,
        };
        let ghost s = device_views(list@);
        assert(s == self.devices_of(device_type));
        let mut i: usize = 0;
        while i < list.len()
            invariant
                i <= list@.len(),
                s == device_views(list@),
                s == self.devices_of(device_type),
                forall|j: int| 0 <= j < i ==> !(#[trigger] s[j]).2,
            decreases list@.len() - i,
        {
            if list[i].active {
                assert(s[i as int].2);
                assert(first_active(s) == Some(i as int)) by {
                    let k = choose|k: int|
                        0 <= k < s.len() && (#[trigger] s[k]).2 && forall|j: int|
                            0 <= j < k ==> !(#[trigger] s[j]).2;
                    assert(k == i) by {
                        if k < i {
                            assert(!s[k].2);
                        }
                        if k > i {
                            assert(!s[i as int].2);
                        }
                    }
                }
                assert(device_view(list@[i as int]) == s[i as int]);
                return Some(list[i].duplicate());
            }
            i += 1;
        }
        None
    }

    /// Makes the first device of direction `device_type` named `device_name`
    /// the active one. Every other device of that direction becomes
    /// inactive, also when no device has that name, which is `NoDevice`.
    pub fn set_active_device(&mut self, device_type: &DeviceType, device_name: String) -> (r:
        Result<(), ClientError>)
        requires
            old(self).wf(),
        ensures
            final(self).wf(),
            final(self).devices_of(*device_type) == select(
                old(self).devices_of(*device_type),
                first_named(old(self).devices_of(*device_type), device_name@),
            ),
            final(self).devices_of(other_direction(*device_type)) == old(self).devices_of(
                other_direction(*device_type),
            ),
            r is Ok <==> first_named(old(self).devices_of(*device_type), device_name@) is Some,
            r is Err ==> r == Err::<(), ClientError>(ClientError::NoDevice),
    {
        match device_type {
            DeviceType::Input => {
                let pos = position_named(&self.input_devices, &device_name);
                let updated = select_in(&self.input_devices, pos);
                proof {
                    lemma_select_one_active(
                        device_views(self.input_devices@),
                        first_named(device_views(self.input_devices@), device_name@),
                    );
                }
                self.input_devices = updated;
                match pos {
                    Some(_) => Ok(()),
                    None => Err(ClientError::NoDevice),
                }
            },
            DeviceType::Output => {
                let pos = position_named(&self.output_devices, &device_name);
                let updated = select_in(&self.output_devices, pos);
                proof {
                    lemma_select_one_active(
                        device_views(self.output_devices@),
                        first_named(device_views(self.output_devices@), device_name@),
                    );
                }
                self.output_devices = updated;
                match pos {
                    Some(_) => Ok(()),
                    None => Err(ClientError::NoDevice),
                }
            },
        }
    }

    /// The active input and output devices, which capture and playback
    /// open; `NoDevice` when a direction has none.
    pub fn active_pair(&self) -> (r: Result<(DeviceInfo, DeviceInfo), ClientError>)
        ensures
            match (first_active(self.inputs()), first_active(self.outputs())) {
                (Some(i), Some(o)) => r matches Ok(p) && device_view(p.0) == self.inputs()[i]
                    && device_view(p.1) == self.outputs()[o],
                _ => r == Err::<(DeviceInfo, DeviceInfo), ClientError>(ClientError::NoDevice),
            },
    {
        let input = match self.get_active_device(DeviceType::Input) {
            Some(d) => d,
            None => return Err(ClientError::NoDevice),
        };
        let output = match self.get_active_device(DeviceType::Output) {
            Some(d) => d,
            None => return Err(ClientError::NoDevice),
        };
        Ok((input, output))
    }
}

/// The direction opposite to `t`.
pub open spec fn other_direction(t: DeviceType) -> DeviceType {
    match t {
        DeviceType::Input => DeviceType::Output,
        DeviceType::Output => DeviceType::Input,
    }
}

} // verus!
