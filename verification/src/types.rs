use vstd::prelude::*;

verus! {

/// A record describing one output endpoint, as shown to the host:
/// its id, its friendly name, its raw device state and whether it is
/// the system default output device.
#[derive(Clone, Debug)]
pub struct AudioDevice {
    pub id: String,
    pub name: String,
    pub state: u32,
    pub is_default: bool,
}

/// Mark each device record whose id equals the default device's id.
///
/// The records keep their id, name and state; only the `is_default`
/// flag is rewritten, and it is set exactly on the records whose id is
/// the given default id.
pub fn mark_default_device(devices: &Vec<AudioDevice>, default_id: &Option<String>) -> (r: Vec<
    AudioDevice,
>)
    ensures
        r@.len() == devices@.len(),
        forall|i: int|
            0 <= i < r@.len() ==> {
                &&& r@[i].id@ == devices@[i].id@
                &&& r@[i].name@ == devices@[i].name@
                &&& r@[i].state == devices@[i].state
                &&& r@[i].is_default == (default_id matches Some(d) && devices@[i].id@ == d@)
            },
{
    let mut out: Vec<AudioDevice> = Vec::new();
    let mut i: usize = 0;
    while i < devices.len()
        invariant
            i <= devices@.len(),
            out@.len() == i,
            forall|j: int|
                0 <= j < i ==> {
                    &&& out@[j].id@ == devices@[j].id@
                    &&& out@[j].name@ == devices@[j].name@
                    &&& out@[j].state == devices@[j].state
                    &&& out@[j].is_default == (default_id matches Some(d) && devices@[j].id@
                        == d@)
                },
        decreases devices@.len() - i,
    {
        let device = &devices[i];
        let is_default = match default_id {
            Some(d) => device.id.eq(d),
            None => false,
        };
        out.push(
            AudioDevice {
                id: device.id.clone(),
                name: device.name.clone(),
                state: device.state,
                is_default,
            },
        );
        i += 1;
    }
    out
}

} // verus!
