//! Which microphone to record from.

use vstd::prelude::*;
use crate::tray::opt_view;

verus! {

/// Which input device the recorder opens.
#[derive(Debug, Clone, Copy, PartialEq, Eq, Structural)]
pub enum DeviceChoice {
    /// No device is configured: use the system default.
    SystemDefault,
    /// The configured device: this index in the device list.
    Named(usize),
    /// The configured device is not there (unplugged, disabled): fall back
    /// to the system default, with a warning.
    Missing,
}

/// Picks the device to record from: the first device whose name is the
/// configured one; the system default when none is configured or none has
/// that name. `names[i]` is `None` for a device whose name could not be read.
pub fn choose_input_device(preferred: &Option<String>, names: &Vec<Option<String>>) -> (c: DeviceChoice)
    ensures
        preferred is None ==> c == DeviceChoice::SystemDefault,
        preferred matches Some(p) ==> match c {
            DeviceChoice::Named(i) => i < names@.len() && opt_view(names@[i as int]) == Some(p@)
                && forall|j: int| 0 <= j < i ==> opt_view(names@[j]) != Some(p@),
            DeviceChoice::Missing => forall|j: int|
                0 <= j < names@.len() ==> opt_view(names@[j]) != Some(p@),
            DeviceChoice::SystemDefault => false,
        },
{
    match preferred {
        None => DeviceChoice::SystemDefault,
        Some(p) => {
            let mut i: usize = 0;
            while i < names.len()
                invariant
                    i <= names.len(),
                    opt_view(*preferred) == Some(p@),
                    forall|j: int| 0 <= j < i ==> opt_view(names@[j]) != Some(p@),
                decreases names.len() - i,
            {
                match &names[i] {
                    Some(n) => {
                        if *n == *p {
                            return DeviceChoice::Named(i);
                        }
                    },
                    None => {},
                }
                i = i + 1;
            }
            DeviceChoice::Missing
        },
    }
}

/// The names that could be read, in order.
pub open spec fn readable_names(names: Seq<Option<Seq<char>>>) -> Seq<Seq<char>>
    decreases names.len(),
{
    if names.len() == 0 {
        Seq::empty()
    } else {
        let rest = readable_names(names.drop_last());
        match names.last() {
            Some(n) => rest.push(n),
            None => rest,
        }
    }
}

/// The devices to list in the menu: those whose name could be read, in
/// order; a device that fails to report its name is skipped.
pub fn usable_device_names(names: Vec<Option<String>>) -> (r: Vec<String>)
    ensures
        r@.map_values(|s: String| s@) == readable_names(names@.map_values(|o: Option<String>| opt_view(o))),
{
    let ghost all = names@.map_values(|o: Option<String>| opt_view(o));
    let mut r: Vec<String> = Vec::new();
    let mut i: usize = 0;
    while i < names.len()
        invariant
            i <= names.len(),
            all == names@.map_values(|o: Option<String>| opt_view(o)),
            r@.map_values(|s: String| s@) == readable_names(all.take(i as int)),
        decreases names.len() - i,
    {
        assert(all.take(i + 1).drop_last() =~= all.take(i as int));
        match &names[i] {
            Some(n) => {
                let ghost before = r@;
                r.push(n.clone());
                assert(r@.map_values(|s: String| s@) =~= before.map_values(|s: String| s@).push(n@));
            },
            None => {},
        }
        i = i + 1;
    }
    assert(all.take(names.len() as int) =~= all);
    r
}

} // verus!
