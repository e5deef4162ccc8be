use crate::naming::{decimal, decimal_text};
use vstd::prelude::*;
use vstd::string::StringExecFns;

verus! {

/// An audio input device as offered to the user.
#[derive(Debug, Clone)]
pub struct AudioDeviceInfo {
    pub id: String,
    pub name: String,
    pub is_input: bool,
    pub is_default: bool,
}

/// The entry offered for the input device called `name`.
pub open spec fn device_entry(d: AudioDeviceInfo, name: Seq<char>, default_name: Option<Seq<char>>) -> bool {
    &&& d.id@ == name
    &&& d.name@ == name
    &&& d.is_input
    &&& d.is_default == (default_name == Some(name))
}

/// Lists the input devices, in the order given, each identified by its
/// name and marked as default when its name is the default device's.
pub fn describe_input_devices(names: &Vec<String>, default_name: &Option<String>) -> (r: Vec<
    AudioDeviceInfo,
>)
    ensures
        r@.len() == names@.len(),
        forall|i: int|
            0 <= i < names@.len() ==> device_entry(
                #[trigger] r@[i],
                names@[i]@,
                match default_name {
                    Some(d) => Some(d@),
                    None => None,
                },
            ),
{
    let ghost dflt = match default_name {
        Some(d) => Some(d@),
        None => None::<Seq<char>>,
    };
    let mut r: Vec<AudioDeviceInfo> = Vec::new();
    let mut i: usize = 0;
    while i < names.len()
        invariant
            i <= names@.len(),
            r@.len() == i,
            dflt == match default_name {
                Some(d) => Some(d@),
                None => None,
            },
            forall|j: int| 0 <= j < i ==> device_entry(#[trigger] r@[j], names@[j]@, dflt),
        decreases names@.len() - i,
    {
        let name = &names[i];
        let is_default = match default_name {
            Some(d) => *d == *name,
            None => false,
        };
        r.push(
            AudioDeviceInfo {
                id: name.clone(),
                name: name.clone(),
                is_input: true,
                is_default,
            },
        );
        i += 1;
    }
    r
}

/// The position of the first device called `wanted`.
pub fn find_device_by_name(names: &Vec<String>, wanted: &str) -> (r: Option<usize>)
    ensures
        match r {
            Some(i) => i < names@.len() && names@[i as int]@ == wanted@ && forall|j: int|
                0 <= j < i ==> (#[trigger] names@[j])@ != wanted@,
            None => forall|j: int| 0 <= j < names@.len() ==> (#[trigger] names@[j])@ != wanted@,
        },
{
    let target = String::from_str(wanted);
    let mut i: usize = 0;
    while i < names.len()
        invariant
            i <= names@.len(),
            target@ == wanted@,
            forall|j: int| 0 <= j < i ==> (#[trigger] names@[j])@ != wanted@,
        decreases names@.len() - i,
    {
        if names[i] == target {
            return Some(i);
        }
        i += 1;
    }
    None
}

/// How a display is named to the user: the main display by that title,
/// the others by their one-based position.
pub open spec fn display_title(index: nat, is_main: bool) -> Seq<char> {
    if is_main {
        "Main Display"@
    } else {
        "Display "@ + decimal(index + 1)
    }
}

/// The name shown for the display at position `index` of the list.
pub fn display_name(index: usize, is_main: bool) -> (r: String)
    requires
        index < usize::MAX,
    ensures
        r@ == display_title(index as nat, is_main),
{
    if is_main {
        String::from_str("Main Display")
    } else {
        let mut r = String::from_str("Display ");
        r.append(decimal_text((index + 1) as u64).as_str());
        r
    }
}

} // verus!
