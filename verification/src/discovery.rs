//! Picking the keyboard out of the input devices the system lists.
//!
//! The caller lists the entries of the input class directory and reads each
//! entry's device name; this module decides which entry is the keyboard and
//! names its device node. Names are handled as bytes.

use vstd::prelude::*;

verus! {

/// What the file name of an event device starts with: `event`.
pub const EVENT_PREFIX: [u8; 5] = [0x65, 0x76, 0x65, 0x6e, 0x74];

/// What the device name of a keyboard contains: `keyboard`.
pub const KEYBOARD_MARKER: [u8; 8] = [0x6b, 0x65, 0x79, 0x62, 0x6f, 0x61, 0x72, 0x64];

/// The directory of the device nodes, with its trailing slash: `/dev/input/`.
pub const DEVICE_DIR: [u8; 11] = [0x2f, 0x64, 0x65, 0x76, 0x2f, 0x69, 0x6e, 0x70, 0x75, 0x74, 0x2f];

/// Whether `needle` stands in `haystack` at position `at`.
pub open spec fn occurs_at(needle: Seq<u8>, haystack: Seq<u8>, at: int) -> bool {
    &&& 0 <= at
    &&& at + needle.len() <= haystack.len()
    &&& haystack.subrange(at, at + needle.len()) == needle
}

/// Whether `needle` stands somewhere in `haystack`.
pub open spec fn occurs_in(needle: Seq<u8>, haystack: Seq<u8>) -> bool {
    exists|at: int| occurs_at(needle, haystack, at)
}

/// One entry of the input class directory, as the caller found it.
#[derive(Debug)]
pub struct InputEntry {
    /// The entry's file name.
    pub file_name: Vec<u8>,
    /// The contents of the entry's device name file, where it could be read.
    pub device_name: Option<Vec<u8>>,
}

/// Why no device node was named.
#[derive(Clone, Copy, Debug, PartialEq, Eq, Structural)]
pub enum DiscoveryError {
    /// No entry is an event device whose name mentions a keyboard.
    NotFound,
}

/// Whether `entry` is the event device of a keyboard: its file name starts
/// with `event`, and its device name was read and contains `keyboard`.
pub open spec fn is_keyboard(entry: InputEntry) -> bool {
    &&& EVENT_PREFIX@.is_prefix_of(entry.file_name@)
    &&& entry.device_name matches Some(name) && occurs_in(KEYBOARD_MARKER@, name@)
}

/// Whether the entry at `at` is the first keyboard among `entries`.
pub open spec fn first_keyboard(entries: Seq<InputEntry>, at: int) -> bool {
    &&& 0 <= at < entries.len()
    &&& is_keyboard(entries[at])
    &&& forall|k: int| 0 <= k < at ==> !is_keyboard(#[trigger] entries[k])
}

/// The device node of the entry called `file_name`.
pub open spec fn node_path(file_name: Seq<u8>) -> Seq<u8> {
    DEVICE_DIR@ + file_name
}

fn matches_at(haystack: &[u8], needle: &[u8], at: usize) -> (found: bool)
    requires
        at + needle.len() <= haystack.len(),
    ensures
        found == occurs_at(needle@, haystack@, at as int),
{
    let mut i: usize = 0;
    while i < needle.len()
        invariant
            i <= needle.len(),
            at + needle.len() <= haystack.len(),
            forall|k: int| 0 <= k < i ==> haystack@[at + k] == needle@[k],
        decreases needle.len() - i,
    {
        if haystack[at + i] != needle[i] {
            assert(haystack@.subrange(at as int, at + needle@.len())[i as int] != needle@[i as int]);
            return false;
        }
        i += 1;
    }
    assert(haystack@.subrange(at as int, at + needle@.len()) =~= needle@);
    true
}

/// Whether `haystack` begins with `prefix`.
pub fn starts_with(haystack: &[u8], prefix: &[u8]) -> (found: bool)
    ensures
        found == prefix@.is_prefix_of(haystack@),
{
    prefix.len() <= haystack.len() && matches_at(haystack, prefix, 0)
}

/// Whether `needle` stands somewhere in `haystack`. The empty needle stands
/// in every haystack.
pub fn contains(haystack: &[u8], needle: &[u8]) -> (found: bool)
    ensures
        found == occurs_in(needle@, haystack@),
{
    if needle.len() > haystack.len() {
        return false;
    }
    let last: usize = haystack.len() - needle.len();
    let mut at: usize = 0;
    loop
        invariant
            needle.len() <= haystack.len(),
            last == haystack.len() - needle.len(),
            at <= last,
            forall|k: int| 0 <= k < at ==> !occurs_at(needle@, haystack@, k),
        decreases last - at,
    {
        if matches_at(haystack, needle, at) {
            return true;
        }
        if at == last {
            return false;
        }
        at += 1;
    }
}

/// The path of the device node that belongs to the entry called
/// `file_name`: the device directory followed by the name.
pub fn device_node_path(file_name: &[u8]) -> (path: Vec<u8>)
    ensures
        path@ == node_path(file_name@),
{
    let mut path: Vec<u8> = Vec::new();
    path.extend_from_slice(DEVICE_DIR.as_slice());
    path.extend_from_slice(file_name);
    path
}

/// Whether `entry` is the event device of a keyboard.
pub fn is_keyboard_entry(entry: &InputEntry) -> (found: bool)
    ensures
        found == is_keyboard(*entry),
{
    if !starts_with(entry.file_name.as_slice(), EVENT_PREFIX.as_slice()) {
        return false;
    }
    match &entry.device_name {
        Some(name) => contains(name.as_slice(), KEYBOARD_MARKER.as_slice()),
        None => false,
    }
}

/// Names the device node of the keyboard: that of the first entry, in the
/// order given, that is the event device of a keyboard. Fails exactly if
/// there is no such entry.
pub fn find_keyboard_event(entries: &Vec<InputEntry>) -> (found: Result<Vec<u8>, DiscoveryError>)
    ensures
        match found {
            Ok(path) => exists|at: int|
                first_keyboard(entries@, at) && path@ == node_path(entries@[at].file_name@),
            Err(e) => e == DiscoveryError::NotFound && forall|k: int|
                0 <= k < entries@.len() ==> !is_keyboard(#[trigger] entries@[k]),
        },
{
    let mut at: usize = 0;
    while at < entries.len()
        invariant
            at <= entries.len(),
            forall|k: int| 0 <= k < at ==> !is_keyboard(#[trigger] entries@[k]),
        decreases entries.len() - at,
    {
        if is_keyboard_entry(&entries[at]) {
            let path = device_node_path(entries[at].file_name.as_slice());
            assert(first_keyboard(entries@, at as int));
            return Ok(path);
        }
        at += 1;
    }
    Err(DiscoveryError::NotFound)
}

} // verus!
