//! What the forwarding of input events decides without looking at an
//! event: the numbers that stand for the devices, and how a device node is
//! opened.

use std::collections::HashMap;
use vstd::prelude::*;

verus! {

broadcast use vstd::std_specs::hash::group_hash_axioms;

/// The numbers that stand for the input devices towards the sessions.
pub struct DeviceIds {
    device_ids: HashMap<u64, u32>,
    next_device_id: u32,
}

impl DeviceIds {
    /// The number of each known device, by the key of the device.
    pub closed spec fn known(&self) -> Map<u64, u32> {
        self.device_ids@
    }

    /// The number that the next new device gets.
    pub closed spec fn next(&self) -> u32 {
        self.next_device_id
    }

    /// No device is known; the first one gets the number one.
    pub fn new() -> (r: DeviceIds)
        ensures
            r.known() == Map::<u64, u32>::empty(),
            r.next() == 1,
    {
        DeviceIds { device_ids: HashMap::new(), next_device_id: 1 }
    }

    /// The number of a device.  A device that is not known gets the next
    /// number and is known from then on; the numbers stop growing at the
    /// greatest that 32 bits hold.
    pub fn device_id_for(&mut self, key: u64) -> (r: u32)
        ensures
            old(self).known().contains_key(key) ==> r == old(self).known()[key] && final(self).known() == old(self).known() && final(self).next() == old(self).next(),
            !old(self).known().contains_key(key) ==> r == old(self).next() && final(self).known()
                == old(self).known().insert(key, r) && final(self).next() == old(self).next().saturating_add(1),
    {
        match self.device_ids.get(&key) {
            Some(id) => *id,
            None => {
                let id = self.next_device_id;
                self.next_device_id = self.next_device_id.saturating_add(1);
                self.device_ids.insert(key, id);
                id
            },
        }
    }

    /// Forgets a device that was removed.
    pub fn forget(&mut self, key: u64)
        ensures
            final(self).known() == old(self).known().remove(key),
            final(self).next() == old(self).next(),
    {
        self.device_ids.remove(&key);
    }
}

/// How a device node is opened: for reading, for writing, or both.
#[derive(Clone, Copy, Debug, PartialEq, Eq, Structural)]
pub struct OpenMode {
    pub read: bool,
    pub write: bool,
}

/// The flag bits that ask for reading and writing, for writing only, and
/// for reading only.
#[derive(Clone, Copy, Debug, PartialEq, Eq, Structural)]
pub struct AccessFlags {
    pub read_write: i32,
    pub write_only: i32,
    pub read_only: i32,
}

/// How to open a device node that is asked for with `flags`: for both
/// where the bits for both are set, else for writing where the bits for
/// writing are set, else for reading.
pub fn open_mode(flags: i32, bits: AccessFlags) -> (r: OpenMode)
    ensures
        r == if flags & bits.read_write != 0 {
            OpenMode { read: true, write: true }
        } else if flags & bits.write_only != 0 {
            OpenMode { read: false, write: true }
        } else {
            OpenMode { read: true, write: false }
        },
{
    if flags & bits.read_write != 0 {
        OpenMode { read: true, write: true }
    } else if flags & bits.write_only != 0 {
        OpenMode { read: false, write: true }
    } else {
        OpenMode { read: true, write: false }
    }
}

/// The size that positions are scaled to: at least one in each direction.
pub fn transform_size(width: u32, height: u32) -> (r: (u32, u32))
    ensures
        r.0 == if width < 1 {
            1
        } else {
            width
        },
        r.1 == if height < 1 {
            1
        } else {
            height
        },
{
    (
        if width < 1 {
            1
        } else {
            width
        },
        if height < 1 {
            1
        } else {
            height
        },
    )
}

} // verus!
