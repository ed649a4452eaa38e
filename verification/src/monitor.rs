//! Monitors as the control plane and the render loop know them.

use crate::ids::{id_text, MonitorId};
use crate::protocol::MonitorInfo;
use crate::table::Keyed;
use vstd::prelude::*;

verus! {

/// A connected display.
#[derive(Debug, Clone, PartialEq, Eq)]
pub struct Monitor {
    pub id: MonitorId,
    pub width: i32,
    pub height: i32,
    pub refresh_rate: i32,
    pub name: String,
}

impl Monitor {
    /// Whether two records say the same of a monitor.
    pub open spec fn same_info(self, other: Monitor) -> bool {
        &&& self.id == other.id
        &&& self.width == other.width
        &&& self.height == other.height
        &&& self.refresh_rate == other.refresh_rate
        &&& self.name@ == other.name@
    }

    /// Whether two records say the same of a monitor.
    pub fn says_the_same(&self, other: &Monitor) -> (r: bool)
        ensures
            r == self.same_info(*other),
    {
        self.id == other.id && self.width == other.width && self.height == other.height
            && self.refresh_rate == other.refresh_rate && self.name == other.name
    }

    /// A copy of the record.
    pub fn duplicate(&self) -> (r: Monitor)
        ensures
            r == *self,
    {
        Monitor {
            id: self.id,
            width: self.width,
            height: self.height,
            refresh_rate: self.refresh_rate,
            name: self.name.clone(),
        }
    }

    /// What a client is told of the monitor.
    pub fn to_protocol_info(&self) -> (r: MonitorInfo)
        ensures
            r.id@ == id_text("mon_"@, self.id.0),
            r.width == self.width,
            r.height == self.height,
            r.refresh_rate == self.refresh_rate,
            r.name == self.name,
    {
        MonitorInfo {
            id: self.id.to_text(),
            width: self.width,
            height: self.height,
            refresh_rate: self.refresh_rate,
            name: self.name.clone(),
        }
    }
}

impl Keyed for Monitor {
    type Key = MonitorId;

    type Name = MonitorId;

    open spec fn name_of(key: &MonitorId) -> MonitorId {
        *key
    }

    open spec fn key(&self) -> MonitorId {
        self.id
    }

    fn id(&self) -> (r: MonitorId) {
        self.id
    }

    fn has_key(&self, key: &MonitorId) -> (r: bool) {
        self.id == *key
    }
}

/// Copies a list of monitors.
pub fn copy_monitors(list: &Vec<Monitor>) -> (r: Vec<Monitor>)
    ensures
        r@ == list@,
{
    let mut out: Vec<Monitor> = Vec::new();
    let mut i: usize = 0;
    while i < list.len()
        invariant
            i <= list.len(),
            out@ == list@.take(i as int),
        decreases list.len() - i,
    {
        out.push(list[i].duplicate());
        proof {
            assert(list@.take(i + 1) =~= list@.take(i as int).push(list@[i as int]));
        }
        i += 1;
    }
    proof {
        assert(list@.take(list.len() as int) =~= list@);
    }
    out
}

} // verus!
