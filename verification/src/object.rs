//! The manager's model of a kernel object.
//!
//! An object is either open (parsed from its file, nothing in the kernel
//! yet) or loaded.  A loaded object carries its connect option, the names
//! of its attached struct_ops links, and — per registered flow — the file
//! descriptors of the inner maps created for that flow.  The kernel
//! handles themselves live with the caller; this model is the bookkeeping
//! those handles are managed by.

use vstd::prelude::*;
use vstd::hash_map::HashMapWithView;
use crate::op::ConnectOption;

verus! {

broadcast use vstd::std_specs::hash::group_hash_axioms;

/// A lifecycle state of a managed object: open or loaded.
pub trait MortiseObjectState {

}

/// A loaded object: its connect option, attached link names, and the
/// per-flow inner-map descriptors it owns.
pub struct MortiseObject {
    pub option: Option<ConnectOption>,
    pub links: Vec<String>,
    pub maps: HashMapWithView<u32, Vec<i32>>,
}

/// An object that is open but not yet loaded into the kernel.
pub struct MortiseOpenObject {}

impl MortiseObjectState for MortiseObject {

}

impl MortiseObjectState for MortiseOpenObject {

}

/// A managed object in either lifecycle state, with the path it was
/// opened from.
pub struct MortiseManagedObject<T: MortiseObjectState> {
    pub path: String,
    pub object: T,
}

impl MortiseManagedObject<MortiseObject> {
    /// The connect option recorded at load time.
    pub fn connect_option(&self) -> (r: &Option<ConnectOption>)
        ensures
            *r == self.object.option,
    {
        &self.object.option
    }

    /// Records the struct_ops links that are now attached, replacing any
    /// earlier set: re-attaching tears the previous links down first.
    pub fn attach_struct_ops(&mut self, links: Vec<String>)
        ensures
            final(self).object.links == links,
            final(self).object.option == old(self).object.option,
            final(self).object.maps == old(self).object.maps,
            final(self).path == old(self).path,
    {
        self.object.links = links;
    }

    /// The names of the attached struct_ops links.
    pub fn links(&self) -> (r: &Vec<String>)
        ensures
            *r == self.object.links,
    {
        &self.object.links
    }

    /// Records the inner maps created for `flow_id` on connect.
    pub fn set_sk_array_maps(&mut self, flow_id: u32, sk_array_maps: Vec<i32>)
        ensures
            final(self).object.maps@ == old(self).object.maps@.insert(flow_id, sk_array_maps),
            final(self).object.option == old(self).object.option,
            final(self).object.links == old(self).object.links,
            final(self).path == old(self).path,
    {
        self.object.maps.insert(flow_id, sk_array_maps);
    }

    /// Gives up the inner maps held for `flow_id`, if any: the caller
    /// closes the returned descriptors.
    pub fn remove_sk_array_maps(&mut self, flow_id: u32) -> (fds: Option<Vec<i32>>)
        ensures
            final(self).object.maps@ == old(self).object.maps@.remove(flow_id),
            final(self).object.option == old(self).object.option,
            final(self).object.links == old(self).object.links,
            final(self).path == old(self).path,
            match fds {
                Some(v) => old(self).object.maps@.contains_key(flow_id) && v == old(
                    self,
                ).object.maps@[flow_id],
                None => !old(self).object.maps@.contains_key(flow_id),
            },
    {
        self.object.maps.remove(&flow_id)
    }
}

} // verus!
