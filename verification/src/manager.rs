//! The manager core: the flow registry and the object/flow lifecycle
//! engine.
//!
//! The registry keeps two indices — pid to its flows, and flow id to its
//! metadata — that stay consistent with one another, and a flow-id
//! counter that never hands a value out twice.  The manager on top of it
//! owns the open and loaded objects, the ring-buffer pump flag, and the
//! connect/disconnect wiring plans.

use vstd::prelude::*;
use vstd::hash_map::HashMapWithView;
use vstd::string::StringExecFns;
use crate::error::MortiseError;
use crate::object::{MortiseManagedObject, MortiseObject, MortiseOpenObject};
use crate::op::{ConnectOption, SkArrayMap};
use crate::qoe::{spec_app_info_bytes, AppInfo};
use crate::wire::{
    spec_i32_to_le_bytes, spec_u32_to_le_bytes, i32_to_le_bytes, u32_to_le_bytes,
};

verus! {

broadcast use vstd::std_specs::hash::group_hash_axioms;

/// The user-space shadow of one managed TCP connection.
#[derive(Debug, Clone, Copy)]
pub struct FlowMetadata {
    /// The remote process that owns the socket.
    pub pid: i32,
    /// The socket's file descriptor as the remote process sees it.
    pub sk_fd: i32,
    /// The duplicate of that descriptor owned by the manager process.
    pub local_sk_fd: i32,
    /// The loaded object this flow runs under.
    pub obj_id: u32,
}

/// One flow's slot inside its pid's entry: the manager-local duplicate
/// descriptor and the flow id under which the flow is registered.
#[derive(Debug, Clone, Copy)]
pub struct SkFdCell {
    pub local_sk_fd: i32,
    pub flow_id: u32,
}

/// Everything the registry holds for one remote pid: the process
/// descriptor opened for it and its flows, keyed by remote socket fd.
pub struct PidManager {
    pub pid_fd: i32,
    pub sk_fd_map: HashMapWithView<i32, SkFdCell>,
}

impl PidManager {
    /// A fresh entry around an already-opened process descriptor.
    pub fn new(pid_fd: i32) -> (r: Self)
        ensures
            r.pid_fd == pid_fd,
            r.sk_fd_map@ == Map::<i32, SkFdCell>::empty(),
    {
        PidManager { pid_fd, sk_fd_map: HashMapWithView::new() }
    }
}

/// What `FlowManager::remove` gives back: the removed flow's metadata,
/// and the pid's process descriptor when the flow was the last one under
/// that pid — the caller closes both descriptors.
#[derive(Debug, Clone, Copy)]
pub struct RemovedFlow {
    pub metadata: FlowMetadata,
    pub closed_pid_fd: Option<i32>,
}

/// The flow registry: the pid index, the flow-id index, and the
/// monotonically increasing flow-id counter.
pub struct FlowManager {
    pub pid_map: HashMapWithView<i32, PidManager>,
    pub flow_map: HashMapWithView<u32, FlowMetadata>,
    pub flow_id: u32,
}

impl FlowManager {
    /// The pair (pid, sk_fd) is currently registered.
    pub open spec fn spec_contains(self, pid: i32, sk_fd: i32) -> bool {
        self.pid_map@.contains_key(pid) && self.pid_map@[pid].sk_fd_map@.contains_key(sk_fd)
    }

    /// The flow id registered for (pid, sk_fd).
    pub open spec fn spec_flow_id_at(self, pid: i32, sk_fd: i32) -> u32 {
        self.pid_map@[pid].sk_fd_map@[sk_fd].flow_id
    }

    /// Some registered flow owns this manager-local descriptor.
    pub open spec fn spec_uses_local_fd(self, fd: i32) -> bool {
        exists|fid: u32|
            #[trigger] self.flow_map@.contains_key(fid) && self.flow_map@[fid].local_sk_fd == fd
    }

    /// Every registered flow id is positive and at most the counter.
    pub open spec fn flow_ids_bounded(self) -> bool {
        forall|fid: u32|
            #[trigger] self.flow_map@.contains_key(fid) ==> 1 <= fid <= self.flow_id
    }

    /// The flow-id index points into the pid index: each flow's metadata
    /// names a pid entry that holds the same flow under the same remote
    /// fd, with the same local fd.
    pub open spec fn flow_to_pid_consistent(self) -> bool {
        forall|fid: u32| #[trigger] self.flow_map@.contains_key(fid) ==> {
            let md = self.flow_map@[fid];
            &&& self.pid_map@.contains_key(md.pid)
            &&& self.pid_map@[md.pid].sk_fd_map@.contains_key(md.sk_fd)
            &&& self.pid_map@[md.pid].sk_fd_map@[md.sk_fd].flow_id == fid
            &&& self.pid_map@[md.pid].sk_fd_map@[md.sk_fd].local_sk_fd == md.local_sk_fd
        }
    }

    /// The pid index points into the flow-id index: each cell's flow id
    /// is registered, with this pid and remote fd in its metadata.
    pub open spec fn pid_to_flow_consistent(self) -> bool {
        forall|pid: i32, sk_fd: i32|
            self.pid_map@.contains_key(pid) && #[trigger] self.pid_map@[pid].sk_fd_map@.contains_key(
                sk_fd,
            ) ==> {
                let cell = self.pid_map@[pid].sk_fd_map@[sk_fd];
                &&& self.flow_map@.contains_key(cell.flow_id)
                &&& self.flow_map@[cell.flow_id].pid == pid
                &&& self.flow_map@[cell.flow_id].sk_fd == sk_fd
                &&& self.flow_map@[cell.flow_id].local_sk_fd == cell.local_sk_fd
            }
    }

    /// Pid entries are finite and never empty: when the last flow of a
    /// pid leaves, the entry leaves with it.
    pub open spec fn pid_entries_wf(self) -> bool {
        forall|pid: i32| #[trigger] self.pid_map@.contains_key(pid) ==> {
            &&& self.pid_map@[pid].sk_fd_map@.dom().finite()
            &&& self.pid_map@[pid].sk_fd_map@.len() > 0
        }
    }

    /// Distinct flows own distinct manager-local descriptors: each is
    /// closed exactly once.
    pub open spec fn local_fds_unique(self) -> bool {
        forall|f1: u32, f2: u32|
            #[trigger] self.flow_map@.contains_key(f1) && #[trigger] self.flow_map@.contains_key(f2)
                && f1 != f2 ==> self.flow_map@[f1].local_sk_fd != self.flow_map@[f2].local_sk_fd
    }

    /// The registry's invariant.
    pub open spec fn wf(self) -> bool {
        &&& self.flow_map@.dom().finite()
        &&& self.pid_map@.dom().finite()
        &&& self.flow_ids_bounded()
        &&& self.flow_to_pid_consistent()
        &&& self.pid_to_flow_consistent()
        &&& self.pid_entries_wf()
        &&& self.local_fds_unique()
    }

    /// An empty registry.
    pub fn new() -> (r: Self)
        ensures
            r.wf(),
            r.flow_map@ == Map::<u32, FlowMetadata>::empty(),
            r.pid_map@ == Map::<i32, PidManager>::empty(),
            r.flow_id == 0,
    {
        FlowManager { pid_map: HashMapWithView::new(), flow_map: HashMapWithView::new(), flow_id: 0 }
    }

    /// Is the pair (pid, sk_fd) already connected?
    pub fn contains(&self, pid: i32, sk_fd: i32) -> (b: bool)
        ensures
            b == self.spec_contains(pid, sk_fd),
    {
        match self.pid_map.get(&pid) {
            Some(entry) => entry.sk_fd_map.contains_key(&sk_fd),
            None => false,
        }
    }

    /// The flow id already registered for (pid, sk_fd), if any.
    pub fn existing_flow_id(&self, pid: i32, sk_fd: i32) -> (r: Option<u32>)
        ensures
            match r {
                Some(fid) => self.spec_contains(pid, sk_fd) && fid == self.spec_flow_id_at(
                    pid,
                    sk_fd,
                ),
                None => !self.spec_contains(pid, sk_fd),
            },
    {
        match self.pid_map.get(&pid) {
            Some(entry) => match entry.sk_fd_map.get(&sk_fd) {
                Some(cell) => Some(cell.flow_id),
                None => None,
            },
            None => None,
        }
    }

    /// The process descriptor already open for `pid`, if any; the caller
    /// duplicates remote fds through it rather than opening a second one.
    pub fn pid_fd_of(&self, pid: i32) -> (r: Option<i32>)
        ensures
            match r {
                Some(fd) => self.pid_map@.contains_key(pid) && fd == self.pid_map@[pid].pid_fd,
                None => !self.pid_map@.contains_key(pid),
            },
    {
        match self.pid_map.get(&pid) {
            Some(entry) => Some(entry.pid_fd),
            None => None,
        }
    }

    /// Is this manager-local descriptor already owned by some flow?
    pub open spec fn spec_local_fd_free(self, fd: i32) -> bool {
        !self.spec_uses_local_fd(fd)
    }

    /// Registers a new flow.
    ///
    /// When the pair is already connected the registry is left untouched
    /// and the existing flow id comes back as `FlowConnected` — the
    /// caller treats it as success.  Otherwise the flow gets the next
    /// counter value, fresh against every id ever handed out, and both
    /// indices are extended consistently.  `pid_fd` is adopted only when
    /// `pid` had no entry yet; `local_sk_fd` must be a descriptor no
    /// registered flow owns.
    pub fn insert(
        &mut self,
        pid: i32,
        sk_fd: i32,
        obj_id: u32,
        pid_fd: i32,
        local_sk_fd: i32,
    ) -> (r: Result<u32, MortiseError>)
        requires
            old(self).wf(),
            old(self).flow_id < u32::MAX,
            !old(self).spec_contains(pid, sk_fd) ==> old(self).spec_local_fd_free(local_sk_fd),
        ensures
            final(self).wf(),
            match r {
                Ok(fid) => {
                    &&& !old(self).spec_contains(pid, sk_fd)
                    &&& fid == old(self).flow_id + 1
                    &&& final(self).flow_id == fid
                    &&& final(self).flow_map@ == old(self).flow_map@.insert(
                        fid,
                        FlowMetadata { pid, sk_fd, local_sk_fd, obj_id },
                    )
                    &&& final(self).spec_contains(pid, sk_fd)
                    &&& final(self).spec_flow_id_at(pid, sk_fd) == fid
                    &&& final(self).pid_map@.dom() == old(self).pid_map@.dom().insert(pid)
                    &&& final(self).pid_map@[pid].pid_fd == (if old(self).pid_map@.contains_key(
                        pid,
                    ) {
                        old(self).pid_map@[pid].pid_fd
                    } else {
                        pid_fd
                    })
                    &&& final(self).pid_map@[pid].sk_fd_map@ == (if old(self).pid_map@.contains_key(pid) {
                        old(self).pid_map@[pid].sk_fd_map@
                    } else {
                        Map::<i32, SkFdCell>::empty()
                    }).insert(sk_fd, SkFdCell { local_sk_fd, flow_id: fid })
                    &&& forall|p: i32|
                        p != pid && #[trigger] old(self).pid_map@.contains_key(p) ==> final(self).pid_map@[p] == old(self).pid_map@[p]
                    &&& forall|f: u32| #[trigger] old(self).flow_map@.contains_key(f) ==> f < fid
                },
                Err(e) => {
                    &&& old(self).spec_contains(pid, sk_fd)
                    &&& e == MortiseError::FlowConnected(old(self).spec_flow_id_at(pid, sk_fd))
                    &&& final(self).flow_map@ == old(self).flow_map@
                    &&& final(self).pid_map@ == old(self).pid_map@
                    &&& final(self).flow_id == old(self).flow_id
                },
            },
    {
        let ghost old_self = *old(self);
        let removed = self.pid_map.remove(&pid);
        let mut entry = match removed {
            Some(entry) => entry,
            None => PidManager::new(pid_fd),
        };
        let existing = match entry.sk_fd_map.get(&sk_fd) {
            Some(cell) => Some(cell.flow_id),
            None => None,
        };
        match existing {
            Some(fid) => {
                self.pid_map.insert(pid, entry);
                proof {
                    assert(self.pid_map@ =~= old_self.pid_map@);
                }
                Err(MortiseError::FlowConnected(fid))
            },
            None => {
                self.flow_id = self.flow_id + 1;
                let fid = self.flow_id;
                entry.sk_fd_map.insert(sk_fd, SkFdCell { local_sk_fd, flow_id: fid });
                self.pid_map.insert(pid, entry);
                self.flow_map.insert(fid, FlowMetadata { pid, sk_fd, local_sk_fd, obj_id });
                proof {
                    assert(self.pid_map@.dom() =~= old_self.pid_map@.dom().insert(pid));
                    lemma_insert_preserves_wf(
                        old_self,
                        *self,
                        pid,
                        sk_fd,
                        obj_id,
                        pid_fd,
                        local_sk_fd,
                        fid,
                    );
                }
                Ok(fid)
            },
        }
    }

    /// Unregisters a flow.
    ///
    /// Returns `None`, changing nothing, when the id is not registered —
    /// so a second remove of the same id is a no-op.  Otherwise both
    /// indices drop the flow; when it was the pid's last flow the whole
    /// pid entry leaves and its process descriptor is handed back for
    /// closing.  The counter never moves, so the id is never reused.
    pub fn remove(&mut self, flow_id: u32) -> (r: Option<RemovedFlow>)
        requires
            old(self).wf(),
        ensures
            final(self).wf(),
            final(self).flow_id == old(self).flow_id,
            match r {
                None => {
                    &&& !old(self).flow_map@.contains_key(flow_id)
                    &&& final(self).flow_map@ == old(self).flow_map@
                    &&& final(self).pid_map@ == old(self).pid_map@
                },
                Some(removed) => {
                    &&& old(self).flow_map@.contains_key(flow_id)
                    &&& removed.metadata == old(self).flow_map@[flow_id]
                    &&& final(self).flow_map@ == old(self).flow_map@.remove(flow_id)
                    &&& !final(self).spec_contains(removed.metadata.pid, removed.metadata.sk_fd)
                    &&& (match removed.closed_pid_fd {
                        Some(fd) => {
                            &&& old(self).pid_map@[removed.metadata.pid].sk_fd_map@.len() == 1
                            &&& fd == old(self).pid_map@[removed.metadata.pid].pid_fd
                            &&& final(self).pid_map@ == old(self).pid_map@.remove(
                                removed.metadata.pid,
                            )
                        },
                        None => {
                            &&& old(self).pid_map@[removed.metadata.pid].sk_fd_map@.len() > 1
                            &&& final(self).pid_map@.dom() == old(self).pid_map@.dom()
                            &&& final(self).pid_map@[removed.metadata.pid].pid_fd == old(self).pid_map@[removed.metadata.pid].pid_fd
                            &&& final(self).pid_map@[removed.metadata.pid].sk_fd_map@ == old(self).pid_map@[removed.metadata.pid].sk_fd_map@.remove(
                                removed.metadata.sk_fd,
                            )
                            &&& forall|p: i32|
                                p != removed.metadata.pid && #[trigger] old(self).pid_map@.contains_key(p) ==> final(self).pid_map@[p] == old(self).pid_map@[p]
                        },
                    })
                },
            },
    {
        let ghost old_self = *old(self);
        match self.flow_map.remove(&flow_id) {
            None => None,
            Some(metadata) => {
                let removed_entry = self.pid_map.remove(&metadata.pid);
                match removed_entry {
                    None => {
                        // Unreachable under the invariant: the flow-id
                        // index always points at a live pid entry.
                        proof {
                            assert(old_self.flow_map@.contains_key(flow_id));
                            assert(false);
                        }
                        None
                    },
                    Some(mut entry) => {
                        entry.sk_fd_map.remove(&metadata.sk_fd);
                        if entry.sk_fd_map.len() == 0 {
                            let r = RemovedFlow {
                                metadata,
                                closed_pid_fd: Some(entry.pid_fd),
                            };
                            proof {
                                lemma_remove_last_preserves_wf(old_self, *self, flow_id, metadata);
                            }
                            Some(r)
                        } else {
                            let pid_fd = entry.pid_fd;
                            self.pid_map.insert(metadata.pid, entry);
                            proof {
                                assert(self.pid_map@.dom() =~= old_self.pid_map@.dom());
                                lemma_remove_keep_preserves_wf(old_self, *self, flow_id, metadata);
                            }
                            Some(RemovedFlow { metadata, closed_pid_fd: None })
                        }
                    },
                }
            },
        }
    }
}

/// After a fresh insert the registry invariant holds again.
proof fn lemma_insert_preserves_wf(
    pre: FlowManager,
    post: FlowManager,
    pid: i32,
    sk_fd: i32,
    obj_id: u32,
    pid_fd: i32,
    local_sk_fd: i32,
    fid: u32,
)
    requires
        pre.wf(),
        pre.flow_id < u32::MAX,
        !pre.spec_contains(pid, sk_fd),
        pre.spec_local_fd_free(local_sk_fd),
        fid == pre.flow_id + 1,
        post.flow_id == fid,
        post.flow_map@ == pre.flow_map@.insert(
            fid,
            FlowMetadata { pid, sk_fd, local_sk_fd, obj_id },
        ),
        post.pid_map@.dom() == pre.pid_map@.dom().insert(pid),
        post.pid_map@.contains_key(pid),
        post.pid_map@[pid].pid_fd == (if pre.pid_map@.contains_key(pid) {
            pre.pid_map@[pid].pid_fd
        } else {
            pid_fd
        }),
        post.pid_map@[pid].sk_fd_map@ == (if pre.pid_map@.contains_key(pid) {
            pre.pid_map@[pid].sk_fd_map@
        } else {
            Map::<i32, SkFdCell>::empty()
        }).insert(sk_fd, SkFdCell { local_sk_fd, flow_id: fid }),
        forall|p: i32|
            p != pid && #[trigger] pre.pid_map@.contains_key(p) ==> post.pid_map@[p]
                == pre.pid_map@[p],
    ensures
        post.wf(),
{
    assert(post.flow_map@.dom() =~= pre.flow_map@.dom().insert(fid));
    assert(post.flow_ids_bounded());
    assert forall|f: u32| #[trigger] post.flow_map@.contains_key(f) implies {
        let md = post.flow_map@[f];
        &&& post.pid_map@.contains_key(md.pid)
        &&& post.pid_map@[md.pid].sk_fd_map@.contains_key(md.sk_fd)
        &&& post.pid_map@[md.pid].sk_fd_map@[md.sk_fd].flow_id == f
        &&& post.pid_map@[md.pid].sk_fd_map@[md.sk_fd].local_sk_fd == md.local_sk_fd
    } by {
        if f != fid {
            let md = pre.flow_map@[f];
            assert(pre.flow_map@.contains_key(f));
            if md.pid == pid {
                assert(md.sk_fd != sk_fd);
            }
        }
    }
    assert forall|p: i32, sk: i32|
        post.pid_map@.contains_key(p) && #[trigger] post.pid_map@[p].sk_fd_map@.contains_key(
            sk,
        ) implies {
        let cell = post.pid_map@[p].sk_fd_map@[sk];
        &&& post.flow_map@.contains_key(cell.flow_id)
        &&& post.flow_map@[cell.flow_id].pid == p
        &&& post.flow_map@[cell.flow_id].sk_fd == sk
        &&& post.flow_map@[cell.flow_id].local_sk_fd == cell.local_sk_fd
    } by {
        if p == pid {
            if sk != sk_fd {
                assert(pre.pid_map@.contains_key(pid));
                assert(pre.pid_map@[pid].sk_fd_map@.contains_key(sk));
                let cell = pre.pid_map@[pid].sk_fd_map@[sk];
                assert(cell.flow_id != fid);
            }
        } else {
            assert(pre.pid_map@.contains_key(p));
            assert(pre.pid_map@[p].sk_fd_map@.contains_key(sk));
            let cell = pre.pid_map@[p].sk_fd_map@[sk];
            assert(cell.flow_id != fid);
        }
    }
    assert forall|p: i32| #[trigger] post.pid_map@.contains_key(p) implies {
        &&& post.pid_map@[p].sk_fd_map@.dom().finite()
        &&& post.pid_map@[p].sk_fd_map@.len() > 0
    } by {
        if p == pid {
            if pre.pid_map@.contains_key(pid) {
                assert(post.pid_map@[pid].sk_fd_map@.dom() =~= pre.pid_map@[
                    pid].sk_fd_map@.dom().insert(sk_fd));
            } else {
                assert(post.pid_map@[pid].sk_fd_map@.dom()
                    =~= Set::<i32>::empty().insert(sk_fd));
            }
            assert(post.pid_map@[pid].sk_fd_map@.contains_key(sk_fd));
            if post.pid_map@[pid].sk_fd_map@.len() == 0 {
                post.pid_map@[pid].sk_fd_map@.dom().lemma_len0_is_empty();
            }
        }
    }
    assert forall|f1: u32, f2: u32|
        #[trigger] post.flow_map@.contains_key(f1) && #[trigger] post.flow_map@.contains_key(f2)
            && f1 != f2 implies post.flow_map@[f1].local_sk_fd != post.flow_map@[
        f2].local_sk_fd by {
        if f1 == fid {
            assert(pre.flow_map@.contains_key(f2));
        } else if f2 == fid {
            assert(pre.flow_map@.contains_key(f1));
        }
    }
}

/// Removing a pid's last flow, together with the pid entry, keeps the
/// invariant.
proof fn lemma_remove_last_preserves_wf(
    pre: FlowManager,
    post: FlowManager,
    flow_id: u32,
    metadata: FlowMetadata,
)
    requires
        pre.wf(),
        pre.flow_map@.contains_key(flow_id),
        metadata == pre.flow_map@[flow_id],
        post.flow_map@ == pre.flow_map@.remove(flow_id),
        post.pid_map@ == pre.pid_map@.remove(metadata.pid),
        post.flow_id == pre.flow_id,
        pre.pid_map@[metadata.pid].sk_fd_map@.remove(metadata.sk_fd).len() == 0,
    ensures
        post.wf(),
        pre.pid_map@[metadata.pid].sk_fd_map@.len() == 1,
        !post.spec_contains(metadata.pid, metadata.sk_fd),
{
    let entry_map = pre.pid_map@[metadata.pid].sk_fd_map@;
    assert(entry_map.contains_key(metadata.sk_fd));
    assert(entry_map.dom().finite());
    assert(entry_map.remove(metadata.sk_fd).dom() =~= entry_map.dom().remove(metadata.sk_fd));
    entry_map.dom().remove(metadata.sk_fd).lemma_len0_is_empty();
    assert(entry_map.dom() =~= Set::<i32>::empty().insert(metadata.sk_fd));
    assert(entry_map.len() == 1);
    assert forall|f: u32| #[trigger] post.flow_map@.contains_key(f) implies {
        let md = post.flow_map@[f];
        &&& post.pid_map@.contains_key(md.pid)
        &&& post.pid_map@[md.pid].sk_fd_map@.contains_key(md.sk_fd)
        &&& post.pid_map@[md.pid].sk_fd_map@[md.sk_fd].flow_id == f
        &&& post.pid_map@[md.pid].sk_fd_map@[md.sk_fd].local_sk_fd == md.local_sk_fd
    } by {
        let md = pre.flow_map@[f];
        assert(pre.flow_map@.contains_key(f));
        if md.pid == metadata.pid {
            // The pid entry held exactly one remote fd, so this other
            // flow would have to share it — impossible for f != flow_id.
            assert(entry_map.contains_key(md.sk_fd));
            assert(md.sk_fd == metadata.sk_fd);
            assert(entry_map[md.sk_fd].flow_id == f);
            assert(entry_map[md.sk_fd].flow_id == flow_id);
            assert(false);
        }
    }
}

/// Removing a flow while other flows of the same pid stay keeps the
/// invariant.
proof fn lemma_remove_keep_preserves_wf(
    pre: FlowManager,
    post: FlowManager,
    flow_id: u32,
    metadata: FlowMetadata,
)
    requires
        pre.wf(),
        pre.flow_map@.contains_key(flow_id),
        metadata == pre.flow_map@[flow_id],
        post.flow_map@ == pre.flow_map@.remove(flow_id),
        post.pid_map@.dom() == pre.pid_map@.dom(),
        post.pid_map@[metadata.pid].pid_fd == pre.pid_map@[metadata.pid].pid_fd,
        post.pid_map@[metadata.pid].sk_fd_map@ == pre.pid_map@[metadata.pid].sk_fd_map@.remove(
            metadata.sk_fd,
        ),
        forall|p: i32|
            p != metadata.pid && #[trigger] pre.pid_map@.contains_key(p) ==> post.pid_map@[p]
                == pre.pid_map@[p],
        post.flow_id == pre.flow_id,
        pre.pid_map@[metadata.pid].sk_fd_map@.remove(metadata.sk_fd).len() != 0,
    ensures
        post.wf(),
        pre.pid_map@[metadata.pid].sk_fd_map@.len() > 1,
        !post.spec_contains(metadata.pid, metadata.sk_fd),
{
    let entry_map = pre.pid_map@[metadata.pid].sk_fd_map@;
    assert(entry_map.contains_key(metadata.sk_fd));
    assert(entry_map.remove(metadata.sk_fd).dom() =~= entry_map.dom().remove(metadata.sk_fd));
    assert(entry_map.dom().remove(metadata.sk_fd).len() == entry_map.dom().len() - 1);
    assert forall|f: u32| #[trigger] post.flow_map@.contains_key(f) implies {
        let md = post.flow_map@[f];
        &&& post.pid_map@.contains_key(md.pid)
        &&& post.pid_map@[md.pid].sk_fd_map@.contains_key(md.sk_fd)
        &&& post.pid_map@[md.pid].sk_fd_map@[md.sk_fd].flow_id == f
        &&& post.pid_map@[md.pid].sk_fd_map@[md.sk_fd].local_sk_fd == md.local_sk_fd
    } by {
        let md = pre.flow_map@[f];
        assert(pre.flow_map@.contains_key(f));
        if md.pid == metadata.pid {
            if md.sk_fd == metadata.sk_fd {
                assert(entry_map[md.sk_fd].flow_id == f);
                assert(entry_map[md.sk_fd].flow_id == flow_id);
                assert(false);
            }
        }
    }
    assert forall|p: i32, sk: i32|
        post.pid_map@.contains_key(p) && #[trigger] post.pid_map@[p].sk_fd_map@.contains_key(
            sk,
        ) implies {
        let cell = post.pid_map@[p].sk_fd_map@[sk];
        &&& post.flow_map@.contains_key(cell.flow_id)
        &&& post.flow_map@[cell.flow_id].pid == p
        &&& post.flow_map@[cell.flow_id].sk_fd == sk
        &&& post.flow_map@[cell.flow_id].local_sk_fd == cell.local_sk_fd
    } by {
        assert(pre.pid_map@.contains_key(p));
        assert(pre.pid_map@[p].sk_fd_map@.contains_key(sk));
        let cell = pre.pid_map@[p].sk_fd_map@[sk];
        if cell.flow_id == flow_id {
            // Only the removed pair points at the removed flow id.
            assert(p == metadata.pid && sk == metadata.sk_fd);
            assert(false);
        }
    }
    assert forall|p: i32| #[trigger] post.pid_map@.contains_key(p) implies {
        &&& post.pid_map@[p].sk_fd_map@.dom().finite()
        &&& post.pid_map@[p].sk_fd_map@.len() > 0
    } by {
        assert(pre.pid_map@.contains_key(p));
        if p == metadata.pid {
            assert(post.pid_map@[p].sk_fd_map@.len() != 0);
        }
    }
}

/// The two registry indices agree in both directions: following a flow id
/// to its pid entry finds the same flow, and following any registered
/// (pid, remote-fd) pair to its flow id finds the same pair.
pub proof fn lemma_registry_indices_consistent(r: FlowManager)
    requires
        r.wf(),
    ensures
        forall|fid: u32| #[trigger] r.flow_map@.contains_key(fid) ==> r.spec_contains(
            r.flow_map@[fid].pid,
            r.flow_map@[fid].sk_fd,
        ) && r.spec_flow_id_at(r.flow_map@[fid].pid, r.flow_map@[fid].sk_fd) == fid,
        forall|pid: i32, sk_fd: i32| #[trigger] r.spec_contains(pid, sk_fd)
            ==> r.flow_map@.contains_key(r.spec_flow_id_at(pid, sk_fd)) && r.flow_map@[
            r.spec_flow_id_at(pid, sk_fd)].pid == pid && r.flow_map@[
            r.spec_flow_id_at(pid, sk_fd)].sk_fd == sk_fd,
{
}

/// Flow ids never leave the range the counter has covered: every
/// registered id is positive and at most the counter, and `insert` hands
/// out exactly the next value — so no id is ever reused.
pub proof fn lemma_flow_id_fresh(r: FlowManager, fid: u32)
    requires
        r.wf(),
        r.flow_map@.contains_key(fid),
    ensures
        1 <= fid <= r.flow_id,
{
}

impl Default for FlowManager {
    fn default() -> (r: Self)
        ensures
            r.wf(),
            r.flow_map@ == Map::<u32, FlowMetadata>::empty(),
            r.pid_map@ == Map::<i32, PidManager>::empty(),
            r.flow_id == 0,
    {
        Self::new()
    }
}

/// One outer-map wiring step of a connect: create a hash inner map with
/// these sizes, store its descriptor in the named outer map under `key`.
#[derive(Debug)]
pub struct WireOp {
    pub outer_map: String,
    pub value_size: u32,
    pub max_entries: u32,
    pub key: Vec<u8>,
}

/// One write into a named map of the flow's object.
#[derive(Debug)]
pub struct MapWrite {
    pub map_name: String,
    pub key: Vec<u8>,
    pub val: Vec<u8>,
}

/// One deletion from a named map of the flow's object.
#[derive(Debug)]
pub struct MapDelete {
    pub map_name: String,
    pub key: Vec<u8>,
}

/// Everything a connect asks the kernel for, in order: the inner-map
/// wiring steps, then the flow-id registration, then the optional seed of
/// the per-socket application record.  A connect of an already-registered
/// pair carries the existing flow id, `fresh == false`, and no work.
#[derive(Debug)]
pub struct ConnectPlan {
    pub flow_id: u32,
    pub fresh: bool,
    pub wires: Vec<WireOp>,
    pub flow_id_write: Option<MapWrite>,
    pub app_info_write: Option<MapWrite>,
}

/// Everything a disconnect asks for: the outer-map deletions, the
/// descriptors to close, and — when the flow's object is gone — the id
/// the error names.
#[derive(Debug)]
pub struct DisconnectPlan {
    pub existed: bool,
    pub deletes: Vec<MapDelete>,
    pub close_local_fd: Option<i32>,
    pub close_pid_fd: Option<i32>,
    pub missing_object: Option<u32>,
}

/// One wiring step matches one outer-map descriptor of the connect
/// option, keyed by the new flow id.
pub open spec fn spec_wire_matches(w: WireOp, d: SkArrayMap, fid: u32) -> bool {
    &&& w.outer_map@ == d.mim@
    &&& w.value_size == d.value_size
    &&& w.max_entries == d.max_entries
    &&& w.key@ == spec_u32_to_le_bytes(fid)
}

/// The wiring steps follow the connect option exactly: one per outer-map
/// descriptor, in order, and none when the option is absent or empty.
pub open spec fn spec_wires_for(wires: Seq<WireOp>, option: Option<ConnectOption>, fid: u32) -> bool {
    match option {
        Some(co) => {
            &&& wires.len() == co.sk_array_maps@.len()
            &&& forall|i: int|
                0 <= i < wires.len() ==> spec_wire_matches(#[trigger] wires[i], co.sk_array_maps@[i], fid)
        },
        None => wires.len() == 0,
    }
}

/// The flow-id registration write: present exactly when the option has
/// outer maps, keyed by the local descriptor, carrying the flow id.
pub open spec fn spec_flow_id_write_for(
    w: Option<MapWrite>,
    option: Option<ConnectOption>,
    fid: u32,
    local_sk_fd: i32,
) -> bool {
    match option {
        Some(co) => {
            if co.sk_array_maps@.len() > 0 {
                &&& w matches Some(mw)
                &&& mw.map_name@ == "flow_id_stg"@
                &&& mw.key@ == spec_i32_to_le_bytes(local_sk_fd)
                &&& mw.val@ == spec_u32_to_le_bytes(fid)
            } else {
                w is None
            }
        },
        None => w is None,
    }
}

/// The application-record seed: present exactly when the client supplied
/// a default, keyed by the local descriptor, `{req: default, resp: 0}`.
pub open spec fn spec_app_info_write_for(
    w: Option<MapWrite>,
    default_app_info: Option<u64>,
    local_sk_fd: i32,
) -> bool {
    match default_app_info {
        Some(v) => {
            &&& w matches Some(mw)
            &&& mw.map_name@ == "sk_stg_map"@
            &&& mw.key@ == spec_i32_to_le_bytes(local_sk_fd)
            &&& mw.val@ == spec_app_info_bytes(AppInfo { req: v, resp: 0 })
        },
        None => w is None,
    }
}

/// The deletions of a disconnect: one per outer-map descriptor, keyed by
/// the flow id, and none when the option is absent.
pub open spec fn spec_deletes_for(
    deletes: Seq<MapDelete>,
    option: Option<ConnectOption>,
    fid: u32,
) -> bool {
    match option {
        Some(co) => {
            &&& deletes.len() == co.sk_array_maps@.len()
            &&& forall|i: int|
                0 <= i < deletes.len() ==> (#[trigger] deletes[i]).map_name@
                    == co.sk_array_maps@[i].mim@ && deletes[i].key@ == spec_u32_to_le_bytes(fid)
        },
        None => deletes.len() == 0,
    }
}

/// The valid kernel map-update flag bits: `ANY`, `NO_EXIST`, `EXIST` and
/// `LOCK` together.
pub const BPF_MAP_FLAGS_MASK: u64 = 7;

/// Accepts a request's map-update flags exactly when no unknown bit is
/// set.
pub fn check_bpf_flags(flag: u64) -> (r: Result<u64, MortiseError>)
    ensures
        match r {
            Ok(f) => f == flag && flag & !BPF_MAP_FLAGS_MASK == 0,
            Err(e) => e == MortiseError::InvalidBpfFlags && flag & !BPF_MAP_FLAGS_MASK != 0,
        },
{
    if flag & !BPF_MAP_FLAGS_MASK == 0 {
        Ok(flag)
    } else {
        Err(MortiseError::InvalidBpfFlags)
    }
}

/// The error a failed outer-map update surfaces.  The kernel answers a
/// full hash map with errno 7 ("table full"): that becomes the exhausted
/// outer map's own message; every other failure keeps the kernel-object
/// library's text.
pub fn wire_update_error(errno: i32, text: String) -> (r: MortiseError)
    ensures
        errno == 7 ==> (r matches MortiseError::Custom(msg) && msg@ == "exceed max_entries"@),
        errno != 7 ==> r == MortiseError::KernelObject(text),
{
    if errno == 7 {
        MortiseError::Custom(String::from_str("exceed max_entries"))
    } else {
        MortiseError::KernelObject(text)
    }
}

/// The manager: object ids, the open and loaded objects, the ring-buffer
/// pump flag, and the flow registry.
pub struct MortiseManager {
    pub obj_id: u32,
    pub objs: HashMapWithView<u32, MortiseManagedObject<MortiseObject>>,
    pub open_objs: HashMapWithView<u32, MortiseManagedObject<MortiseOpenObject>>,
    pub rb_registered: bool,
    pub flow_manager: FlowManager,
}

impl MortiseManager {
    /// The manager's invariant: its registry's invariant.
    pub open spec fn wf(self) -> bool {
        self.flow_manager.wf()
    }

    /// A fresh manager: no objects, no pump, an empty registry.
    pub fn new() -> (r: Self)
        ensures
            r.wf(),
            r.obj_id == 0,
            r.objs@ == Map::<u32, MortiseManagedObject<MortiseObject>>::empty(),
            r.open_objs@ == Map::<u32, MortiseManagedObject<MortiseOpenObject>>::empty(),
            !r.rb_registered,
            r.flow_manager.flow_map@ == Map::<u32, FlowMetadata>::empty(),
            r.flow_manager.flow_id == 0,
    {
        MortiseManager {
            obj_id: 0,
            objs: HashMapWithView::new(),
            open_objs: HashMapWithView::new(),
            rb_registered: false,
            flow_manager: FlowManager::new(),
        }
    }

    /// Registers a newly opened object under the next id.
    pub fn open_object(&mut self, path: String) -> (id: u32)
        requires
            old(self).obj_id < u32::MAX,
        ensures
            id == old(self).obj_id + 1,
            final(self).obj_id == id,
            final(self).open_objs@ == old(self).open_objs@.insert(
                id,
                MortiseManagedObject { path, object: MortiseOpenObject {} },
            ),
            final(self).objs@ == old(self).objs@,
            final(self).rb_registered == old(self).rb_registered,
            final(self).flow_manager == old(self).flow_manager,
    {
        self.obj_id = self.obj_id + 1;
        let id = self.obj_id;
        self.open_objs.insert(id, MortiseManagedObject { path, object: MortiseOpenObject {} });
        id
    }

    /// Registers a newly opened object under a caller-chosen id, moving
    /// the counter up to it so later loads never collide.
    pub fn insert_object(&mut self, obj_id: u32, path: String) -> (id: u32)
        ensures
            id == obj_id,
            final(self).obj_id == (if old(self).obj_id >= obj_id {
                old(self).obj_id
            } else {
                obj_id
            }),
            final(self).open_objs@ == old(self).open_objs@.insert(
                obj_id,
                MortiseManagedObject { path, object: MortiseOpenObject {} },
            ),
            final(self).objs@ == old(self).objs@,
            final(self).rb_registered == old(self).rb_registered,
            final(self).flow_manager == old(self).flow_manager,
    {
        if obj_id > self.obj_id {
            self.obj_id = obj_id;
        }
        self.open_objs.insert(obj_id, MortiseManagedObject { path, object: MortiseOpenObject {} });
        obj_id
    }

    /// Discards an open object, as when its kernel load failed.
    pub fn close_object(&mut self, obj_id: u32) -> (r: Result<(), MortiseError>)
        ensures
            final(self).open_objs@ == old(self).open_objs@.remove(obj_id),
            final(self).objs@ == old(self).objs@,
            final(self).obj_id == old(self).obj_id,
            final(self).rb_registered == old(self).rb_registered,
            final(self).flow_manager == old(self).flow_manager,
            match r {
                Ok(()) => old(self).open_objs@.contains_key(obj_id),
                Err(e) => !old(self).open_objs@.contains_key(obj_id) && e
                    == MortiseError::ObjectNotFound(obj_id),
            },
    {
        match self.open_objs.remove(&obj_id) {
            Some(_) => Ok(()),
            None => Err(MortiseError::ObjectNotFound(obj_id)),
        }
    }

    /// Promotes an open object to loaded, recording its connect option.
    /// Fails, changing nothing, when no open object has this id.
    pub fn load_object(&mut self, obj_id: u32, option: Option<ConnectOption>) -> (r: Result<
        (),
        MortiseError,
    >)
        ensures
            final(self).obj_id == old(self).obj_id,
            final(self).rb_registered == old(self).rb_registered,
            final(self).flow_manager == old(self).flow_manager,
            match r {
                Ok(()) => {
                    &&& old(self).open_objs@.contains_key(obj_id)
                    &&& final(self).open_objs@ == old(self).open_objs@.remove(obj_id)
                    &&& final(self).objs@.dom() == old(self).objs@.dom().insert(obj_id)
                    &&& final(self).objs@[obj_id].path == old(self).open_objs@[obj_id].path
                    &&& final(self).objs@[obj_id].object.option == option
                    &&& final(self).objs@[obj_id].object.links@.len() == 0
                    &&& final(self).objs@[obj_id].object.maps@ == Map::<u32, Vec<i32>>::empty()
                    &&& forall|id: u32|
                        id != obj_id && #[trigger] old(self).objs@.contains_key(id) ==> final(self).objs@[id] == old(self).objs@[id]
                },
                Err(e) => {
                    &&& !old(self).open_objs@.contains_key(obj_id)
                    &&& e == MortiseError::ObjectNotFound(obj_id)
                    &&& final(self).open_objs@ == old(self).open_objs@
                    &&& final(self).objs@ == old(self).objs@
                },
            },
    {
        let ghost old_self = *old(self);
        match self.open_objs.remove(&obj_id) {
            None => Err(MortiseError::ObjectNotFound(obj_id)),
            Some(open_obj) => {
                let loaded = MortiseManagedObject {
                    path: open_obj.path,
                    object: MortiseObject {
                        option,
                        links: Vec::new(),
                        maps: HashMapWithView::new(),
                    },
                };
                self.objs.insert(obj_id, loaded);
                proof {
                    assert(self.objs@.dom() =~= old_self.objs@.dom().insert(obj_id));
                }
                Ok(())
            },
        }
    }

    /// Records the struct_ops links now attached on a loaded object,
    /// replacing any earlier set.
    pub fn attach_struct_ops(&mut self, obj_id: u32, links: Vec<String>) -> (r: Result<
        (),
        MortiseError,
    >)
        ensures
            final(self).obj_id == old(self).obj_id,
            final(self).open_objs@ == old(self).open_objs@,
            final(self).rb_registered == old(self).rb_registered,
            final(self).flow_manager == old(self).flow_manager,
            match r {
                Ok(()) => {
                    &&& old(self).objs@.contains_key(obj_id)
                    &&& final(self).objs@.dom() == old(self).objs@.dom()
                    &&& final(self).objs@[obj_id].object.links == links
                    &&& final(self).objs@[obj_id].object.option == old(self).objs@[obj_id].object.option
                    &&& final(self).objs@[obj_id].object.maps@ == old(self).objs@[obj_id].object.maps@
                    &&& final(self).objs@[obj_id].path == old(self).objs@[obj_id].path
                    &&& forall|id: u32|
                        id != obj_id && #[trigger] old(self).objs@.contains_key(id) ==> final(self).objs@[id] == old(self).objs@[id]
                },
                Err(e) => {
                    &&& !old(self).objs@.contains_key(obj_id)
                    &&& e == MortiseError::ObjectNotFound(obj_id)
                    &&& final(self).objs@ == old(self).objs@
                },
            },
    {
        let ghost old_self = *old(self);
        match self.objs.remove(&obj_id) {
            None => Err(MortiseError::ObjectNotFound(obj_id)),
            Some(mut obj) => {
                obj.attach_struct_ops(links);
                self.objs.insert(obj_id, obj);
                proof {
                    assert(self.objs@.dom() =~= old_self.objs@.dom());
                }
                Ok(())
            },
        }
    }

    /// Drops a loaded object.  Fails, changing nothing, when no loaded
    /// object has this id.
    pub fn unload_object(&mut self, obj_id: u32) -> (r: Result<(), MortiseError>)
        ensures
            final(self).objs@ == old(self).objs@.remove(obj_id),
            final(self).open_objs@ == old(self).open_objs@,
            final(self).obj_id == old(self).obj_id,
            final(self).rb_registered == old(self).rb_registered,
            final(self).flow_manager == old(self).flow_manager,
            match r {
                Ok(()) => old(self).objs@.contains_key(obj_id),
                Err(e) => !old(self).objs@.contains_key(obj_id) && e
                    == MortiseError::ObjectNotFound(obj_id),
            },
    {
        match self.objs.remove(&obj_id) {
            Some(_) => Ok(()),
            None => Err(MortiseError::ObjectNotFound(obj_id)),
        }
    }

    /// The loaded object of this id, or `ObjectNotFound`.
    pub fn get_object(&self, obj_id: u32) -> (r: Result<
        &MortiseManagedObject<MortiseObject>,
        MortiseError,
    >)
        ensures
            match r {
                Ok(obj) => self.objs@.contains_key(obj_id) && *obj == self.objs@[obj_id],
                Err(e) => !self.objs@.contains_key(obj_id) && e == MortiseError::ObjectNotFound(
                    obj_id,
                ),
            },
    {
        match self.objs.get(&obj_id) {
            Some(obj) => Ok(obj),
            None => Err(MortiseError::ObjectNotFound(obj_id)),
        }
    }

    /// The open object of this id, or `ObjectNotFound`.
    pub fn get_open_object(&self, obj_id: u32) -> (r: Result<
        &MortiseManagedObject<MortiseOpenObject>,
        MortiseError,
    >)
        ensures
            match r {
                Ok(obj) => self.open_objs@.contains_key(obj_id) && *obj == self.open_objs@[obj_id],
                Err(e) => !self.open_objs@.contains_key(obj_id) && e
                    == MortiseError::ObjectNotFound(obj_id),
            },
    {
        match self.open_objs.get(&obj_id) {
            Some(obj) => Ok(obj),
            None => Err(MortiseError::ObjectNotFound(obj_id)),
        }
    }

    /// Checks that every listed id names a loaded object, as the pump
    /// registration requires; the first missing id is the error.
    pub fn check_objects_loaded(&self, obj_ids: &Vec<u32>) -> (r: Result<(), MortiseError>)
        ensures
            match r {
                Ok(()) => forall|i: int|
                    0 <= i < obj_ids@.len() ==> self.objs@.contains_key(#[trigger] obj_ids@[i]),
                Err(e) => exists|i: int|
                    0 <= i < obj_ids@.len() && !self.objs@.contains_key(#[trigger] obj_ids@[i]) && e
                        == MortiseError::ObjectNotFound(obj_ids@[i]),
            },
    {
        let mut i: usize = 0;
        while i < obj_ids.len()
            invariant
                i <= obj_ids@.len(),
                forall|j: int|
                    0 <= j < i ==> self.objs@.contains_key(#[trigger] obj_ids@[j]),
            decreases obj_ids@.len() - i,
        {
            let id = obj_ids[i];
            if !self.objs.contains_key(&id) {
                return Err(MortiseError::ObjectNotFound(id));
            }
            i = i + 1;
        }
        Ok(())
    }

    /// Marks the ring-buffer pump as running.  The caller tears any
    /// previous pump down first, so at most one ever runs.
    pub fn register_rb(&mut self)
        requires
            !old(self).rb_registered,
        ensures
            final(self).rb_registered,
            final(self).objs@ == old(self).objs@,
            final(self).open_objs@ == old(self).open_objs@,
            final(self).obj_id == old(self).obj_id,
            final(self).flow_manager == old(self).flow_manager,
    {
        self.rb_registered = true;
    }

    /// Clears the pump mark; tells the caller whether a pump was running
    /// and must be stopped and joined.
    pub fn unregister_rb(&mut self) -> (was_running: bool)
        ensures
            !final(self).rb_registered,
            was_running == old(self).rb_registered,
            final(self).objs@ == old(self).objs@,
            final(self).open_objs@ == old(self).open_objs@,
            final(self).obj_id == old(self).obj_id,
            final(self).flow_manager == old(self).flow_manager,
    {
        let was_running = self.rb_registered;
        self.rb_registered = false;
        was_running
    }

    /// The metadata of a registered flow.
    pub fn get_flow_metadata(&self, flow_id: u32) -> (r: Option<&FlowMetadata>)
        ensures
            match r {
                Some(md) => self.flow_manager.flow_map@.contains_key(flow_id) && *md
                    == self.flow_manager.flow_map@[flow_id],
                None => !self.flow_manager.flow_map@.contains_key(flow_id),
            },
    {
        self.flow_manager.flow_map.get(&flow_id)
    }

    /// Resolves a per-flow map operation: the owning object's id and the
    /// map key — the flow's local descriptor, little endian.
    pub fn flow_map_key(&self, flow_id: u32) -> (r: Result<(u32, Vec<u8>), MortiseError>)
        ensures
            match r {
                Ok(pair) => {
                    &&& self.flow_manager.flow_map@.contains_key(flow_id)
                    &&& pair.0 == self.flow_manager.flow_map@[flow_id].obj_id
                    &&& pair.1@ == spec_i32_to_le_bytes(
                        self.flow_manager.flow_map@[flow_id].local_sk_fd,
                    )
                },
                Err(e) => !self.flow_manager.flow_map@.contains_key(flow_id) && e
                    == MortiseError::FlowNotFound(flow_id),
            },
    {
        match self.flow_manager.flow_map.get(&flow_id) {
            Some(md) => Ok((md.obj_id, i32_to_le_bytes(md.local_sk_fd))),
            None => Err(MortiseError::FlowNotFound(flow_id)),
        }
    }

    /// Connects a socket to a loaded object's algorithm.
    ///
    /// An already-connected (pid, sk_fd) pair is success: the existing
    /// flow id comes back with an empty plan and nothing changes — the
    /// duplicate connect creates no inner maps.  Otherwise the flow is
    /// registered under a fresh id and the plan lists the kernel work in
    /// order: one inner-map wiring step per outer-map descriptor, the
    /// flow-id registration keyed by the local descriptor, and the
    /// optional seed of the application record.  A connect against an
    /// unknown object fails with `ObjectNotFound` — after the flow is
    /// registered, so the registry keeps it, exactly as the registry and
    /// object lookups are ordered.
    ///
    /// `pid_fd` is the process descriptor for `pid` (adopted only when
    /// the pid is new to the registry) and `local_sk_fd` the duplicate of
    /// the remote socket descriptor, owned by no registered flow.
    pub fn connect(
        &mut self,
        pid: i32,
        obj_id: u32,
        sk_fd: i32,
        pid_fd: i32,
        local_sk_fd: i32,
        default_app_info: Option<u64>,
    ) -> (r: Result<ConnectPlan, MortiseError>)
        requires
            old(self).wf(),
            old(self).flow_manager.flow_id < u32::MAX,
            !old(self).flow_manager.spec_contains(pid, sk_fd) ==> old(self).flow_manager.spec_local_fd_free(local_sk_fd),
        ensures
            final(self).wf(),
            final(self).objs@ == old(self).objs@,
            final(self).open_objs@ == old(self).open_objs@,
            final(self).obj_id == old(self).obj_id,
            final(self).rb_registered == old(self).rb_registered,
            match r {
                Ok(plan) => {
                    if old(self).flow_manager.spec_contains(pid, sk_fd) {
                        &&& plan.flow_id == old(self).flow_manager.spec_flow_id_at(pid, sk_fd)
                        &&& !plan.fresh
                        &&& plan.wires@.len() == 0
                        &&& plan.flow_id_write is None
                        &&& plan.app_info_write is None
                        &&& final(self).flow_manager.flow_map@ == old(self).flow_manager.flow_map@
                        &&& final(self).flow_manager.pid_map@ == old(self).flow_manager.pid_map@
                        &&& final(self).flow_manager.flow_id == old(self).flow_manager.flow_id
                    } else {
                        &&& old(self).objs@.contains_key(obj_id)
                        &&& plan.fresh
                        &&& plan.flow_id == old(self).flow_manager.flow_id + 1
                        &&& final(self).flow_manager.flow_id == plan.flow_id
                        &&& final(self).flow_manager.flow_map@ == old(self).flow_manager.flow_map@.insert(
                            plan.flow_id,
                            FlowMetadata { pid, sk_fd, local_sk_fd, obj_id },
                        )
                        &&& final(self).flow_manager.spec_contains(pid, sk_fd)
                        &&& final(self).flow_manager.spec_flow_id_at(pid, sk_fd) == plan.flow_id
                        &&& spec_wires_for(
                            plan.wires@,
                            old(self).objs@[obj_id].object.option,
                            plan.flow_id,
                        )
                        &&& spec_flow_id_write_for(
                            plan.flow_id_write,
                            old(self).objs@[obj_id].object.option,
                            plan.flow_id,
                            local_sk_fd,
                        )
                        &&& spec_app_info_write_for(
                            plan.app_info_write,
                            default_app_info,
                            local_sk_fd,
                        )
                    }
                },
                Err(e) => {
                    &&& e == MortiseError::ObjectNotFound(obj_id)
                    &&& !old(self).objs@.contains_key(obj_id)
                    &&& !old(self).flow_manager.spec_contains(pid, sk_fd)
                    &&& final(self).flow_manager.flow_id == old(self).flow_manager.flow_id + 1
                    &&& final(self).flow_manager.flow_map@ == old(self).flow_manager.flow_map@.insert(
                        final(self).flow_manager.flow_id,
                        FlowMetadata { pid, sk_fd, local_sk_fd, obj_id },
                    )
                    &&& final(self).flow_manager.spec_contains(pid, sk_fd)
                },
            },
    {
        let existing = self.flow_manager.existing_flow_id(pid, sk_fd);
        match existing {
            Some(fid) => Ok(
                ConnectPlan {
                    flow_id: fid,
                    fresh: false,
                    wires: Vec::new(),
                    flow_id_write: None,
                    app_info_write: None,
                },
            ),
            None => {
                let fid = match self.flow_manager.insert(pid, sk_fd, obj_id, pid_fd, local_sk_fd) {
                    Ok(f) => f,
                    Err(e) => {
                        proof {
                            assert(false);
                        }
                        return Err(e);
                    },
                };
                let obj = match self.objs.get(&obj_id) {
                    Some(obj) => obj,
                    None => {
                        return Err(MortiseError::ObjectNotFound(obj_id));
                    },
                };
                let mut wires: Vec<WireOp> = Vec::new();
                let mut flow_id_write: Option<MapWrite> = None;
                match &obj.object.option {
                    Some(co) => {
                        let mut i: usize = 0;
                        while i < co.sk_array_maps.len()
                            invariant
                                i <= co.sk_array_maps@.len(),
                                wires@.len() == i,
                                forall|j: int|
                                    0 <= j < i ==> spec_wire_matches(
                                        #[trigger] wires@[j],
                                        co.sk_array_maps@[j],
                                        fid,
                                    ),
                            decreases co.sk_array_maps@.len() - i,
                        {
                            let d = &co.sk_array_maps[i];
                            wires.push(
                                WireOp {
                                    outer_map: d.mim.clone(),
                                    value_size: d.value_size,
                                    max_entries: d.max_entries,
                                    key: u32_to_le_bytes(fid),
                                },
                            );
                            i = i + 1;
                        }
                        if co.sk_array_maps.len() > 0 {
                            flow_id_write = Some(
                                MapWrite {
                                    map_name: String::from_str("flow_id_stg"),
                                    key: i32_to_le_bytes(local_sk_fd),
                                    val: u32_to_le_bytes(fid),
                                },
                            );
                        }
                    },
                    None => {},
                }
                let app_info_write = match default_app_info {
                    Some(v) => Some(
                        MapWrite {
                            map_name: String::from_str("sk_stg_map"),
                            key: i32_to_le_bytes(local_sk_fd),
                            val: (AppInfo { req: v, resp: 0 }).as_bytes(),
                        },
                    ),
                    None => None,
                };
                Ok(ConnectPlan { flow_id: fid, fresh: true, wires, flow_id_write, app_info_write })
            },
        }
    }

    /// Records the inner maps the kernel created for a fresh connect, so
    /// that disconnect can close them.
    pub fn connect_commit(&mut self, obj_id: u32, flow_id: u32, map_fds: Vec<i32>) -> (r: Result<
        (),
        MortiseError,
    >)
        ensures
            final(self).obj_id == old(self).obj_id,
            final(self).open_objs@ == old(self).open_objs@,
            final(self).rb_registered == old(self).rb_registered,
            final(self).flow_manager == old(self).flow_manager,
            match r {
                Ok(()) => {
                    &&& old(self).objs@.contains_key(obj_id)
                    &&& final(self).objs@.dom() == old(self).objs@.dom()
                    &&& final(self).objs@[obj_id].object.maps@ == old(self).objs@[obj_id].object.maps@.insert(flow_id, map_fds)
                    &&& final(self).objs@[obj_id].object.option == old(self).objs@[obj_id].object.option
                    &&& final(self).objs@[obj_id].object.links == old(self).objs@[obj_id].object.links
                    &&& final(self).objs@[obj_id].path == old(self).objs@[obj_id].path
                    &&& forall|id: u32|
                        id != obj_id && #[trigger] old(self).objs@.contains_key(id) ==> final(self).objs@[id] == old(self).objs@[id]
                },
                Err(e) => {
                    &&& !old(self).objs@.contains_key(obj_id)
                    &&& e == MortiseError::ObjectNotFound(obj_id)
                    &&& final(self).objs@ == old(self).objs@
                },
            },
    {
        let ghost old_self = *old(self);
        match self.objs.remove(&obj_id) {
            None => Err(MortiseError::ObjectNotFound(obj_id)),
            Some(mut obj) => {
                obj.set_sk_array_maps(flow_id, map_fds);
                self.objs.insert(obj_id, obj);
                proof {
                    assert(self.objs@.dom() =~= old_self.objs@.dom());
                }
                Ok(())
            },
        }
    }

    /// Disconnects a flow.
    ///
    /// An unknown flow id is a no-op: nothing changes, the plan is
    /// empty, and no error comes of it — so a second disconnect of the
    /// same id is harmless.  A registered flow leaves both registry
    /// indices at once; its local descriptor, and the pid's process
    /// descriptor when this was the pid's last flow, come back for
    /// closing.  When the flow's object is still loaded the plan lists
    /// one outer-map deletion per descriptor of its connect option,
    /// keyed by the flow id; when it is gone the plan names it in
    /// `missing_object` and the response becomes `ObjectNotFound`.
    pub fn disconnect(&mut self, flow_id: u32) -> (plan: DisconnectPlan)
        requires
            old(self).wf(),
        ensures
            final(self).wf(),
            final(self).objs@ == old(self).objs@,
            final(self).open_objs@ == old(self).open_objs@,
            final(self).obj_id == old(self).obj_id,
            final(self).rb_registered == old(self).rb_registered,
            final(self).flow_manager.flow_id == old(self).flow_manager.flow_id,
            if old(self).flow_manager.flow_map@.contains_key(flow_id) {
                let md = old(self).flow_manager.flow_map@[flow_id];
                &&& plan.existed
                &&& final(self).flow_manager.flow_map@ == old(self).flow_manager.flow_map@.remove(flow_id)
                &&& !final(self).flow_manager.spec_contains(md.pid, md.sk_fd)
                &&& plan.close_local_fd == Some(md.local_sk_fd)
                &&& (if old(self).objs@.contains_key(md.obj_id) {
                    &&& plan.missing_object is None
                    &&& spec_deletes_for(
                        plan.deletes@,
                        old(self).objs@[md.obj_id].object.option,
                        flow_id,
                    )
                } else {
                    &&& plan.missing_object == Some(md.obj_id)
                    &&& plan.deletes@.len() == 0
                })
            } else {
                &&& !plan.existed
                &&& plan.deletes@.len() == 0
                &&& plan.close_local_fd is None
                &&& plan.close_pid_fd is None
                &&& plan.missing_object is None
                &&& final(self).flow_manager.flow_map@ == old(self).flow_manager.flow_map@
                &&& final(self).flow_manager.pid_map@ == old(self).flow_manager.pid_map@
            },
    {
        match self.flow_manager.remove(flow_id) {
            None => DisconnectPlan {
                existed: false,
                deletes: Vec::new(),
                close_local_fd: None,
                close_pid_fd: None,
                missing_object: None,
            },
            Some(removed) => {
                let md = removed.metadata;
                let mut deletes: Vec<MapDelete> = Vec::new();
                let mut missing_object: Option<u32> = None;
                match self.objs.get(&md.obj_id) {
                    None => {
                        missing_object = Some(md.obj_id);
                    },
                    Some(obj) => {
                        match &obj.object.option {
                            Some(co) => {
                                let mut i: usize = 0;
                                while i < co.sk_array_maps.len()
                                    invariant
                                        i <= co.sk_array_maps@.len(),
                                        deletes@.len() == i,
                                        forall|j: int|
                                            0 <= j < i ==> (#[trigger] deletes@[j]).map_name@
                                                == co.sk_array_maps@[j].mim@ && deletes@[j].key@
                                                == spec_u32_to_le_bytes(flow_id),
                                    decreases co.sk_array_maps@.len() - i,
                                {
                                    let d = &co.sk_array_maps[i];
                                    deletes.push(
                                        MapDelete {
                                            map_name: d.mim.clone(),
                                            key: u32_to_le_bytes(flow_id),
                                        },
                                    );
                                    i = i + 1;
                                }
                            },
                            None => {},
                        }
                    },
                }
                DisconnectPlan {
                    existed: true,
                    deletes,
                    close_local_fd: Some(md.local_sk_fd),
                    close_pid_fd: removed.closed_pid_fd,
                    missing_object,
                }
            },
        }
    }

    /// The response a disconnect earns: empty success, or the error
    /// naming the missing object.
    pub fn disconnect_response(plan: &DisconnectPlan) -> (r: Result<Vec<u8>, MortiseError>)
        ensures
            match plan.missing_object {
                Some(id) => r == Err::<Vec<u8>, MortiseError>(MortiseError::ObjectNotFound(id)),
                None => r matches Ok(v) && v@.len() == 0,
            },
    {
        match plan.missing_object {
            Some(id) => Err(MortiseError::ObjectNotFound(id)),
            None => Ok(Vec::new()),
        }
    }

    /// Takes back the inner-map descriptors held for a disconnected
    /// flow, once its outer-map entries are deleted; the caller closes
    /// them.  An unknown object or flow yields none.
    pub fn disconnect_commit(&mut self, obj_id: u32, flow_id: u32) -> (fds: Vec<i32>)
        ensures
            final(self).obj_id == old(self).obj_id,
            final(self).open_objs@ == old(self).open_objs@,
            final(self).rb_registered == old(self).rb_registered,
            final(self).flow_manager == old(self).flow_manager,
            final(self).objs@.dom() == old(self).objs@.dom(),
            if old(self).objs@.contains_key(obj_id) {
                &&& final(self).objs@[obj_id].object.maps@ == old(self).objs@[obj_id].object.maps@.remove(flow_id)
                &&& final(self).objs@[obj_id].object.option == old(self).objs@[obj_id].object.option
                &&& final(self).objs@[obj_id].object.links == old(self).objs@[obj_id].object.links
                &&& final(self).objs@[obj_id].path == old(self).objs@[obj_id].path
                &&& (forall|id: u32|
                    id != obj_id && #[trigger] old(self).objs@.contains_key(id) ==> final(self).objs@[id] == old(self).objs@[id])
                &&& (if old(self).objs@[obj_id].object.maps@.contains_key(flow_id) {
                    fds == old(self).objs@[obj_id].object.maps@[flow_id]
                } else {
                    fds@.len() == 0
                })
            } else {
                final(self).objs@ == old(self).objs@ && fds@.len() == 0
            },
    {
        let ghost old_self = *old(self);
        match self.objs.remove(&obj_id) {
            None => Vec::new(),
            Some(mut obj) => {
                let removed = obj.remove_sk_array_maps(flow_id);
                self.objs.insert(obj_id, obj);
                proof {
                    assert(self.objs@.dom() =~= old_self.objs@.dom());
                }
                match removed {
                    Some(fds) => fds,
                    None => Vec::new(),
                }
            },
        }
    }

    /// Tears everything down: no loaded or open object remains and no
    /// pump is marked running.  The registry is left as it is, exactly as
    /// the daemon leaves it when the process exits.
    pub fn shutdown(&mut self)
        ensures
            final(self).objs@ == Map::<u32, MortiseManagedObject<MortiseObject>>::empty(),
            final(self).open_objs@ == Map::<u32, MortiseManagedObject<MortiseOpenObject>>::empty(),
            !final(self).rb_registered,
            final(self).obj_id == old(self).obj_id,
            final(self).flow_manager == old(self).flow_manager,
    {
        self.rb_registered = false;
        self.objs.clear();
        self.open_objs.clear();
    }
}

impl Default for MortiseManager {
    fn default() -> (r: Self)
        ensures
            r.wf(),
            r.obj_id == 0,
            r.objs@ == Map::<u32, MortiseManagedObject<MortiseObject>>::empty(),
            r.open_objs@ == Map::<u32, MortiseManagedObject<MortiseOpenObject>>::empty(),
            !r.rb_registered,
            r.flow_manager.flow_map@ == Map::<u32, FlowMetadata>::empty(),
            r.flow_manager.flow_id == 0,
    {
        Self::new()
    }
}

} // verus!
