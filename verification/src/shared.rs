//! The concurrency discipline around the lifecycle handler.
//!
//! The daemon serves protocol requests concurrently; the handler behind
//! [`SharedDriver`] sits in a verified reader/writer lock. Create and remove
//! take the write lock and so exclude every other operation; lookups, get
//! and list take read locks and may proceed together. The lock's invariant
//! keeps the registry well formed — one record per name, each mount path
//! derived from the mount root — across every interleaving. The lock is held
//! only for the registry access, never across an external mount invocation,
//! so one slow mount does not block unrelated operations.

use vstd::prelude::*;
use vstd::rwlock::{RwLock, RwLockPredicate};

use crate::driver::{
    create_plan, mount_args_of, mount_env_of, mount_path_spec, pairs_view, strs_view,
    MountInvocation, UnmountInvocation, Volume, XetDriver,
};
use crate::errors::{ErrModel, VolumeError};
use crate::volume::VolumeModel;

verus! {

/// What may sit in the lock: a well-formed handler over the configured
/// mount root.
pub struct DriverInv {
    pub root: Seq<char>,
}

impl RwLockPredicate<XetDriver> for DriverInv {
    open spec fn inv(self, d: XetDriver) -> bool {
        d.wf() && d.paths_consistent() && d.root() == self.root
    }
}

/// A lifecycle handler shared across concurrent protocol tasks under a
/// single-writer/multi-reader lock.
pub struct SharedDriver {
    lock: RwLock<XetDriver, DriverInv>,
}

impl SharedDriver {
    /// The configured mount root.
    pub closed spec fn root(self) -> Seq<char> {
        self.lock.pred().root
    }

    /// A fresh shared handler over `mount_root`.
    pub fn new(mount_root: String) -> (r: Self)
        ensures
            r.root() == mount_root@,
    {
        let ghost root = mount_root@;
        let d = XetDriver::new(mount_root);
        SharedDriver { lock: RwLock::new(d, Ghost(DriverInv { root })) }
    }

    /// Build and validate the record create would register for `name` and
    /// `options`, without touching the registry: what [`create_plan`]
    /// decides. The caller prepares the mount directory from the planned
    /// record before registering.
    pub fn plan_volume(&self, name: &String, options: &Vec<(String, String)>) -> (r: Result<
        crate::volume::XetVolume,
        VolumeError,
    >)
        ensures
            match create_plan(self.root(), name@, pairs_view(options@)) {
                Ok(m) => r matches Ok(v) && v@ == m,
                Err(e) => (r matches Err(err) && err@ == e),
            },
    {
        let handle = self.lock.acquire_read();
        let r = handle.borrow().plan_volume(name, options);
        handle.release_read();
        r
    }

    /// Create a volume: validation and registration under the write lock.
    /// Succeeds, or fails with the exact error, as [`create_plan`] decides
    /// from the options alone; on failure no registry state changes.
    pub fn create(&self, name: String, options: &Vec<(String, String)>) -> (r: Result<
        (),
        VolumeError,
    >)
        ensures
            match create_plan(self.root(), name@, pairs_view(options@)) {
                Ok(_) => r is Ok,
                Err(e) => (r matches Err(err) && err@ == e),
            },
    {
        let (mut d, handle) = self.lock.acquire_write();
        let ghost name_view = name@;
        let ghost d0 = d;
        let r = d.create(name, options);
        proof {
            if create_plan(self.root(), name_view, pairs_view(options@)) is Ok {
                let m = create_plan(self.root(), name_view, pairs_view(options@))->Ok_0;
                assert forall|k: Seq<char>| d.volumes().contains_key(k) implies (#[trigger] d
                    .volumes()[k]).mount_path == mount_path_spec(d.root(), k) by {
                    if k != name_view {
                        assert(d0.volumes().contains_key(k));
                    }
                }
            }
        }
        handle.release_write(d);
        r
    }

    /// Remove a volume under the write lock. Fails only with "not found",
    /// exactly when the name was absent at the moment of the removal.
    pub fn remove(&self, name: &String) -> (r: Result<(), VolumeError>)
        ensures
            r is Ok || (r matches Err(e) && e@ == ErrModel::NotFound),
    {
        let (mut d, handle) = self.lock.acquire_write();
        let r = d.remove(name);
        handle.release_write(d);
        r
    }

    /// The mount path of `name`, from the configuration alone; the volume
    /// need not exist.
    pub fn path(&self, name: &String) -> (r: String)
        ensures
            r@ == mount_path_spec(self.root(), name@),
    {
        let handle = self.lock.acquire_read();
        let r = handle.borrow().path(name);
        handle.release_read();
        r
    }

    /// Volume metadata under a read lock: any answer names the volume and
    /// carries its mount path; an absent volume gives the explicit
    /// "no volume" answer, not an error.
    pub fn get(&self, name: &String) -> (r: Option<Volume>)
        ensures
            r matches Some(v) ==> v.name@ == name@ && v.mountpoint@ == mount_path_spec(
                self.root(),
                name@,
            ) && v.status@ == Seq::<char>::empty(),
    {
        let handle = self.lock.acquire_read();
        let r = handle.borrow().get(name);
        handle.release_read();
        r
    }

    /// Metadata of every volume registered at the moment of the snapshot:
    /// distinct names, each with its derived mount path.
    pub fn list(&self) -> (r: Vec<Volume>)
        ensures
            forall|i: int|
                0 <= i < r@.len() ==> (#[trigger] r@[i]).mountpoint@ == mount_path_spec(
                    self.root(),
                    r@[i].name@,
                ) && r@[i].status@ == Seq::<char>::empty(),
            forall|i: int, j: int| 0 <= i < j < r@.len() ==> r@[i].name@ != r@[j].name@,
    {
        let handle = self.lock.acquire_read();
        let r = handle.borrow().list();
        handle.release_read();
        r
    }

    /// Look `name` up under a read lock and construct the external
    /// mount-tool call for the record found there. Fails with "not found",
    /// constructing nothing, exactly when the volume was absent.
    pub fn mount_invocation(&self, name: &String) -> (r: Result<MountInvocation, VolumeError>)
        ensures
            r matches Ok(inv) ==> inv.program@ == "git-xet"@ && inv.mountpoint@
                == mount_path_spec(self.root(), name@) && (exists|v: VolumeModel|
                v.mount_path == mount_path_spec(self.root(), name@) && strs_view(inv.args@)
                    == mount_args_of(v) && pairs_view(inv.env@) == mount_env_of(v)),
            r matches Err(e) ==> e@ == ErrModel::NotFound,
    {
        let handle = self.lock.acquire_read();
        let ghost d = handle.view();
        let r = handle.borrow().mount_invocation(name);
        proof {
            if d.volumes().contains_key(name@) {
                let v = d.volumes()[name@];
                assert(v.mount_path == mount_path_spec(self.root(), name@));
            }
        }
        handle.release_read();
        r
    }

    /// Look `name` up under a read lock and construct the host unmount call
    /// against its mount path. Fails with "not found" exactly when the
    /// volume was absent; the caller treats the unmount itself as
    /// best-effort.
    pub fn unmount_invocation(&self, name: &String) -> (r: Result<UnmountInvocation, VolumeError>)
        ensures
            r matches Ok(inv) ==> inv.program@ == "umount"@ && strs_view(inv.args@) == seq![
                mount_path_spec(self.root(), name@),
            ],
            r matches Err(e) ==> e@ == ErrModel::NotFound,
    {
        let handle = self.lock.acquire_read();
        let r = handle.borrow().unmount_invocation(name);
        handle.release_read();
        r
    }
}

} // verus!
