//! The volume lifecycle handler.
//!
//! [`XetDriver`] implements the eight protocol operations over the registry:
//! create, remove, mount, unmount, path, get, list and capabilities. Mount
//! and unmount are split at the process boundary: the handler looks the
//! record up and constructs the exact argument and environment lists for the
//! external mount tool (or the host unmount facility), an outer layer runs
//! the process, and [`mount_outcome`] turns its exit status into the
//! protocol's answer.

use vstd::prelude::*;
use vstd::string::StringExecFns;

use crate::errors::{ErrModel, VolumeError};
use crate::registry::Registry;
use crate::volume::{
    apply_option, empty_volume, validation_error, VolumeModel, XetVolume,
};

verus! {

/// The views of a sequence of string pairs.
pub open spec fn pairs_view(s: Seq<(String, String)>) -> Seq<(Seq<char>, Seq<char>)> {
    s.map_values(|p: (String, String)| (p.0@, p.1@))
}

/// The views of a sequence of strings.
pub open spec fn strs_view(s: Seq<String>) -> Seq<Seq<char>> {
    s.map_values(|x: String| x@)
}

/// The mount path of a volume: the mount root joined with the volume name.
pub open spec fn mount_path_spec(root: Seq<char>, name: Seq<char>) -> Seq<char> {
    root + "/"@ + name
}

/// The result of applying options in order to a volume model: the final
/// model, or the first unrecognized key.
pub open spec fn apply_all(m: VolumeModel, opts: Seq<(Seq<char>, Seq<char>)>) -> Result<
    VolumeModel,
    Seq<char>,
>
    decreases opts.len(),
{
    if opts.len() == 0 {
        Ok(m)
    } else {
        match apply_option(m, opts[0].0, opts[0].1) {
            Some(m2) => apply_all(m2, opts.drop_first()),
            None => Err(opts[0].0),
        }
    }
}

/// What create decides for a name and option set under a mount root: the
/// validated record with its mount path, or the exact error. The record a
/// successful create registers is this one.
pub open spec fn create_plan(
    root: Seq<char>,
    name: Seq<char>,
    opts: Seq<(Seq<char>, Seq<char>)>,
) -> Result<VolumeModel, ErrModel> {
    match apply_all(empty_volume(), opts) {
        Err(k) => Err(ErrModel::NoOption(k)),
        Ok(m) => match validation_error(m) {
            Some(e) => Err(e),
            None => Ok(VolumeModel { mount_path: mount_path_spec(root, name), ..m }),
        },
    }
}

/// The argument list handed to the external mount tool for a record:
/// subcommand, revision, repository, destination, and the optional write
/// and watch flags.
pub open spec fn mount_args_of(v: VolumeModel) -> Seq<Seq<char>> {
    let base = seq!["mount"@, "-r"@, v.commit, v.repo, v.mount_path];
    let with_write: Seq<Seq<char>> = if v.writeable {
        base.push("-w"@)
    } else {
        base
    };
    match v.watch {
        Some(interval) => with_write.push("--watch"@).push(interval),
        None => with_write,
    }
}

/// The environment handed to the external mount tool: the credentials,
/// exactly when both identity and secret are non-empty.
pub open spec fn mount_env_of(v: VolumeModel) -> Seq<(Seq<char>, Seq<char>)> {
    if v.username.len() > 0 && v.pat.len() > 0 {
        seq![("XET_USER_NAME"@, v.username), ("XET_USER_TOKEN"@, v.pat)]
    } else {
        Seq::empty()
    }
}

/// A fully constructed external mount-tool call: program name, arguments,
/// environment, and the mountpoint the caller reports on success.
#[derive(Debug)]
pub struct MountInvocation {
    pub program: String,
    pub args: Vec<String>,
    pub env: Vec<(String, String)>,
    pub mountpoint: String,
}

/// A fully constructed host unmount call.
#[derive(Debug)]
pub struct UnmountInvocation {
    pub program: String,
    pub args: Vec<String>,
}

/// The successful answer of a mount operation.
#[derive(Debug)]
pub struct MountResponse {
    pub mountpoint: String,
}

/// Volume metadata as the protocol reports it from get and list.
#[derive(Debug)]
pub struct Volume {
    pub name: String,
    pub mountpoint: String,
    pub status: String,
}

/// The sharing scope a volume driver reports to the container runtime.
#[derive(PartialEq, Eq, Structural, Debug, Clone, Copy)]
pub enum Scope {
    Local,
    Global,
}

/// The static capability descriptor of this driver.
#[derive(PartialEq, Eq, Structural, Debug, Clone, Copy)]
pub struct Capability {
    pub scope: Scope,
}

/// The capabilities this driver reports, independent of any state: it
/// manages local volumes only.
pub fn capabilities() -> (r: Capability)
    ensures
        r.scope == Scope::Local,
{
    Capability { scope: Scope::Local }
}

/// The protocol's answer once the external mount tool has run: the
/// mountpoint if the tool succeeded, and a mount failure carrying the tool's
/// diagnostics otherwise.
pub fn mount_outcome(mountpoint: String, success: bool, diagnostics: String) -> (r: Result<
    MountResponse,
    VolumeError,
>)
    ensures
        success ==> (r matches Ok(m) && m.mountpoint@ == mountpoint@),
        !success ==> (r matches Err(e) && e@ == ErrModel::FailedMount(diagnostics@)),
{
    if success {
        Ok(MountResponse { mountpoint })
    } else {
        Err(VolumeError::FailedMount(diagnostics))
    }
}

/// The volume lifecycle handler: the registry of named volumes and the
/// mount root every volume's path is derived from.
pub struct XetDriver {
    registry: Registry,
    mount_root: String,
}

impl XetDriver {
    /// The abstract registry state: volume name to volume record.
    pub closed spec fn volumes(self) -> Map<Seq<char>, VolumeModel> {
        self.registry@
    }

    /// The configured mount root.
    pub closed spec fn root(self) -> Seq<char> {
        self.mount_root@
    }

    /// The number of registered volumes.
    pub closed spec fn count(self) -> nat {
        self.registry.len()
    }

    /// The registry holds one record per name.
    pub closed spec fn wf(self) -> bool {
        self.registry.wf()
    }

    /// Every registered record's mount path is the mount root joined with
    /// its own name. Creation establishes this; no operation breaks it.
    pub open spec fn paths_consistent(self) -> bool {
        forall|k: Seq<char>|
            self.volumes().contains_key(k) ==> (#[trigger] self.volumes()[k]).mount_path
                == mount_path_spec(self.root(), k)
    }

    /// A well-formed handler registers exactly one entry per name.
    pub proof fn lemma_count_is_volume_count(self)
        requires
            self.wf(),
        ensures
            self.volumes().dom().finite(),
            self.volumes().dom().len() == self.count(),
    {
        self.registry.lemma_len_is_dom_len();
    }

    /// A fresh handler over `mount_root`: no volume is registered.
    pub fn new(mount_root: String) -> (r: Self)
        ensures
            r.wf(),
            r.root() == mount_root@,
            r.volumes() =~= Map::<Seq<char>, VolumeModel>::empty(),
            r.count() == 0,
    {
        XetDriver { registry: Registry::new(), mount_root }
    }

    /// The mount path of `name`: a pure computation from the mount root and
    /// the name alone; the volume need not be registered.
    pub fn path(&self, name: &String) -> (r: String)
        ensures
            r@ == mount_path_spec(self.root(), name@),
    {
        let mut p = self.mount_root.clone();
        p.append("/");
        p.append(name.as_str());
        p
    }

    /// Build and validate the record create would register for `name` and
    /// `options`: the exact record of [`create_plan`], or its exact error.
    /// Pure: the registry is not consulted and not changed.
    pub fn plan_volume(&self, name: &String, options: &Vec<(String, String)>) -> (r: Result<
        XetVolume,
        VolumeError,
    >)
        ensures
            match create_plan(self.root(), name@, pairs_view(options@)) {
                Ok(m) => r matches Ok(v) && v@ == m,
                Err(e) => r matches Err(err) && err@ == e,
            },
    {
        let ghost all = pairs_view(options@);
        let mut volume = XetVolume::default();
        proof {
            assert(all.skip(0) =~= all);
        }
        let n = options.len();
        for i in 0..n
            invariant
                n == options@.len(),
                all == pairs_view(options@),
                apply_all(volume@, all.skip(i as int)) == apply_all(empty_volume(), all),
        {
            let key = options[i].0.clone();
            let value = options[i].1.clone();
            proof {
                assert(all.skip(i as int)[0] == all[i as int]);
                assert(all.skip(i as int).drop_first() =~= all.skip(i as int + 1));
            }
            match volume.try_apply_option(key, value) {
                Ok(_) => {},
                Err(e) => {
                    return Err(e);
                },
            }
        }
        proof {
            assert(all.skip(n as int) =~= Seq::<(Seq<char>, Seq<char>)>::empty());
        }
        match volume.validate() {
            Ok(_) => {},
            Err(e) => {
                return Err(e);
            },
        }
        volume.mount_path = self.path(name);
        Ok(volume)
    }

    /// Insert `volume` into the registry under `name`, replacing any
    /// existing entry. Only validated records with the derived mount path
    /// may be registered: create is the one gate into the registry, and
    /// every record behind it satisfies the data-model invariants.
    pub fn register_volume(&mut self, name: String, volume: XetVolume)
        requires
            old(self).wf(),
            validation_error(volume@) is None,
            volume@.mount_path == mount_path_spec(old(self).root(), name@),
        ensures
            final(self).wf(),
            final(self).root() == old(self).root(),
            final(self).volumes() =~= old(self).volumes().insert(name@, volume@),
            final(self).count() == if old(self).volumes().contains_key(name@) {
                old(self).count()
            } else {
                old(self).count() + 1
            },
    {
        self.registry.insert(name, volume);
    }

    /// Create the volume `name` from its options: validate them, derive the
    /// mount path, and register the record. On any validation error the
    /// handler, registry included, is left unchanged. Directory creation at
    /// the mount path is the caller's I/O and happens between planning and
    /// registration; it does not alter what is registered.
    pub fn create(&mut self, name: String, options: &Vec<(String, String)>) -> (r: Result<
        (),
        VolumeError,
    >)
        requires
            old(self).wf(),
        ensures
            final(self).wf(),
            final(self).root() == old(self).root(),
            match create_plan(old(self).root(), name@, pairs_view(options@)) {
                Ok(m) => r is Ok && final(self).volumes() =~= old(self).volumes().insert(name@, m)
                    && final(self).count() == if old(self).volumes().contains_key(name@) {
                    old(self).count()
                } else {
                    old(self).count() + 1
                },
                Err(e) => (r matches Err(err) && err@ == e) && *final(self) == *old(self),
            },
    {
        match self.plan_volume(&name, options) {
            Ok(volume) => {
                self.register_volume(name, volume);
                Ok(())
            },
            Err(e) => Err(e),
        }
    }

    /// Delete the registry entry of `name`. Fails with "not found", and
    /// leaves the handler unchanged, exactly when the volume is not
    /// registered. Does not unmount.
    pub fn remove(&mut self, name: &String) -> (r: Result<(), VolumeError>)
        requires
            old(self).wf(),
        ensures
            final(self).wf(),
            final(self).root() == old(self).root(),
            old(self).volumes().contains_key(name@) ==> r is Ok && final(self).volumes()
                =~= old(self).volumes().remove(name@) && final(self).count() == old(self).count()
                - 1,
            !old(self).volumes().contains_key(name@) ==> (r matches Err(e) && e@
                == ErrModel::NotFound) && *final(self) == *old(self),
    {
        self.registry.remove(name)
    }

    /// Volume metadata of `name` if registered, and an explicit "no volume"
    /// answer (not an error) if absent. Never mutates.
    pub fn get(&self, name: &String) -> (r: Option<Volume>)
        requires
            self.wf(),
        ensures
            match r {
                Some(v) => self.volumes().contains_key(name@) && v.name@ == name@ && v.mountpoint@
                    == self.volumes()[name@].mount_path && v.status@ == Seq::<char>::empty(),
                None => !self.volumes().contains_key(name@),
            },
    {
        match self.registry.get(name) {
            Some(record) => Some(
                Volume {
                    name: name.clone(),
                    mountpoint: record.mount_path.clone(),
                    status: String::new(),
                },
            ),
            None => None,
        }
    }

    /// Metadata of every registered volume: one entry per registered name,
    /// each with its record's mount path. Never fails.
    pub fn list(&self) -> (r: Vec<Volume>)
        requires
            self.wf(),
        ensures
            r@.len() == self.count(),
            forall|i: int|
                0 <= i < r@.len() ==> self.volumes().contains_key(#[trigger] r@[i].name@)
                    && r@[i].mountpoint@ == self.volumes()[r@[i].name@].mount_path && r@[i].status@
                    == Seq::<char>::empty(),
            forall|i: int, j: int| 0 <= i < j < r@.len() ==> r@[i].name@ != r@[j].name@,
            forall|k: Seq<char>|
                self.volumes().contains_key(k) ==> exists|i: int|
                    0 <= i < r@.len() && r@[i].name@ == k,
    {
        let pairs = self.registry.list();
        let mut out: Vec<Volume> = Vec::new();
        let n = pairs.len();
        for i in 0..n
            invariant
                n == pairs@.len(),
                out@.len() == i,
                forall|j: int|
                    0 <= j < i ==> (#[trigger] out@[j]).name@ == pairs@[j].0@ && out@[j].mountpoint@
                        == pairs@[j].1@.mount_path && out@[j].status@ == Seq::<char>::empty(),
        {
            let (name, record) = &pairs[i];
            out.push(
                Volume {
                    name: name.clone(),
                    mountpoint: record.mount_path.clone(),
                    status: String::new(),
                },
            );
        }
        proof {
            assert forall|k: Seq<char>| self.volumes().contains_key(k) implies exists|i: int|
                0 <= i < out@.len() && out@[i].name@ == k by {
                let i = choose|i: int| 0 <= i < pairs@.len() && pairs@[i].0@ == k;
                assert(out@[i].name@ == k);
            }
        }
        out
    }

    /// Look `name` up and construct the external mount-tool call for its
    /// record: fails with "not found", constructing nothing, exactly when
    /// the volume is not registered. Credentials travel in the environment,
    /// never in the argument list.
    pub fn mount_invocation(&self, name: &String) -> (r: Result<MountInvocation, VolumeError>)
        requires
            self.wf(),
        ensures
            self.volumes().contains_key(name@) ==> (r matches Ok(inv) && inv.program@
                == "git-xet"@ && strs_view(inv.args@) == mount_args_of(self.volumes()[name@])
                && pairs_view(inv.env@) == mount_env_of(self.volumes()[name@]) && inv.mountpoint@
                == self.volumes()[name@].mount_path),
            !self.volumes().contains_key(name@) ==> (r matches Err(e) && e@ == ErrModel::NotFound),
    {
        let record = match self.registry.get(name) {
            Some(record) => record,
            None => {
                return Err(VolumeError::NotFound);
            },
        };
        let mut args: Vec<String> = Vec::new();
        args.push(String::from_str("mount"));
        args.push(String::from_str("-r"));
        args.push(record.commit.clone());
        args.push(record.repo.clone());
        args.push(record.mount_path.clone());
        if record.writeable {
            args.push(String::from_str("-w"));
        }
        if let Some(interval) = &record.watch {
            args.push(String::from_str("--watch"));
            args.push(interval.clone());
        }
        let mut env: Vec<(String, String)> = Vec::new();
        if !record.username.as_str().is_empty() && !record.pat.as_str().is_empty() {
            env.push((String::from_str("XET_USER_NAME"), record.username.clone()));
            env.push((String::from_str("XET_USER_TOKEN"), record.pat.clone()));
        }
        proof {
            assert(strs_view(args@) =~= mount_args_of(self.volumes()[name@]));
            assert(pairs_view(env@) =~= mount_env_of(self.volumes()[name@]));
        }
        Ok(
            MountInvocation {
                program: String::from_str("git-xet"),
                args,
                env,
                mountpoint: record.mount_path.clone(),
            },
        )
    }

    /// Look `name` up and construct the host unmount call against its mount
    /// path: fails with "not found", constructing nothing, exactly when the
    /// volume is not registered. The caller treats the call as best-effort;
    /// its exit status is not surfaced as a protocol error.
    pub fn unmount_invocation(&self, name: &String) -> (r: Result<UnmountInvocation, VolumeError>)
        requires
            self.wf(),
        ensures
            self.volumes().contains_key(name@) ==> (r matches Ok(inv) && inv.program@
                == "umount"@ && strs_view(inv.args@) == seq![self.volumes()[name@].mount_path]),
            !self.volumes().contains_key(name@) ==> (r matches Err(e) && e@ == ErrModel::NotFound),
    {
        let record = match self.registry.get(name) {
            Some(record) => record,
            None => {
                return Err(VolumeError::NotFound);
            },
        };
        let mut args: Vec<String> = Vec::new();
        args.push(record.mount_path.clone());
        proof {
            assert(strs_view(args@) =~= seq![self.volumes()[name@].mount_path]);
        }
        Ok(UnmountInvocation { program: String::from_str("umount"), args })
    }
}

} // verus!
