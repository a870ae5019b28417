//! The persistent mount's decisions: the name and directory of a new
//! generation, which earlier generations to purge, and the `mount` and
//! `umount` command lines for an in-RAM filesystem with their outcomes.
use vstd::prelude::*;

use crate::materialize::{process_msg, process_text};
use crate::exposures::opt_str_view;
use crate::text::{decimal, join_path, path_join, strs_view, to_decimal};

verus! {

/// Why the in-RAM filesystem could not be mounted.
pub enum MountRamfsError {
    /// `mount` could not be started.
    InvokingProcess(String),
    /// `mount` failed; what it printed.
    MountingRamfs(String),
}

/// Why an in-RAM filesystem could not be unmounted.
pub enum UnmountRamfsError {
    /// `umount` could not be started.
    InvokingProcess(String),
    /// `umount` failed; what it printed.
    UnmountingRamfs(String),
}

/// Why removing mounted generations failed.
pub enum UnmountSecretsError {
    MountCheckFailure(String),
    ListingOldSymlinks(String),
    DeletingOldDir(String),
    UnmountingOldGeneration(UnmountRamfsError),
    RemovingSymlink(String),
}

/// Why a mount failed.
pub enum MountSecretsError {
    /// The new generation's directory is already a mount point.
    AlreadyMounted,
    MountCheckFailure(String),
    RamfsCreationFailure(MountRamfsError),
    /// An exposure names a secret that is not configured.
    NoSuchSecret(String),
    ExposingFilesFailure(String),
    SymlinkCreationFailure(String),
    ListingOldSymlinks(String),
    DeletingOldDir(String),
    UnmountingOldGeneration(UnmountSecretsError),
}

/// A new generation: its name, the clock's milliseconds since boot in
/// decimal, and its directory under the mount base.
pub struct MountPlan {
    pub generation: String,
    pub gen_dir: String,
}

/// The generation for the clock reading `ms` under `base`.
pub fn plan_mount(base: &str, ms: u64) -> (r: MountPlan)
    ensures
        r.generation@ == decimal(ms as nat),
        r.gen_dir@ == path_join(base@, decimal(ms as nat)),
{
    let generation = to_decimal(ms);
    let gen_dir = join_path(base, generation.as_str());
    MountPlan { generation, gen_dir }
}

/// The entries of the mount base to purge: all but `keep`, in order.
pub open spec fn stale_names(entries: Seq<Seq<char>>, keep: Option<Seq<char>>) -> Seq<Seq<char>>
    decreases entries.len(),
{
    if entries.len() == 0 {
        Seq::empty()
    } else {
        let r = stale_names(entries.drop_last(), keep);
        if keep == Some(entries.last()) {
            r
        } else {
            r.push(entries.last())
        }
    }
}

/// The generations among `entries` to unmount and remove: every one but
/// `keep`, the live generation, in order.
pub fn stale_generations(entries: &Vec<String>, keep: Option<String>) -> (r: Vec<String>)
    ensures
        strs_view(r@) == stale_names(strs_view(entries@), opt_str_view(keep)),
{
    let mut out: Vec<String> = Vec::new();
    let mut i: usize = 0;
    while i < entries.len()
        invariant
            i <= entries@.len(),
            strs_view(out@) == stale_names(
                strs_view(entries@.subrange(0, i as int)),
                opt_str_view(keep),
            ),
        decreases entries@.len() - i,
    {
        let ghost pre = strs_view(entries@.subrange(0, i as int));
        let ghost next = strs_view(entries@.subrange(0, i as int + 1));
        assert(next.drop_last() =~= pre);
        assert(next.last() == entries@[i as int]@);
        let is_kept = match &keep {
            Some(k) => *k == entries[i],
            None => false,
        };
        if !is_kept {
            let ghost before = out@;
            out.push(entries[i].clone());
            assert(strs_view(out@) =~= strs_view(before).push(entries@[i as int]@));
        }
        i = i + 1;
    }
    assert(entries@.subrange(0, entries@.len() as int) =~= entries@);
    out
}

/// After a mount lists the mount base, every generation there other than
/// the live one is purged, and the live one is not.
pub proof fn lemma_stale_generations_exact(entries: Seq<Seq<char>>, live: Seq<char>, e: Seq<char>)
    ensures
        stale_names(entries, Some(live)).contains(e) <==> (entries.contains(e) && e != live),
    decreases entries.len(),
{
    if entries.len() > 0 {
        let init = entries.drop_last();
        lemma_stale_generations_exact(init, live, e);
        let r = stale_names(init, Some(live));
        if entries.contains(e) && e != live {
            let i = choose|i: int| 0 <= i < entries.len() && entries[i] == e;
            if i < entries.len() - 1 {
                assert(init[i] == e);
                let j = choose|j: int| 0 <= j < r.len() && r[j] == e;
                if live != entries.last() {
                    assert(r.push(entries.last())[j] == e);
                }
            } else {
                assert(r.push(entries.last())[r.len() as int] == e);
            }
        }
        if stale_names(entries, Some(live)).contains(e) {
            let s = stale_names(entries, Some(live));
            let j = choose|j: int| 0 <= j < s.len() && s[j] == e;
            if live == entries.last() || j < r.len() {
                assert(r[j] == e);
                let i = choose|i: int| 0 <= i < init.len() && init[i] == e;
                assert(entries[i] == e);
            } else {
                assert(entries[entries.len() - 1] == e);
            }
        }
    }
}

/// The arguments of `mount` that put a fresh in-RAM filesystem, without
/// devices or set-id files and with mode 0751, on `dir`.
pub fn ramfs_mount_args(dir: &str) -> (r: Vec<String>)
    ensures
        r@.len() == 6,
        r@[0]@ == "-t"@,
        r@[1]@ == "ramfs"@,
        r@[2]@ == "none"@,
        r@[3]@ == dir@,
        r@[4]@ == "-o"@,
        r@[5]@ == "nodev,nosuid,mode=0751"@,
{
    let mut r: Vec<String> = Vec::new();
    r.push("-t".to_owned());
    r.push("ramfs".to_owned());
    r.push("none".to_owned());
    r.push(dir.to_owned());
    r.push("-o".to_owned());
    r.push("nodev,nosuid,mode=0751".to_owned());
    r
}

/// The outcome of `mount`: success, or its error output as the message.
pub fn mount_outcome(success: bool, stderr: Vec<u8>) -> (r: Result<(), MountRamfsError>)
    ensures
        r is Ok <==> success,
        r matches Err(e) ==> e matches MountRamfsError::MountingRamfs(m) && m@ == process_text(
            stderr@,
        ),
{
    if success {
        Ok(())
    } else {
        Err(MountRamfsError::MountingRamfs(process_msg("mount", stderr)))
    }
}

/// The outcome of `umount`: success, or its error output as the message.
pub fn unmount_outcome(success: bool, stderr: Vec<u8>) -> (r: Result<(), UnmountRamfsError>)
    ensures
        r is Ok <==> success,
        r matches Err(e) ==> e matches UnmountRamfsError::UnmountingRamfs(m) && m@
            == process_text(stderr@),
{
    if success {
        Ok(())
    } else {
        Err(UnmountRamfsError::UnmountingRamfs(process_msg("umount", stderr)))
    }
}

/// Where a mount stands: each step awaits the outcome of one action.
pub enum MountStep {
    /// Awaits whether the new generation's directory is already mounted.
    Checking,
    /// Awaits the mount of the in-RAM filesystem on it.
    Mounting,
    /// Awaits the writing of the secret files into it.
    Exposing,
    /// Awaits the swap of the stable link to it.
    Linking,
    /// Awaits the listing of the mount base.
    Listing,
    /// Awaits the purge of an earlier generation.
    Purging,
    /// Finished, or failed.
    Done,
}

/// What the caller does next on behalf of a mount.
pub enum MountAction {
    /// Report whether this directory is a mount point.
    CheckMounted(String),
    /// Create this directory if missing and mount a fresh in-RAM filesystem
    /// on it.
    MountRamfs(String),
    /// Write the secret files into this directory.
    ExposeFiles(String),
    /// Remove `link` if it exists, then make it a symlink to `target`.
    ReplaceLink { link: String, target: String },
    /// Report the names of the entries of this directory.
    ListBase(String),
    /// Unmount this directory if it is a mount point, then remove it.
    PurgeGeneration(String),
    /// The mount is complete.
    Finish,
    /// The mount failed with this error.
    Abort(MountSecretsError),
}

/// The outcome of the last action.
pub enum MountEvent {
    Checked(bool),
    Completed,
    Listed(Vec<String>),
    Failed(MountSecretsError),
}

/// One mount in progress: the base, the stable link, the new generation,
/// and the earlier generations found to purge.
pub struct MountSession {
    pub base: String,
    pub secret_dir: String,
    pub plan: MountPlan,
    pub step: MountStep,
    pub stale: Vec<String>,
    pub purged: usize,
}

impl MountSession {
    /// The session's parts agree: the generation lies under the base, and
    /// no more generations are purged than were found.
    pub open spec fn wf(&self) -> bool {
        &&& self.plan.gen_dir@ == path_join(self.base@, self.plan.generation@)
        &&& self.purged <= self.stale@.len()
        &&& (self.step is Purging ==> self.purged >= 1)
    }

    /// Starts a mount under `base` with the clock reading `ms`: the first
    /// action checks that the new generation is not mounted already.
    pub fn start(base: &str, secret_dir: &str, ms: u64) -> (r: (MountSession, MountAction))
        ensures
            r.0.wf(),
            r.0.base@ == base@,
            r.0.secret_dir@ == secret_dir@,
            r.0.plan.generation@ == decimal(ms as nat),
            r.0.step is Checking,
            r.1 matches MountAction::CheckMounted(d) && d@ == r.0.plan.gen_dir@,
    {
        let plan = plan_mount(base, ms);
        let dir = plan.gen_dir.clone();
        let session = MountSession {
            base: base.to_owned(),
            secret_dir: secret_dir.to_owned(),
            plan,
            step: MountStep::Checking,
            stale: Vec::new(),
            purged: 0,
        };
        (session, MountAction::CheckMounted(dir))
    }

    /// The next action once the last one ended with `event`. The order is
    /// fixed: check, mount the in-RAM filesystem, write the files, swap the
    /// stable link, list the base, purge every earlier generation. A failure
    /// ends the mount with its error; an event that does not answer the
    /// awaited action changes nothing.
    pub fn advance(&mut self, event: MountEvent) -> (r: MountAction)
        requires
            old(self).wf(),
        ensures
            final(self).wf(),
            final(self).base == old(self).base,
            final(self).secret_dir == old(self).secret_dir,
            final(self).plan == old(self).plan,
            match (old(self).step, event) {
                (MountStep::Done, _) => final(self).step is Done && r is Finish,
                (_, MountEvent::Failed(e)) => final(self).step is Done && r == MountAction::Abort(
                    e,
                ),
                (MountStep::Checking, MountEvent::Checked(true)) => final(self).step is Done && r
                    == MountAction::Abort(MountSecretsError::AlreadyMounted),
                (MountStep::Checking, MountEvent::Checked(false)) => final(self).step is Mounting
                    && (r matches MountAction::MountRamfs(d) && d@ == old(self).plan.gen_dir@),
                (MountStep::Mounting, MountEvent::Completed) => final(self).step is Exposing
                    && (r matches MountAction::ExposeFiles(d) && d@ == old(self).plan.gen_dir@),
                (MountStep::Exposing, MountEvent::Completed) => final(self).step is Linking
                    && (r matches MountAction::ReplaceLink { link, target } && link@ == old(
                    self,
                ).secret_dir@ && target@ == old(self).plan.gen_dir@),
                (MountStep::Linking, MountEvent::Completed) => final(self).step is Listing
                    && (r matches MountAction::ListBase(d) && d@ == old(self).base@),
                (MountStep::Listing, MountEvent::Listed(names)) => {
                    let stale = stale_names(strs_view(names@), Some(old(self).plan.generation@));
                    &&& strs_view(final(self).stale@) == stale
                    &&& if stale.len() == 0 {
                        final(self).step is Done && r is Finish
                    } else {
                        &&& final(self).step is Purging
                        &&& final(self).purged == 1
                        &&& r matches MountAction::PurgeGeneration(d) && d@ == path_join(
                            old(self).base@,
                            stale[0],
                        )
                    }
                },
                (MountStep::Purging, MountEvent::Completed) => {
                    &&& final(self).stale == old(self).stale
                    &&& if old(self).purged < old(self).stale@.len() {
                        &&& final(self).step is Purging
                        &&& final(self).purged == old(self).purged + 1
                        &&& r matches MountAction::PurgeGeneration(d) && d@ == path_join(
                            old(self).base@,
                            old(self).stale@[old(self).purged as int]@,
                        )
                    } else {
                        final(self).step is Done && r is Finish
                    }
                },
                _ => *final(self) == *old(self) && !(r is Finish) && awaited(old(self), r),
            },
    {
        match self.step {
            MountStep::Done => {
                return MountAction::Finish;
            },
            _ => {},
        }
        match event {
            MountEvent::Failed(e) => {
                self.step = MountStep::Done;
                MountAction::Abort(e)
            },
            MountEvent::Checked(mounted) => match self.step {
                MountStep::Checking => {
                    if mounted {
                        self.step = MountStep::Done;
                        MountAction::Abort(MountSecretsError::AlreadyMounted)
                    } else {
                        self.step = MountStep::Mounting;
                        MountAction::MountRamfs(self.plan.gen_dir.clone())
                    }
                },
                _ => self.awaited_action(),
            },
            MountEvent::Completed => match self.step {
                MountStep::Mounting => {
                    self.step = MountStep::Exposing;
                    MountAction::ExposeFiles(self.plan.gen_dir.clone())
                },
                MountStep::Exposing => {
                    self.step = MountStep::Linking;
                    MountAction::ReplaceLink {
                        link: self.secret_dir.clone(),
                        target: self.plan.gen_dir.clone(),
                    }
                },
                MountStep::Linking => {
                    self.step = MountStep::Listing;
                    MountAction::ListBase(self.base.clone())
                },
                MountStep::Purging => {
                    if self.purged < self.stale.len() {
                        let path = join_path(self.base.as_str(), self.stale[self.purged].as_str());
                        self.purged = self.purged + 1;
                        MountAction::PurgeGeneration(path)
                    } else {
                        self.step = MountStep::Done;
                        MountAction::Finish
                    }
                },
                _ => self.awaited_action(),
            },
            MountEvent::Listed(names) => match self.step {
                MountStep::Listing => {
                    let stale = stale_generations(&names, Some(self.plan.generation.clone()));
                    self.stale = stale;
                    self.purged = 0;
                    if self.stale.len() == 0 {
                        self.step = MountStep::Done;
                        MountAction::Finish
                    } else {
                        self.step = MountStep::Purging;
                        self.purged = 1;
                        assert(strs_view(self.stale@)[0] == self.stale@[0]@);
                        MountAction::PurgeGeneration(
                            join_path(self.base.as_str(), self.stale[0].as_str()),
                        )
                    }
                },
                _ => self.awaited_action(),
            },
        }
    }

    /// The action whose outcome the session awaits.
    fn awaited_action(&self) -> (r: MountAction)
        requires
            self.wf(),
            !(self.step is Done),
        ensures
            awaited(self, r),
            !(r is Finish),
    {
        match self.step {
            MountStep::Checking => MountAction::CheckMounted(self.plan.gen_dir.clone()),
            MountStep::Mounting => MountAction::MountRamfs(self.plan.gen_dir.clone()),
            MountStep::Exposing => MountAction::ExposeFiles(self.plan.gen_dir.clone()),
            MountStep::Linking => MountAction::ReplaceLink {
                link: self.secret_dir.clone(),
                target: self.plan.gen_dir.clone(),
            },
            MountStep::Listing => MountAction::ListBase(self.base.clone()),
            _ => MountAction::PurgeGeneration(
                join_path(self.base.as_str(), self.stale[self.purged - 1].as_str()),
            ),
        }
    }
}

/// `r` is the action whose outcome `s` awaits.
pub open spec fn awaited(s: &MountSession, r: MountAction) -> bool {
    match s.step {
        MountStep::Checking => r matches MountAction::CheckMounted(d) && d@ == s.plan.gen_dir@,
        MountStep::Mounting => r matches MountAction::MountRamfs(d) && d@ == s.plan.gen_dir@,
        MountStep::Exposing => r matches MountAction::ExposeFiles(d) && d@ == s.plan.gen_dir@,
        MountStep::Linking => r matches MountAction::ReplaceLink { link, target } && link@
            == s.secret_dir@ && target@ == s.plan.gen_dir@,
        MountStep::Listing => r matches MountAction::ListBase(d) && d@ == s.base@,
        MountStep::Purging => r matches MountAction::PurgeGeneration(d) && d@ == path_join(
            s.base@,
            s.stale@[s.purged - 1]@,
        ),
        MountStep::Done => r is Finish,
    }
}

} // verus!
