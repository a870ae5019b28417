//! The builder that composes exposures from config files and command-line
//! flags, rejecting duplicate vanity paths and duplicate variable names, and
//! the state that it yields.
use vstd::prelude::*;

use crate::exposures::{
    env_views,
    file_views,
    opt_str_view,
    EnvExposeArgs,
    EnvSpecView,
    Exposures,
    FileExposeArgs,
    FileSpecView,
};
use crate::secret::Secret;
use crate::text::{contains_str, join_path, path_join, strs_view};

verus! {

/// Where secrets are stored: an S3 bucket in a region.
pub struct S3Config {
    pub bucket: String,
    pub region: String,
}

/// The store that holds the ciphertexts.
pub enum StorageConfig {
    S3(S3Config),
}

/// Why the builder refused its input.
pub enum StateBuilderError {
    /// A vanity path was given twice.
    DuplicatePath(String),
    /// An environment variable name was given twice.
    DuplicateEnvName(String),
    /// No store was configured.
    StorageUnset,
}

/// The vanity paths of file specs, in order, skipping specs without one.
pub open spec fn vanity_paths(s: Seq<FileSpecView>) -> Seq<Seq<char>>
    decreases s.len(),
{
    if s.len() == 0 {
        Seq::empty()
    } else {
        let r = vanity_paths(s.drop_last());
        match s.last().vanity_path {
            Some(p) => r.push(p),
            None => r,
        }
    }
}

/// The variable names of env specs, in order.
pub open spec fn env_names(s: Seq<EnvSpecView>) -> Seq<Seq<char>> {
    s.map_values(|e: EnvSpecView| e.name)
}

/// `items[i]` was seen before: in `seen`, or earlier in `items`.
pub open spec fn repeats_at(seen: Seq<Seq<char>>, items: Seq<Seq<char>>, i: int) -> bool {
    (seen + items.take(i)).contains(items[i])
}

/// `i` is the first position at which `items` repeats a value.
pub open spec fn first_repeat_at(seen: Seq<Seq<char>>, items: Seq<Seq<char>>, i: int) -> bool {
    &&& 0 <= i < items.len()
    &&& repeats_at(seen, items, i)
    &&& forall|j: int| 0 <= j < i ==> !repeats_at(seen, items, j)
}

/// No value of `items` was seen before.
pub open spec fn all_fresh(seen: Seq<Seq<char>>, items: Seq<Seq<char>>) -> bool {
    forall|i: int| 0 <= i < items.len() ==> !repeats_at(seen, items, i)
}

pub proof fn lemma_fresh_no_duplicates(seen: Seq<Seq<char>>, items: Seq<Seq<char>>)
    requires
        seen.no_duplicates(),
    ensures
        all_fresh(seen, items) <==> (seen + items).no_duplicates(),
{
    let all = seen + items;
    if all_fresh(seen, items) {
        assert forall|a: int, b: int|
            0 <= a < all.len() && 0 <= b < all.len() && a != b implies all[a] != all[b] by {
            if a < b {
                if b >= seen.len() {
                    let bi = b - seen.len();
                    assert(!repeats_at(seen, items, bi));
                    assert((seen + items.take(bi))[a] == all[a]);
                }
            } else {
                if a >= seen.len() {
                    let ai = a - seen.len();
                    assert(!repeats_at(seen, items, ai));
                    assert((seen + items.take(ai))[b] == all[b]);
                }
            }
        }
    }
    if all.no_duplicates() {
        assert forall|i: int| 0 <= i < items.len() implies !repeats_at(seen, items, i) by {
            let pre = seen + items.take(i);
            if pre.contains(items[i]) {
                let m = choose|m: int| 0 <= m < pre.len() && pre[m] == items[i];
                assert(all[m] == pre[m]);
                assert(all[seen.len() + i] == items[i]);
            }
        }
    }
}

/// The first position at which `items` repeats a value of `seen` or of
/// itself, if any.
fn first_repeat(seen: &Vec<String>, items: &Vec<String>) -> (r: Option<usize>)
    ensures
        match r {
            Some(i) => first_repeat_at(strs_view(seen@), strs_view(items@), i as int),
            None => all_fresh(strs_view(seen@), strs_view(items@)),
        },
{
    let mut pending: Vec<String> = Vec::new();
    let mut i: usize = 0;
    while i < items.len()
        invariant
            i <= items@.len(),
            strs_view(pending@) == strs_view(items@).take(i as int),
            forall|j: int| 0 <= j < i ==> !repeats_at(strs_view(seen@), strs_view(items@), j),
        decreases items@.len() - i,
    {
        let item = &items[i];
        let ghost prior = strs_view(seen@) + strs_view(items@).take(i as int);
        let in_seen = contains_str(seen, item);
        let in_pending = contains_str(&pending, item);
        proof {
            if prior.contains(item@) {
                let m = choose|m: int| 0 <= m < prior.len() && prior[m] == item@;
                if m < seen@.len() {
                    assert(strs_view(seen@)[m] == item@);
                } else {
                    assert(strs_view(pending@)[m - seen@.len()] == item@);
                }
            }
            if in_seen {
                let m = choose|m: int| 0 <= m < strs_view(seen@).len() && strs_view(seen@)[m] == item@;
                assert(prior[m] == item@);
            }
            if in_pending {
                let m = choose|m: int|
                    0 <= m < strs_view(pending@).len() && strs_view(pending@)[m] == item@;
                assert(prior[seen@.len() + m] == item@);
            }
        }
        if in_seen || in_pending {
            return Some(i);
        }
        pending.push(item.clone());
        assert(strs_view(pending@) =~= strs_view(items@).take(i as int + 1));
        i = i + 1;
    }
    None
}

/// The vanity paths of `specs`, copied.
pub fn collect_vanity_paths(specs: &Vec<FileExposeArgs>) -> (r: Vec<String>)
    ensures
        strs_view(r@) == vanity_paths(file_views(specs@)),
{
    let mut out: Vec<String> = Vec::new();
    let mut i: usize = 0;
    while i < specs.len()
        invariant
            i <= specs@.len(),
            strs_view(out@) == vanity_paths(file_views(specs@.subrange(0, i as int))),
        decreases specs@.len() - i,
    {
        let ghost pre = file_views(specs@.subrange(0, i as int));
        let ghost next = file_views(specs@.subrange(0, i as int + 1));
        assert(next.drop_last() =~= pre);
        assert(next.last() == specs@[i as int]@);
        match &specs[i].vanity_path {
            Some(p) => {
                let ghost before = out@;
                out.push(p.clone());
                assert(strs_view(out@) =~= strs_view(before).push(p@));
            },
            None => {},
        }
        i = i + 1;
    }
    assert(specs@.subrange(0, specs@.len() as int) =~= specs@);
    out
}

/// The variable names of `specs`, copied.
fn collect_env_names(specs: &Vec<EnvExposeArgs>) -> (r: Vec<String>)
    ensures
        strs_view(r@) == env_names(env_views(specs@)),
{
    let mut out: Vec<String> = Vec::new();
    let mut i: usize = 0;
    while i < specs.len()
        invariant
            i <= specs@.len(),
            strs_view(out@) == env_names(env_views(specs@)).take(i as int),
        decreases specs@.len() - i,
    {
        let ghost before = out@;
        out.push(specs[i].name.clone());
        assert(env_names(env_views(specs@))[i as int] == specs@[i as int].name@);
        assert(strs_view(out@) =~= strs_view(before).push(specs@[i as int].name@));
        assert(strs_view(out@) =~= env_names(env_views(specs@)).take(i as int + 1));
        i = i + 1;
    }
    assert(env_names(env_views(specs@)).take(specs@.len() as int) =~= env_names(
        env_views(specs@),
    ));
    out
}

/// The key files tried when none are configured: `id_rsa` and `id_ed25519`
/// under `$HOME/.ssh`, or none where `HOME` is unset.
pub open spec fn default_key_paths(home: Option<Seq<char>>) -> Seq<Seq<char>> {
    match home {
        Some(h) => {
            let ssh = path_join(h, ".ssh"@);
            seq![path_join(ssh, "id_rsa"@), path_join(ssh, "id_ed25519"@)]
        },
        None => Seq::empty(),
    }
}

/// Collects secrets, exposures, key files and the store of one invocation.
pub struct StateBuilder {
    pub exposures: Exposures,
    pub secrets: Vec<Secret>,
    pub storage: Option<StorageConfig>,
    pub private_key_paths: Option<Vec<String>>,
    pub seen_env_vars: Vec<String>,
    pub seen_file_paths: Vec<String>,
}

/// What a builder yields: everything a command needs.
pub struct State {
    pub secrets: Vec<Secret>,
    pub exposures: Exposures,
    pub private_key_paths: Vec<String>,
    pub storage: StorageConfig,
}

impl StateBuilder {
    /// The builder's bookkeeping agrees with its exposures: the vanity paths
    /// and variable names seen are those of the exposures, each once.
    pub open spec fn wf(&self) -> bool {
        &&& strs_view(self.seen_file_paths@) == vanity_paths(file_views(self.exposures.files@))
        &&& strs_view(self.seen_env_vars@) == env_names(env_views(self.exposures.envs@))
        &&& strs_view(self.seen_file_paths@).no_duplicates()
        &&& strs_view(self.seen_env_vars@).no_duplicates()
    }

    /// An empty builder.
    pub fn new() -> (r: Self)
        ensures
            r.wf(),
            r.exposures.files@.len() == 0,
            r.exposures.envs@.len() == 0,
            r.secrets@.len() == 0,
            r.storage is None,
            r.private_key_paths is None,
    {
        let r = StateBuilder {
            exposures: Exposures::new(),
            secrets: Vec::new(),
            storage: None,
            private_key_paths: None,
            seen_env_vars: Vec::new(),
            seen_file_paths: Vec::new(),
        };
        assert(strs_view(r.seen_file_paths@) =~= vanity_paths(file_views(r.exposures.files@)));
        assert(strs_view(r.seen_env_vars@) =~= env_names(env_views(r.exposures.envs@)));
        r
    }

    /// Adds key files to those already given.
    pub fn set_identities(&mut self, items: Vec<String>)
        ensures
            final(self).private_key_paths matches Some(p) && p@ == match old(
                self,
            ).private_key_paths {
                Some(q) => q@ + items@,
                None => items@,
            },
            final(self).exposures == old(self).exposures,
            final(self).secrets == old(self).secrets,
            final(self).storage == old(self).storage,
            final(self).seen_env_vars == old(self).seen_env_vars,
            final(self).seen_file_paths == old(self).seen_file_paths,
    {
        let mut items = items;
        match self.private_key_paths.take() {
            Some(mut paths) => {
                paths.append(&mut items);
                self.private_key_paths = Some(paths);
            },
            None => {
                self.private_key_paths = Some(items);
            },
        }
    }

    /// Sets the store; a later call replaces an earlier one.
    pub fn set_secret_storage(&mut self, storage: StorageConfig)
        ensures
            final(self).storage == Some(storage),
            final(self).exposures == old(self).exposures,
            final(self).secrets == old(self).secrets,
            final(self).private_key_paths == old(self).private_key_paths,
            final(self).seen_env_vars == old(self).seen_env_vars,
            final(self).seen_file_paths == old(self).seen_file_paths,
    {
        self.storage = Some(storage);
    }

    /// Adds secrets after those already given.
    pub fn add_secrets(&mut self, items: Vec<Secret>)
        ensures
            final(self).secrets@ == old(self).secrets@ + items@,
            final(self).exposures == old(self).exposures,
            final(self).storage == old(self).storage,
            final(self).private_key_paths == old(self).private_key_paths,
            final(self).seen_env_vars == old(self).seen_env_vars,
            final(self).seen_file_paths == old(self).seen_file_paths,
    {
        let mut items = items;
        self.secrets.append(&mut items);
    }

    /// Adds file exposures, unless one of them has a vanity path that an
    /// exposure already added or an earlier one of `args` has: then the
    /// first such path is the error and the builder is left as it was.
    pub fn add_file_exposures(&mut self, args: Vec<FileExposeArgs>) -> (r: Result<
        (),
        StateBuilderError,
    >)
        requires
            old(self).wf(),
        ensures
            final(self).wf(),
            final(self).secrets == old(self).secrets,
            final(self).storage == old(self).storage,
            final(self).private_key_paths == old(self).private_key_paths,
            final(self).exposures.envs == old(self).exposures.envs,
            match r {
                Ok(()) => {
                    &&& all_fresh(
                        strs_view(old(self).seen_file_paths@),
                        vanity_paths(file_views(args@)),
                    )
                    &&& file_views(final(self).exposures.files@) == file_views(
                        old(self).exposures.files@,
                    ) + file_views(args@)
                },
                Err(e) => {
                    &&& e matches StateBuilderError::DuplicatePath(p) && exists|i: int|
                        first_repeat_at(
                            strs_view(old(self).seen_file_paths@),
                            vanity_paths(file_views(args@)),
                            i,
                        ) && vanity_paths(file_views(args@))[i] == p@
                    &&& final(self).exposures == old(self).exposures
                },
            },
    {
        let paths = collect_vanity_paths(&args);
        match first_repeat(&self.seen_file_paths, &paths) {
            Some(i) => Err(StateBuilderError::DuplicatePath(paths[i].clone())),
            None => {
                proof {
                    lemma_fresh_no_duplicates(strs_view(self.seen_file_paths@), strs_view(paths@));
                    lemma_vanity_paths_concat(
                        file_views(self.exposures.files@),
                        file_views(args@),
                    );
                }
                let ghost old_seen = self.seen_file_paths@;
                let mut paths = paths;
                self.seen_file_paths.append(&mut paths);
                assert(strs_view(self.seen_file_paths@) =~= strs_view(old_seen) + vanity_paths(
                    file_views(args@),
                ));
                self.exposures.add_files(args);
                Ok(())
            },
        }
    }

    /// Adds env exposures, unless one of them has a variable name that an
    /// exposure already added or an earlier one of `args` has: then the
    /// first such name is the error and the builder is left as it was.
    pub fn add_env_exposures(&mut self, args: Vec<EnvExposeArgs>) -> (r: Result<
        (),
        StateBuilderError,
    >)
        requires
            old(self).wf(),
        ensures
            final(self).wf(),
            final(self).secrets == old(self).secrets,
            final(self).storage == old(self).storage,
            final(self).private_key_paths == old(self).private_key_paths,
            final(self).exposures.files == old(self).exposures.files,
            match r {
                Ok(()) => {
                    &&& all_fresh(
                        strs_view(old(self).seen_env_vars@),
                        env_names(env_views(args@)),
                    )
                    &&& env_views(final(self).exposures.envs@) == env_views(
                        old(self).exposures.envs@,
                    ) + env_views(args@)
                },
                Err(e) => {
                    &&& e matches StateBuilderError::DuplicateEnvName(n) && exists|i: int|
                        first_repeat_at(
                            strs_view(old(self).seen_env_vars@),
                            env_names(env_views(args@)),
                            i,
                        ) && env_names(env_views(args@))[i] == n@
                    &&& final(self).exposures == old(self).exposures
                },
            },
    {
        let names = collect_env_names(&args);
        match first_repeat(&self.seen_env_vars, &names) {
            Some(i) => Err(StateBuilderError::DuplicateEnvName(names[i].clone())),
            None => {
                proof {
                    lemma_fresh_no_duplicates(strs_view(self.seen_env_vars@), strs_view(names@));
                }
                let ghost old_seen = self.seen_env_vars@;
                let ghost old_envs = self.exposures.envs@;
                let mut names = names;
                self.seen_env_vars.append(&mut names);
                self.exposures.add_envs(args);
                assert(strs_view(self.seen_env_vars@) =~= strs_view(old_seen) + env_names(
                    env_views(args@),
                ));
                assert(env_names(env_views(self.exposures.envs@)) =~= env_names(
                    env_views(old_envs),
                ) + env_names(env_views(args@)));
                Ok(())
            },
        }
    }

    /// The key files to try: those given, or else the defaults under `home`.
    pub fn key_paths(&self, home: Option<String>) -> (r: Vec<String>)
        ensures
            match self.private_key_paths {
                Some(p) => r@ == p@,
                None => strs_view(r@) == default_key_paths(opt_str_view(home)),
            },
    {
        match &self.private_key_paths {
            Some(p) => clone_strs(p),
            None => match home {
                Some(h) => {
                    let ssh = join_path(h.as_str(), ".ssh");
                    let mut out: Vec<String> = Vec::new();
                    out.push(join_path(ssh.as_str(), "id_rsa"));
                    out.push(join_path(ssh.as_str(), "id_ed25519"));
                    assert(strs_view(out@) =~= default_key_paths(opt_str_view(home)));
                    out
                },
                None => {
                    let out: Vec<String> = Vec::new();
                    assert(strs_view(out@) =~= default_key_paths(opt_str_view(home)));
                    out
                },
            },
        }
    }

    /// The state, once a store is set; `home` is where default key files
    /// are looked for.
    pub fn build(self, home: Option<String>) -> (r: Result<State, StateBuilderError>)
        ensures
            match r {
                Ok(s) => {
                    &&& self.storage == Some(s.storage)
                    &&& s.secrets == self.secrets
                    &&& s.exposures == self.exposures
                    &&& match self.private_key_paths {
                        Some(p) => s.private_key_paths@ == p@,
                        None => strs_view(s.private_key_paths@) == default_key_paths(
                            opt_str_view(home),
                        ),
                    }
                },
                Err(e) => self.storage is None && e is StorageUnset,
            },
    {
        let private_key_paths = self.key_paths(home);
        match self.storage {
            Some(storage) => Ok(
                State {
                    secrets: self.secrets,
                    exposures: self.exposures,
                    private_key_paths,
                    storage,
                },
            ),
            None => Err(StateBuilderError::StorageUnset),
        }
    }
}

/// A copy of a list of strings.
pub fn clone_strs(v: &Vec<String>) -> (r: Vec<String>)
    ensures
        r@ == v@,
{
    let mut out: Vec<String> = Vec::new();
    let mut i: usize = 0;
    while i < v.len()
        invariant
            i <= v@.len(),
            out@ == v@.take(i as int),
        decreases v@.len() - i,
    {
        out.push(v[i].clone());
        assert(out@ =~= v@.take(i as int + 1));
        i = i + 1;
    }
    assert(v@.take(v@.len() as int) =~= v@);
    out
}

pub proof fn lemma_vanity_paths_concat(a: Seq<FileSpecView>, b: Seq<FileSpecView>)
    ensures
        vanity_paths(a + b) == vanity_paths(a) + vanity_paths(b),
    decreases b.len(),
{
    if b.len() == 0 {
        assert(a + b =~= a);
        assert(vanity_paths(a) + vanity_paths(b) =~= vanity_paths(a));
    } else {
        assert((a + b).drop_last() =~= a + b.drop_last());
        lemma_vanity_paths_concat(a, b.drop_last());
        match b.last().vanity_path {
            Some(p) => {
                assert(vanity_paths(a) + vanity_paths(b.drop_last()).push(p) =~= (vanity_paths(a)
                    + vanity_paths(b.drop_last())).push(p));
            },
            None => {},
        }
    }
}

/// A value given again, in any later batch or later in the same batch,
/// makes that batch fail: a vanity path or a variable name is accepted
/// once.
pub proof fn lemma_repeat_rejected(seen: Seq<Seq<char>>, items: Seq<Seq<char>>, i: int, j: int)
    requires
        0 <= i < items.len(),
        (0 <= j < seen.len() && seen[j] == items[i]) || (0 <= j < i && items[j] == items[i]),
    ensures
        !all_fresh(seen, items),
{
    let pre = seen + items.take(i);
    if j < seen.len() && 0 <= j && seen[j] == items[i] {
        assert(pre[j] == items[i]);
    } else {
        assert(pre[seen.len() + j] == items[i]);
    }
    assert(repeats_at(seen, items, i));
}

proof fn lemma_no_duplicates_prefix(s: Seq<Seq<char>>, t: Seq<Seq<char>>)
    requires
        (s + t).no_duplicates(),
    ensures
        s.no_duplicates(),
{
    assert forall|a: int, b: int| 0 <= a < s.len() && 0 <= b < s.len() && a != b implies s[a]
        != s[b] by {
        assert((s + t)[a] == s[a]);
        assert((s + t)[b] == s[b]);
    }
}

proof fn lemma_no_duplicates_swap(x: Seq<Seq<char>>, y: Seq<Seq<char>>, z: Seq<Seq<char>>)
    requires
        (x + y + z).no_duplicates(),
    ensures
        (x + z + y).no_duplicates(),
{
    let p = x + y + z;
    let q = x + z + y;
    let xl = x.len() as int;
    let yl = y.len() as int;
    let zl = z.len() as int;
    assert forall|a: int, b: int| 0 <= a < q.len() && 0 <= b < q.len() && a != b implies q[a]
        != q[b] by {
        let pa = if a < xl {
            a
        } else if a < xl + zl {
            a + yl
        } else {
            a - zl
        };
        let pb = if b < xl {
            b
        } else if b < xl + zl {
            b + yl
        } else {
            b - zl
        };
        assert(q[a] == p[pa]);
        assert(q[b] == p[pb]);
    }
}

/// Two batches are accepted one after the other in either order, or in
/// neither: whether the builder fails does not depend on the order of its
/// inputs.
pub proof fn lemma_batches_accepted_in_either_order(
    seen: Seq<Seq<char>>,
    a: Seq<Seq<char>>,
    b: Seq<Seq<char>>,
)
    requires
        seen.no_duplicates(),
    ensures
        (all_fresh(seen, a) && all_fresh(seen + a, b)) <==> (all_fresh(seen, b) && all_fresh(
            seen + b,
            a,
        )),
{
    lemma_fresh_no_duplicates(seen, a);
    lemma_fresh_no_duplicates(seen, b);
    if (seen + a + b).no_duplicates() {
        lemma_no_duplicates_prefix(seen + a, b);
        lemma_no_duplicates_swap(seen, a, b);
        lemma_no_duplicates_prefix(seen + b, a);
    }
    if (seen + b + a).no_duplicates() {
        lemma_no_duplicates_prefix(seen + b, a);
        lemma_no_duplicates_swap(seen, b, a);
        lemma_no_duplicates_prefix(seen + a, b);
    }
    if (seen + a).no_duplicates() {
        lemma_fresh_no_duplicates(seen + a, b);
    }
    if (seen + b).no_duplicates() {
        lemma_fresh_no_duplicates(seen + b, a);
    }
}

/// The batches `ps` of vanity paths (or of variable names) are accepted one
/// after the other, starting from `seen`: each is fresh against `seen` and
/// the batches before it.
pub open spec fn all_accepted(seen: Seq<Seq<char>>, ps: Seq<Seq<Seq<char>>>) -> bool
    decreases ps.len(),
{
    if ps.len() == 0 {
        true
    } else {
        all_accepted(seen, ps.drop_last()) && all_fresh(seen + ps.drop_last().flatten(), ps.last())
    }
}

proof fn lemma_all_accepted_no_duplicates(seen: Seq<Seq<char>>, ps: Seq<Seq<Seq<char>>>)
    requires
        seen.no_duplicates(),
    ensures
        all_accepted(seen, ps) <==> (seen + ps.flatten()).no_duplicates(),
    decreases ps.len(),
{
    if ps.len() == 0 {
        assert(seen + ps.flatten() =~= seen);
    } else {
        let init = ps.drop_last();
        lemma_all_accepted_no_duplicates(seen, init);
        assert(init.push(ps.last()) =~= ps);
        init.lemma_flatten_push(ps.last());
        assert(seen + ps.flatten() =~= seen + init.flatten() + ps.last());
        if (seen + init.flatten()).no_duplicates() {
            lemma_fresh_no_duplicates(seen + init.flatten(), ps.last());
        } else if (seen + ps.flatten()).no_duplicates() {
            lemma_no_duplicates_prefix(seen + init.flatten(), ps.last());
        }
    }
}

proof fn lemma_no_duplicates_by_multiset(s1: Seq<Seq<char>>, s2: Seq<Seq<char>>)
    requires
        s1.to_multiset() =~= s2.to_multiset(),
        s1.no_duplicates(),
    ensures
        s2.no_duplicates(),
{
    s1.lemma_multiset_has_no_duplicates();
    s2.lemma_multiset_has_no_duplicates_conv();
}

/// Batches given in any order are all accepted, or not all: whether the
/// builder fails does not depend on the order of its inputs. `ps2` is a
/// reordering of `ps1`.
pub proof fn lemma_batches_accepted_any_order(
    seen: Seq<Seq<char>>,
    ps1: Seq<Seq<Seq<char>>>,
    ps2: Seq<Seq<Seq<char>>>,
)
    requires
        seen.no_duplicates(),
        ps1.to_multiset() =~= ps2.to_multiset(),
    ensures
        all_accepted(seen, ps1) <==> all_accepted(seen, ps2),
{
    broadcast use vstd::seq_lib::lemma_multiset_commutative;
    broadcast use vstd::multiset::group_multiset_axioms;

    lemma_all_accepted_no_duplicates(seen, ps1);
    lemma_all_accepted_no_duplicates(seen, ps2);
    crate::exposures::lemma_flatten_reordered(ps1, ps2);
    assert((seen + ps1.flatten()).to_multiset() =~= (seen + ps2.flatten()).to_multiset());
    if (seen + ps1.flatten()).no_duplicates() {
        lemma_no_duplicates_by_multiset(seen + ps1.flatten(), seen + ps2.flatten());
    }
    if (seen + ps2.flatten()).no_duplicates() {
        lemma_no_duplicates_by_multiset(seen + ps2.flatten(), seen + ps1.flatten());
    }
}

} // verus!
