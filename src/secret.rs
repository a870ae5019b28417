//! Secrets as configured, looking them up by name, and pairing each
//! exposed secret with its exposures.
use vstd::prelude::*;

use crate::exposures::{
    env_views,
    envs_named,
    file_views,
    files_named,
    EnvExposeArgs,
    EnvSpecView,
    Exposures,
    FileExposeArgs,
    FileSpecView,
};
use crate::text::{contains_str, str_eq, strs_view};

verus! {

/// A secret: a unique name, where its ciphertext lives in the store, the
/// recipients it is encrypted to, and defaults for where and as whom it
/// appears on disk.
pub struct Secret {
    pub name: String,
    pub encryption_keys: Vec<String>,
    pub path: String,
    pub mount_path: Option<String>,
    pub owner_user: Option<u32>,
    pub owner_group: Option<u32>,
}

/// Marks the error type of a secret store.
pub trait SecretError {}

/// Whether a secret named `name` is among `secrets`.
pub open spec fn has_secret(secrets: Seq<Secret>, name: Seq<char>) -> bool {
    exists|i: int| 0 <= i < secrets.len() && #[trigger] secrets[i].name@ == name
}

/// `i` is the first position of a secret named `name`.
pub open spec fn first_named_at(secrets: Seq<Secret>, name: Seq<char>, i: int) -> bool {
    &&& 0 <= i < secrets.len()
    &&& secrets[i].name@ == name
    &&& forall|j: int| 0 <= j < i ==> secrets[j].name@ != name
}

/// The first secret named `name`, if any.
pub fn find_secret<'a>(secrets: &'a Vec<Secret>, name: &str) -> (r: Option<&'a Secret>)
    ensures
        match r {
            Some(s) => exists|i: int| first_named_at(secrets@, name@, i) && secrets@[i] == *s,
            None => !has_secret(secrets@, name@),
        },
{
    let mut i: usize = 0;
    while i < secrets.len()
        invariant
            i <= secrets@.len(),
            forall|j: int| 0 <= j < i ==> secrets@[j].name@ != name@,
        decreases secrets@.len() - i,
    {
        if str_eq(&secrets[i].name, name) {
            assert(first_named_at(secrets@, name@, i as int));
            return Some(&secrets[i]);
        }
        i = i + 1;
    }
    None
}

/// `v` pairs each group of `items`, in order, with the first secret of its
/// name.
pub open spec fn pairs_resolve<A>(
    secrets: Seq<Secret>,
    items: Seq<(String, Vec<A>)>,
    v: Seq<(&Secret, &Vec<A>)>,
) -> bool {
    &&& v.len() == items.len()
    &&& forall|i: int|
        0 <= i < v.len() ==> {
            &&& exists|j: int|
                first_named_at(secrets, items[i].0@, j) && secrets[j] == *(#[trigger] v[i]).0
            &&& *v[i].1 == items[i].1
        }
}

/// Every group of `items` names a configured secret.
pub open spec fn all_resolve<A>(secrets: Seq<Secret>, items: Seq<(String, Vec<A>)>) -> bool {
    forall|j: int| 0 <= j < items.len() ==> has_secret(secrets, #[trigger] items[j].0@)
}

/// `name` is the first group name of `items` that no secret carries.
pub open spec fn first_missing<A>(
    secrets: Seq<Secret>,
    items: Seq<(String, Vec<A>)>,
    name: Seq<char>,
) -> bool {
    exists|i: int|
        0 <= i < items.len() && #[trigger] items[i].0@ == name && !has_secret(secrets, name)
            && forall|j: int| 0 <= j < i ==> has_secret(secrets, #[trigger] items[j].0@)
}

/// Pairs each `(secret name, exposures)` group with the first secret of that
/// name. The first group whose name no secret carries is the error.
pub fn map_secrets<'a, A>(secrets: &'a Vec<Secret>, items: &'a Vec<(String, Vec<A>)>) -> (r: Result<
    Vec<(&'a Secret, &'a Vec<A>)>,
    String,
>)
    ensures
        match r {
            Ok(v) => pairs_resolve(secrets@, items@, v@) && all_resolve(secrets@, items@),
            Err(name) => first_missing(secrets@, items@, name@),
        },
{
    let mut out: Vec<(&'a Secret, &'a Vec<A>)> = Vec::new();
    let mut i: usize = 0;
    while i < items.len()
        invariant
            i <= items@.len(),
            out@.len() == i,
            forall|k: int|
                0 <= k < i ==> {
                    &&& exists|j: int|
                        first_named_at(secrets@, items@[k].0@, j) && secrets@[j]
                            == *(#[trigger] out@[k]).0
                    &&& *out@[k].1 == items@[k].1
                },
            forall|k: int| 0 <= k < i ==> has_secret(secrets@, #[trigger] items@[k].0@),
        decreases items@.len() - i,
    {
        let item = &items[i];
        match find_secret(secrets, item.0.as_str()) {
            Some(s) => {
                out.push((s, &item.1));
            },
            None => {
                return Err(item.0.clone());
            },
        }
        i = i + 1;
    }
    Ok(out)
}

pub proof fn lemma_files_named_member(s: Seq<FileSpecView>, k: Seq<char>)
    requires
        files_named(s, k).len() > 0,
    ensures
        exists|j: int| 0 <= j < s.len() && #[trigger] s[j].secret_name == k,
    decreases s.len(),
{
    if s.last().secret_name == k {
        assert(s[s.len() - 1].secret_name == k);
    } else {
        lemma_files_named_member(s.drop_last(), k);
        let j = choose|j: int| 0 <= j < s.len() - 1 && #[trigger] s.drop_last()[j].secret_name == k;
        assert(s[j].secret_name == k);
    }
}

pub proof fn lemma_envs_named_member(s: Seq<EnvSpecView>, k: Seq<char>)
    requires
        envs_named(s, k).len() > 0,
    ensures
        exists|j: int| 0 <= j < s.len() && #[trigger] s[j].secret_name == k,
    decreases s.len(),
{
    if s.last().secret_name == k {
        assert(s[s.len() - 1].secret_name == k);
    } else {
        lemma_envs_named_member(s.drop_last(), k);
        let j = choose|j: int| 0 <= j < s.len() - 1 && #[trigger] s.drop_last()[j].secret_name == k;
        assert(s[j].secret_name == k);
    }
}

pub proof fn lemma_files_named_nonempty(s: Seq<FileSpecView>, k: Seq<char>, j: int)
    requires
        0 <= j < s.len(),
        s[j].secret_name == k,
    ensures
        files_named(s, k).len() > 0,
    decreases s.len(),
{
    if j < s.len() - 1 && s.last().secret_name != k {
        assert(s.drop_last()[j] == s[j]);
        lemma_files_named_nonempty(s.drop_last(), k, j);
    }
}

pub proof fn lemma_envs_named_nonempty(s: Seq<EnvSpecView>, k: Seq<char>, j: int)
    requires
        0 <= j < s.len(),
        s[j].secret_name == k,
    ensures
        envs_named(s, k).len() > 0,
    decreases s.len(),
{
    if j < s.len() - 1 && s.last().secret_name != k {
        assert(s.drop_last()[j] == s[j]);
        lemma_envs_named_nonempty(s.drop_last(), k, j);
    }
}

/// Some name of `ns` is `k`.
pub open spec fn names_some(ns: Seq<Seq<char>>, k: Seq<char>) -> bool {
    exists|j: int| 0 <= j < ns.len() && ns[j] == k
}

/// The file exposures of `specs` that name `name`, copied, in order.
fn files_of(specs: &Vec<FileExposeArgs>, name: &String) -> (r: Vec<FileExposeArgs>)
    ensures
        file_views(r@) == files_named(file_views(specs@), name@),
{
    let mut out: Vec<FileExposeArgs> = Vec::new();
    let mut i: usize = 0;
    while i < specs.len()
        invariant
            i <= specs@.len(),
            file_views(out@) == files_named(file_views(specs@.subrange(0, i as int)), name@),
        decreases specs@.len() - i,
    {
        let ghost pre = file_views(specs@.subrange(0, i as int));
        let ghost next = file_views(specs@.subrange(0, i as int + 1));
        assert(next.drop_last() =~= pre);
        assert(next.last() == specs@[i as int]@);
        if specs[i].secret_name == *name {
            let c = specs[i].copy();
            let ghost before = out@;
            out.push(c);
            assert(file_views(out@) =~= file_views(before).push(c@));
        }
        i = i + 1;
    }
    assert(specs@.subrange(0, specs@.len() as int) =~= specs@);
    out
}

/// The env exposures of `specs` that name `name`, copied, in order.
fn envs_of(specs: &Vec<EnvExposeArgs>, name: &String) -> (r: Vec<EnvExposeArgs>)
    ensures
        env_views(r@) == envs_named(env_views(specs@), name@),
{
    let mut out: Vec<EnvExposeArgs> = Vec::new();
    let mut i: usize = 0;
    while i < specs.len()
        invariant
            i <= specs@.len(),
            env_views(out@) == envs_named(env_views(specs@.subrange(0, i as int)), name@),
        decreases specs@.len() - i,
    {
        let ghost pre = env_views(specs@.subrange(0, i as int));
        let ghost next = env_views(specs@.subrange(0, i as int + 1));
        assert(next.drop_last() =~= pre);
        assert(next.last() == specs@[i as int]@);
        if specs[i].secret_name == *name {
            let c = specs[i].copy();
            let ghost before = out@;
            out.push(c);
            assert(env_views(out@) =~= env_views(before).push(c@));
        }
        i = i + 1;
    }
    assert(specs@.subrange(0, specs@.len() as int) =~= specs@);
    out
}

/// `groups` is the mapping `list_for` exactly: one group per name whose
/// list is not empty, each holding that list.
pub open spec fn groups_exact<T, V>(
    groups: Seq<(String, Vec<T>)>,
    view_of: spec_fn(Seq<T>) -> Seq<V>,
    list_for: spec_fn(Seq<char>) -> Seq<V>,
) -> bool {
    &&& strs_view(groups.map_values(|g: (String, Vec<T>)| g.0)).no_duplicates()
    &&& forall|i: int|
        0 <= i < groups.len() ==> view_of((#[trigger] groups[i]).1@) == list_for(groups[i].0@)
            && list_for(groups[i].0@).len() > 0
    &&& forall|k: Seq<char>|
        #[trigger] list_for(k).len() > 0 ==> exists|i: int|
            0 <= i < groups.len() && #[trigger] groups[i].0@ == k
}

impl Exposures {
    /// The file exposures grouped by secret: one group per secret that has
    /// any, holding that secret's file specs in the order added.
    pub fn file_groups(&self) -> (r: Vec<(String, Vec<FileExposeArgs>)>)
        ensures
            groups_exact(
                r@,
                |s: Seq<FileExposeArgs>| file_views(s),
                |k: Seq<char>| self.files_for(k),
            ),
    {
        let mut names: Vec<String> = Vec::new();
        let mut i: usize = 0;
        while i < self.files.len()
            invariant
                i <= self.files@.len(),
                strs_view(names@).no_duplicates(),
                forall|j: int|
                    0 <= j < i ==> strs_view(names@).contains(
                        #[trigger] self.files@[j].secret_name@,
                    ),
                forall|m: int|
                    0 <= m < names@.len() ==> names_some(self.files@.map_values(|x: FileExposeArgs| x.secret_name@), #[trigger] names@[m]@),
            decreases self.files@.len() - i,
        {
            let name = &self.files[i].secret_name;
            if !contains_str(&names, name) {
                let ghost before = names@;
                names.push(name.clone());
                assert(strs_view(names@) =~= strs_view(before).push(name@));
                assert forall|j: int| 0 <= j < i implies strs_view(names@).contains(
                    #[trigger] self.files@[j].secret_name@,
                ) by {
                    let m = choose|m: int|
                        0 <= m < strs_view(before).len() && strs_view(before)[m]
                            == self.files@[j].secret_name@;
                    assert(strs_view(names@)[m] == self.files@[j].secret_name@);
                }
                assert(strs_view(names@)[names@.len() - 1] == name@);
                let ghost ns = self.files@.map_values(|x: FileExposeArgs| x.secret_name@);
                assert(ns[i as int] == name@);
                assert(names_some(ns, names@[names@.len() - 1]@));
                assert forall|m: int| 0 <= m < names@.len() implies names_some(
                    ns,
                    #[trigger] names@[m]@,
                ) by {
                    if m < names@.len() - 1 {
                        assert(names@[m] == before[m]);
                    }
                }
            }
            i = i + 1;
        }
        let mut out: Vec<(String, Vec<FileExposeArgs>)> = Vec::new();
        let mut g: usize = 0;
        while g < names.len()
            invariant
                g <= names@.len(),
                out@.len() == g,
                strs_view(names@).no_duplicates(),
                forall|m: int|
                    0 <= m < names@.len() ==> names_some(self.files@.map_values(|x: FileExposeArgs| x.secret_name@), #[trigger] names@[m]@),
                forall|j: int| 0 <= j < g ==> (#[trigger] out@[j]).0@ == names@[j]@,
                forall|j: int|
                    0 <= j < g ==> file_views((#[trigger] out@[j]).1@) == self.files_for(
                        out@[j].0@,
                    ),
                forall|j: int| 0 <= j < g ==> self.files_for((#[trigger] out@[j]).0@).len() > 0,
            decreases names@.len() - g,
        {
            proof {
                let ns = self.files@.map_values(|x: FileExposeArgs| x.secret_name@);
                assert(names_some(ns, names@[g as int]@));
                let j = choose|j: int| 0 <= j < ns.len() && ns[j] == names@[g as int]@;
                assert(file_views(self.files@)[j].secret_name == names@[g as int]@);
                lemma_files_named_nonempty(file_views(self.files@), names@[g as int]@, j);
            }
            let specs = files_of(&self.files, &names[g]);
            out.push((names[g].clone(), specs));
            g = g + 1;
        }
        assert(strs_view(out@.map_values(|p: (String, Vec<FileExposeArgs>)| p.0)) =~= strs_view(
            names@,
        ));
        assert forall|k: Seq<char>| #[trigger] self.files_for(k).len() > 0 implies exists|i: int|
            0 <= i < out@.len() && #[trigger] out@[i].0@ == k by {
            lemma_files_named_member(file_views(self.files@), k);
            let j = choose|j: int|
                0 <= j < file_views(self.files@).len() && #[trigger] file_views(
                    self.files@,
                )[j].secret_name == k;
            assert(self.files@[j].secret_name@ == k);
            assert(strs_view(names@).contains(self.files@[j].secret_name@));
            let m = choose|m: int| 0 <= m < strs_view(names@).len() && strs_view(names@)[m] == k;
            assert(out@[m].0@ == k);
        }
        out
    }

    /// The env exposures grouped by secret: one group per secret that has
    /// any, holding that secret's env specs in the order added.
    pub fn env_groups(&self) -> (r: Vec<(String, Vec<EnvExposeArgs>)>)
        ensures
            groups_exact(
                r@,
                |s: Seq<EnvExposeArgs>| env_views(s),
                |k: Seq<char>| self.envs_for(k),
            ),
    {
        let mut names: Vec<String> = Vec::new();
        let mut i: usize = 0;
        while i < self.envs.len()
            invariant
                i <= self.envs@.len(),
                strs_view(names@).no_duplicates(),
                forall|j: int|
                    0 <= j < i ==> strs_view(names@).contains(
                        #[trigger] self.envs@[j].secret_name@,
                    ),
                forall|m: int|
                    0 <= m < names@.len() ==> names_some(self.envs@.map_values(|x: EnvExposeArgs| x.secret_name@), #[trigger] names@[m]@),
            decreases self.envs@.len() - i,
        {
            let name = &self.envs[i].secret_name;
            if !contains_str(&names, name) {
                let ghost before = names@;
                names.push(name.clone());
                assert(strs_view(names@) =~= strs_view(before).push(name@));
                assert forall|j: int| 0 <= j < i implies strs_view(names@).contains(
                    #[trigger] self.envs@[j].secret_name@,
                ) by {
                    let m = choose|m: int|
                        0 <= m < strs_view(before).len() && strs_view(before)[m]
                            == self.envs@[j].secret_name@;
                    assert(strs_view(names@)[m] == self.envs@[j].secret_name@);
                }
                assert(strs_view(names@)[names@.len() - 1] == name@);
                let ghost ns = self.envs@.map_values(|x: EnvExposeArgs| x.secret_name@);
                assert(ns[i as int] == name@);
                assert(names_some(ns, names@[names@.len() - 1]@));
                assert forall|m: int| 0 <= m < names@.len() implies names_some(
                    ns,
                    #[trigger] names@[m]@,
                ) by {
                    if m < names@.len() - 1 {
                        assert(names@[m] == before[m]);
                    }
                }
            }
            i = i + 1;
        }
        let mut out: Vec<(String, Vec<EnvExposeArgs>)> = Vec::new();
        let mut g: usize = 0;
        while g < names.len()
            invariant
                g <= names@.len(),
                out@.len() == g,
                strs_view(names@).no_duplicates(),
                forall|m: int|
                    0 <= m < names@.len() ==> names_some(self.envs@.map_values(|x: EnvExposeArgs| x.secret_name@), #[trigger] names@[m]@),
                forall|j: int| 0 <= j < g ==> (#[trigger] out@[j]).0@ == names@[j]@,
                forall|j: int|
                    0 <= j < g ==> env_views((#[trigger] out@[j]).1@) == self.envs_for(
                        out@[j].0@,
                    ),
                forall|j: int| 0 <= j < g ==> self.envs_for((#[trigger] out@[j]).0@).len() > 0,
            decreases names@.len() - g,
        {
            proof {
                let ns = self.envs@.map_values(|x: EnvExposeArgs| x.secret_name@);
                assert(names_some(ns, names@[g as int]@));
                let j = choose|j: int| 0 <= j < ns.len() && ns[j] == names@[g as int]@;
                assert(env_views(self.envs@)[j].secret_name == names@[g as int]@);
                lemma_envs_named_nonempty(env_views(self.envs@), names@[g as int]@, j);
            }
            let specs = envs_of(&self.envs, &names[g]);
            out.push((names[g].clone(), specs));
            g = g + 1;
        }
        assert(strs_view(out@.map_values(|p: (String, Vec<EnvExposeArgs>)| p.0)) =~= strs_view(
            names@,
        ));
        assert forall|k: Seq<char>| #[trigger] self.envs_for(k).len() > 0 implies exists|i: int|
            0 <= i < out@.len() && #[trigger] out@[i].0@ == k by {
            lemma_envs_named_member(env_views(self.envs@), k);
            let j = choose|j: int|
                0 <= j < env_views(self.envs@).len() && #[trigger] env_views(
                    self.envs@,
                )[j].secret_name == k;
            assert(self.envs@[j].secret_name@ == k);
            assert(strs_view(names@).contains(self.envs@[j].secret_name@));
            let m = choose|m: int| 0 <= m < strs_view(names@).len() && strs_view(names@)[m] == k;
            assert(out@[m].0@ == k);
        }
        out
    }
}

} // verus!
