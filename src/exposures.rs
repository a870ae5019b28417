//! Exposure specifications: how a secret is handed to a process, either as a
//! file (optionally reachable through a vanity symlink) or as an environment
//! variable, and the collection of all exposures of one invocation.
use vstd::prelude::*;

use crate::text::str_eq;

verus! {

/// An optional string, seen as an optional character sequence.
pub open spec fn opt_str_view(o: Option<String>) -> Option<Seq<char>> {
    match o {
        Some(s) => Some(s@),
        None => None,
    }
}

/// Copies an optional string.
pub fn copy_opt_str(o: &Option<String>) -> (r: Option<String>)
    ensures
        opt_str_view(r) == opt_str_view(*o),
{
    match o {
        Some(s) => Some(s.clone()),
        None => None,
    }
}

/// A file exposure as plain values.
pub struct FileSpecView {
    pub secret_name: Seq<char>,
    pub vanity_path: Option<Seq<char>>,
    pub mode: Option<u32>,
    pub owner: Option<u32>,
    pub group: Option<u32>,
}

/// An environment exposure as plain values.
pub struct EnvSpecView {
    pub secret_name: Seq<char>,
    pub name: Seq<char>,
}

/// Exposes a secret as a file in the target directory. `owner` and `group`
/// are numeric ids; `None` leaves the file's owner or group unchanged.
pub struct FileExposeArgs {
    pub secret_name: String,
    pub vanity_path: Option<String>,
    pub mode: Option<u32>,
    pub owner: Option<u32>,
    pub group: Option<u32>,
}

impl View for FileExposeArgs {
    type V = FileSpecView;

    open spec fn view(&self) -> FileSpecView {
        FileSpecView {
            secret_name: self.secret_name@,
            vanity_path: opt_str_view(self.vanity_path),
            mode: self.mode,
            owner: self.owner,
            group: self.group,
        }
    }
}

impl FileExposeArgs {
    /// A copy with the same contents.
    pub fn copy(&self) -> (r: Self)
        ensures
            r@ == self@,
    {
        FileExposeArgs {
            secret_name: self.secret_name.clone(),
            vanity_path: copy_opt_str(&self.vanity_path),
            mode: self.mode,
            owner: self.owner,
            group: self.group,
        }
    }
}

/// Exposes a secret as the environment variable `name`.
pub struct EnvExposeArgs {
    pub secret_name: String,
    pub name: String,
}

impl View for EnvExposeArgs {
    type V = EnvSpecView;

    open spec fn view(&self) -> EnvSpecView {
        EnvSpecView { secret_name: self.secret_name@, name: self.name@ }
    }
}

impl EnvExposeArgs {
    /// A copy with the same contents.
    pub fn copy(&self) -> (r: Self)
        ensures
            r@ == self@,
    {
        EnvExposeArgs { secret_name: self.secret_name.clone(), name: self.name.clone() }
    }
}

pub enum SpecView {
    File(FileSpecView),
    Env(EnvSpecView),
}

/// One exposure of a secret.
pub enum ExposureSpec {
    File(Box<FileExposeArgs>),
    Env(EnvExposeArgs),
}

impl View for ExposureSpec {
    type V = SpecView;

    open spec fn view(&self) -> SpecView {
        match self {
            ExposureSpec::File(f) => SpecView::File(f@),
            ExposureSpec::Env(e) => SpecView::Env(e@),
        }
    }
}

/// The fields of `s` separated by `:`, as `str::split(':')` yields them: the
/// empty text has one empty field, and a separator at either end gives an
/// empty field there.
pub open spec fn colon_fields(s: Seq<char>) -> Seq<Seq<char>>
    decreases s.len(),
{
    if s.len() == 0 {
        seq![Seq::<char>::empty()]
    } else if s.last() == ':' {
        colon_fields(s.drop_last()).push(Seq::<char>::empty())
    } else {
        let f = colon_fields(s.drop_last());
        f.update(f.len() - 1, f.last().push(s.last()))
    }
}

pub proof fn lemma_colon_fields_nonempty(s: Seq<char>)
    ensures
        colon_fields(s).len() >= 1,
    decreases s.len(),
{
    if s.len() > 0 {
        lemma_colon_fields_nonempty(s.drop_last());
    }
}

/// The spec that a command-line flag `kind:secret:target` describes, if any.
pub open spec fn cli_spec(s: Seq<char>) -> Option<SpecView> {
    let f = colon_fields(s);
    if f.len() == 3 && f[0] == "file"@ {
        Some(
            SpecView::File(
                FileSpecView {
                    secret_name: f[1],
                    vanity_path: Some(f[2]),
                    mode: None,
                    owner: None,
                    group: None,
                },
            ),
        )
    } else if f.len() == 3 && f[0] == "env"@ {
        Some(SpecView::Env(EnvSpecView { secret_name: f[1], name: f[2] }))
    } else {
        None
    }
}

/// Splits `s` at every `:`.
fn split_colons(s: &str) -> (r: Vec<String>)
    ensures
        r@.map_values(|p: String| p@) == colon_fields(s@),
{
    let n = s.unicode_len();
    let mut parts: Vec<String> = Vec::new();
    let mut start: usize = 0;
    let mut i: usize = 0;
    assert(s@.subrange(0, 0) =~= Seq::<char>::empty());
    assert(parts@.map_values(|p: String| p@).push(s@.subrange(0, 0)) =~= seq![
        Seq::<char>::empty(),
    ]);
    while i < n
        invariant
            n == s@.len(),
            start <= i <= n,
            parts@.map_values(|p: String| p@).push(s@.subrange(start as int, i as int))
                == colon_fields(s@.subrange(0, i as int)),
        decreases n - i,
    {
        let c = s.get_char(i);
        let ghost pre = s@.subrange(0, i as int);
        let ghost next = s@.subrange(0, i as int + 1);
        assert(next.drop_last() == pre);
        assert(next.last() == c);
        if c == ':' {
            let piece = s.substring_char(start, i).to_owned();
            parts.push(piece);
            assert(parts@.map_values(|p: String| p@) == colon_fields(pre));
            start = i + 1;
            i = i + 1;
            assert(s@.subrange(start as int, i as int) =~= Seq::<char>::empty());
        } else {
            assert(s@.subrange(start as int, i as int + 1) == s@.subrange(
                start as int,
                i as int,
            ).push(c));
            i = i + 1;
        }
    }
    let last = s.substring_char(start, n).to_owned();
    parts.push(last);
    assert(s@.subrange(0, n as int) == s@);
    parts
}

impl ExposureSpec {
    /// A file exposure of `secret_name` at the vanity path `path`, with the
    /// default mode and ownership.
    pub fn file_from_str(secret_name: String, path: &str) -> (r: Self)
        ensures
            r@ == SpecView::File(
                FileSpecView {
                    secret_name: secret_name@,
                    vanity_path: Some(path@),
                    mode: None,
                    owner: None,
                    group: None,
                },
            ),
    {
        ExposureSpec::File(
            Box::new(
                FileExposeArgs {
                    secret_name,
                    vanity_path: Some(path.to_owned()),
                    mode: None,
                    owner: None,
                    group: None,
                },
            ),
        )
    }

    /// An environment exposure of `secret_name` as the variable `name`.
    pub fn env_from_str(secret_name: String, name: &str) -> (r: Self)
        ensures
            r@ == SpecView::Env(EnvSpecView { secret_name: secret_name@, name: name@ }),
    {
        ExposureSpec::Env(EnvExposeArgs { secret_name, name: name.to_owned() })
    }

    /// Reads a command-line exposure flag: `file:<secret>:<vanity path>` or
    /// `env:<secret>:<variable>`. Anything else is refused with a message
    /// that quotes the flag.
    pub fn parse_flag(s: &str) -> (r: Result<Self, String>)
        ensures
            match r {
                Ok(spec) => cli_spec(s@) == Some(spec@),
                Err(msg) => cli_spec(s@) is None && msg@ == "invalid cli exposure spec: "@
                    + s@,
            },
    {
        let parts = split_colons(s);
        proof {
            lemma_colon_fields_nonempty(s@);
        }
        if parts.len() == 3 {
            assert(parts@[0]@ == colon_fields(s@)[0]);
            assert(parts@[1]@ == colon_fields(s@)[1]);
            assert(parts@[2]@ == colon_fields(s@)[2]);
            if str_eq(&parts[0], "file") {
                return Ok(ExposureSpec::file_from_str(parts[1].clone(), parts[2].as_str()));
            }
            if str_eq(&parts[0], "env") {
                return Ok(ExposureSpec::env_from_str(parts[1].clone(), parts[2].as_str()));
            }
        }
        Err("invalid cli exposure spec: ".to_owned().concat(s))
    }
}

impl std::str::FromStr for ExposureSpec {
    type Err = String;

    fn from_str(s: &str) -> Result<Self, String> {
        ExposureSpec::parse_flag(s)
    }
}

/// The file specs of `s` that name the secret `k`, in order.
pub open spec fn files_named(s: Seq<FileSpecView>, k: Seq<char>) -> Seq<FileSpecView>
    decreases s.len(),
{
    if s.len() == 0 {
        Seq::empty()
    } else {
        let r = files_named(s.drop_last(), k);
        if s.last().secret_name == k {
            r.push(s.last())
        } else {
            r
        }
    }
}

/// The env specs of `s` that name the secret `k`, in order.
pub open spec fn envs_named(s: Seq<EnvSpecView>, k: Seq<char>) -> Seq<EnvSpecView>
    decreases s.len(),
{
    if s.len() == 0 {
        Seq::empty()
    } else {
        let r = envs_named(s.drop_last(), k);
        if s.last().secret_name == k {
            r.push(s.last())
        } else {
            r
        }
    }
}

pub proof fn lemma_files_named_concat(a: Seq<FileSpecView>, b: Seq<FileSpecView>, k: Seq<char>)
    ensures
        files_named(a + b, k) == files_named(a, k) + files_named(b, k),
    decreases b.len(),
{
    if b.len() == 0 {
        assert(a + b =~= a);
        assert(files_named(a, k) + files_named(b, k) =~= files_named(a, k));
    } else {
        assert((a + b).drop_last() =~= a + b.drop_last());
        lemma_files_named_concat(a, b.drop_last(), k);
        if b.last().secret_name == k {
            assert(files_named(a, k) + files_named(b.drop_last(), k).push(b.last()) =~= (
            files_named(a, k) + files_named(b.drop_last(), k)).push(b.last()));
        }
    }
}

pub proof fn lemma_envs_named_concat(a: Seq<EnvSpecView>, b: Seq<EnvSpecView>, k: Seq<char>)
    ensures
        envs_named(a + b, k) == envs_named(a, k) + envs_named(b, k),
    decreases b.len(),
{
    if b.len() == 0 {
        assert(a + b =~= a);
        assert(envs_named(a, k) + envs_named(b, k) =~= envs_named(a, k));
    } else {
        assert((a + b).drop_last() =~= a + b.drop_last());
        lemma_envs_named_concat(a, b.drop_last(), k);
        if b.last().secret_name == k {
            assert(envs_named(a, k) + envs_named(b.drop_last(), k).push(b.last()) =~= (
            envs_named(a, k) + envs_named(b.drop_last(), k)).push(b.last()));
        }
    }
}

/// The file parts of a sequence of specs, in order.
pub open spec fn file_parts(s: Seq<SpecView>) -> Seq<FileSpecView>
    decreases s.len(),
{
    if s.len() == 0 {
        Seq::empty()
    } else {
        let r = file_parts(s.drop_last());
        match s.last() {
            SpecView::File(f) => r.push(f),
            SpecView::Env(_) => r,
        }
    }
}

/// The env parts of a sequence of specs, in order.
pub open spec fn env_parts(s: Seq<SpecView>) -> Seq<EnvSpecView>
    decreases s.len(),
{
    if s.len() == 0 {
        Seq::empty()
    } else {
        let r = env_parts(s.drop_last());
        match s.last() {
            SpecView::Env(e) => r.push(e),
            SpecView::File(_) => r,
        }
    }
}

pub open spec fn file_views(v: Seq<FileExposeArgs>) -> Seq<FileSpecView> {
    v.map_values(|f: FileExposeArgs| f@)
}

pub open spec fn env_views(v: Seq<EnvExposeArgs>) -> Seq<EnvSpecView> {
    v.map_values(|e: EnvExposeArgs| e@)
}

pub open spec fn spec_views(v: Seq<ExposureSpec>) -> Seq<SpecView> {
    v.map_values(|e: ExposureSpec| e@)
}

/// Splits specs into their file and their env exposures, keeping the order
/// of each.
pub fn partition_specs(items: Vec<ExposureSpec>) -> (r: (Vec<FileExposeArgs>, Vec<EnvExposeArgs>))
    ensures
        file_views(r.0@) == file_parts(spec_views(items@)),
        env_views(r.1@) == env_parts(spec_views(items@)),
{
    let mut fs: Vec<FileExposeArgs> = Vec::new();
    let mut es: Vec<EnvExposeArgs> = Vec::new();
    let mut i: usize = 0;
    while i < items.len()
        invariant
            i <= items@.len(),
            file_views(fs@) == file_parts(spec_views(items@.subrange(0, i as int))),
            env_views(es@) == env_parts(spec_views(items@.subrange(0, i as int))),
        decreases items@.len() - i,
    {
        let ghost pre = spec_views(items@.subrange(0, i as int));
        let ghost next = spec_views(items@.subrange(0, i as int + 1));
        assert(next.drop_last() =~= pre);
        assert(next.last() == items@[i as int]@);
        match &items[i] {
            ExposureSpec::File(f) => {
                let c = f.copy();
                let ghost before = fs@;
                fs.push(c);
                assert(file_views(fs@) =~= file_views(before).push(c@));
            },
            ExposureSpec::Env(e) => {
                let c = e.copy();
                let ghost before = es@;
                es.push(c);
                assert(env_views(es@) =~= env_views(before).push(c@));
            },
        }
        i = i + 1;
    }
    assert(items@.subrange(0, items@.len() as int) =~= items@);
    (fs, es)
}

/// All exposures of one invocation, in the order in which they were added.
/// Per secret they form the mappings `files_for` and `envs_for`.
pub struct Exposures {
    pub files: Vec<FileExposeArgs>,
    pub envs: Vec<EnvExposeArgs>,
}

impl Exposures {
    /// The file exposures of the secret named `k`, in the order added.
    pub open spec fn files_for(&self, k: Seq<char>) -> Seq<FileSpecView> {
        files_named(file_views(self.files@), k)
    }

    /// The env exposures of the secret named `k`, in the order added.
    pub open spec fn envs_for(&self, k: Seq<char>) -> Seq<EnvSpecView> {
        envs_named(env_views(self.envs@), k)
    }

    /// No exposures at all.
    pub fn new() -> (r: Self)
        ensures
            r.files@.len() == 0,
            r.envs@.len() == 0,
    {
        Exposures { files: Vec::new(), envs: Vec::new() }
    }

    /// Adds file exposures; each joins the list of the secret it names.
    pub fn add_files(&mut self, specs: Vec<FileExposeArgs>)
        ensures
            file_views(final(self).files@) == file_views(old(self).files@) + file_views(specs@),
            final(self).envs == old(self).envs,
            forall|k: Seq<char>| #[trigger]
                final(self).files_for(k) == old(self).files_for(k) + files_named(
                    file_views(specs@),
                    k,
                ),
    {
        let ghost added = specs@;
        let ghost before = self.files@;
        let mut specs = specs;
        self.files.append(&mut specs);
        assert(file_views(self.files@) =~= file_views(before) + file_views(added));
        assert forall|k: Seq<char>| #[trigger]
            self.files_for(k) == files_named(file_views(before), k) + files_named(
                file_views(added),
                k,
            ) by {
            lemma_files_named_concat(file_views(before), file_views(added), k);
        }
    }

    /// Adds env exposures; each joins the list of the secret it names.
    pub fn add_envs(&mut self, specs: Vec<EnvExposeArgs>)
        ensures
            env_views(final(self).envs@) == env_views(old(self).envs@) + env_views(specs@),
            final(self).files == old(self).files,
            forall|k: Seq<char>| #[trigger]
                final(self).envs_for(k) == old(self).envs_for(k) + envs_named(
                    env_views(specs@),
                    k,
                ),
    {
        let ghost added = specs@;
        let ghost before = self.envs@;
        let mut specs = specs;
        self.envs.append(&mut specs);
        assert(env_views(self.envs@) =~= env_views(before) + env_views(added));
        assert forall|k: Seq<char>| #[trigger]
            self.envs_for(k) == envs_named(env_views(before), k) + envs_named(
                env_views(added),
                k,
            ) by {
            lemma_envs_named_concat(env_views(before), env_views(added), k);
        }
    }

    /// Adds a mixed list of exposures, as read from a mount-config file or
    /// from command-line flags.
    pub fn add_config(&mut self, specs: Vec<ExposureSpec>)
        ensures
            file_views(final(self).files@) == file_views(old(self).files@) + file_parts(
                spec_views(specs@),
            ),
            env_views(final(self).envs@) == env_views(old(self).envs@) + env_parts(
                spec_views(specs@),
            ),
    {
        let (fs, es) = partition_specs(specs);
        self.add_files(fs);
        self.add_envs(es);
    }
}

/// Adding two batches of file exposures in either order leaves every secret
/// with the same file specs, counted as a multiset.
pub proof fn lemma_file_batches_commute(
    before: Seq<FileSpecView>,
    a: Seq<FileSpecView>,
    b: Seq<FileSpecView>,
    k: Seq<char>,
)
    ensures
        files_named(before + a + b, k).to_multiset() =~= files_named(before + b + a, k).to_multiset(),
{
    broadcast use vstd::seq_lib::lemma_multiset_commutative;

    lemma_files_named_concat(before + a, b, k);
    lemma_files_named_concat(before, a, k);
    lemma_files_named_concat(before + b, a, k);
    lemma_files_named_concat(before, b, k);
}

/// Adding two batches of env exposures in either order leaves every secret
/// with the same env specs, counted as a multiset.
pub proof fn lemma_env_batches_commute(
    before: Seq<EnvSpecView>,
    a: Seq<EnvSpecView>,
    b: Seq<EnvSpecView>,
    k: Seq<char>,
)
    ensures
        envs_named(before + a + b, k).to_multiset() =~= envs_named(before + b + a, k).to_multiset(),
{
    broadcast use vstd::seq_lib::lemma_multiset_commutative;

    lemma_envs_named_concat(before + a, b, k);
    lemma_envs_named_concat(before, a, k);
    lemma_envs_named_concat(before + b, a, k);
    lemma_envs_named_concat(before, b, k);
}

/// Reordering batches does not change what their concatenation holds,
/// counted as a multiset.
pub proof fn lemma_flatten_reordered<A>(bs1: Seq<Seq<A>>, bs2: Seq<Seq<A>>)
    requires
        bs1.to_multiset() =~= bs2.to_multiset(),
    ensures
        bs1.flatten().to_multiset() =~= bs2.flatten().to_multiset(),
    decreases bs1.len(),
{
    broadcast use vstd::seq_lib::lemma_multiset_commutative;
    broadcast use vstd::multiset::group_multiset_axioms;

    bs1.to_multiset_ensures();
    bs2.to_multiset_ensures();
    if bs1.len() == 0 {
        assert(bs2.len() == 0);
        assert(bs1 =~= bs2);
    } else {
        let x = bs1.last();
        let init = bs1.drop_last();
        init.to_multiset_ensures();
        assert(init.push(x) =~= bs1);
        assert(bs1.to_multiset().count(x) > 0);
        assert(bs2.contains(x));
        let j = choose|j: int| 0 <= j < bs2.len() && bs2[j] == x;
        let rest = bs2.remove(j);
        assert(rest.to_multiset() =~= init.to_multiset());
        lemma_flatten_reordered(init, rest);
        init.lemma_flatten_push(x);
        let a = bs2.take(j);
        let b = bs2.skip(j + 1);
        assert(bs2 =~= a.push(x) + b);
        assert(rest =~= a + b);
        vstd::seq_lib::lemma_flatten_concat(a.push(x), b);
        a.lemma_flatten_push(x);
        vstd::seq_lib::lemma_flatten_concat(a, b);
        assert(bs2.flatten() =~= a.flatten() + x + b.flatten());
        assert(rest.flatten() =~= a.flatten() + b.flatten());
    }
}

/// How often `x` occurs among the file specs that name `k`.
pub proof fn lemma_files_named_count(s: Seq<FileSpecView>, k: Seq<char>, x: FileSpecView)
    ensures
        files_named(s, k).to_multiset().count(x) == if x.secret_name == k {
            s.to_multiset().count(x)
        } else {
            0
        },
    decreases s.len(),
{
    broadcast use vstd::multiset::group_multiset_axioms;

    if s.len() == 0 {
        s.to_multiset_ensures();
        files_named(s, k).to_multiset_ensures();
    } else {
        let init = s.drop_last();
        lemma_files_named_count(init, k, x);
        init.to_multiset_ensures();
        files_named(init, k).to_multiset_ensures();
        assert(init.push(s.last()) =~= s);
    }
}

/// How often `x` occurs among the env specs that name `k`.
pub proof fn lemma_envs_named_count(s: Seq<EnvSpecView>, k: Seq<char>, x: EnvSpecView)
    ensures
        envs_named(s, k).to_multiset().count(x) == if x.secret_name == k {
            s.to_multiset().count(x)
        } else {
            0
        },
    decreases s.len(),
{
    broadcast use vstd::multiset::group_multiset_axioms;

    if s.len() == 0 {
        s.to_multiset_ensures();
        envs_named(s, k).to_multiset_ensures();
    } else {
        let init = s.drop_last();
        lemma_envs_named_count(init, k, x);
        init.to_multiset_ensures();
        envs_named(init, k).to_multiset_ensures();
        assert(init.push(s.last()) =~= s);
    }
}

/// Adding any number of batches of file exposures, in any order, leaves
/// every secret with the same file specs, counted as a multiset: after the
/// batches `bs` are added one by one, the exposures hold `before` followed
/// by their concatenation, and a reordering `bs2` of them gives the same.
pub proof fn lemma_file_batches_any_order(
    before: Seq<FileSpecView>,
    bs1: Seq<Seq<FileSpecView>>,
    bs2: Seq<Seq<FileSpecView>>,
    k: Seq<char>,
)
    requires
        bs1.to_multiset() =~= bs2.to_multiset(),
    ensures
        files_named(before + bs1.flatten(), k).to_multiset() =~= files_named(
            before + bs2.flatten(),
            k,
        ).to_multiset(),
{
    broadcast use vstd::seq_lib::lemma_multiset_commutative;
    broadcast use vstd::multiset::group_multiset_axioms;

    lemma_flatten_reordered(bs1, bs2);
    assert((before + bs1.flatten()).to_multiset() =~= (before + bs2.flatten()).to_multiset());
    assert forall|x: FileSpecView|
        files_named(before + bs1.flatten(), k).to_multiset().count(x) == files_named(
            before + bs2.flatten(),
            k,
        ).to_multiset().count(x) by {
        lemma_files_named_count(before + bs1.flatten(), k, x);
        lemma_files_named_count(before + bs2.flatten(), k, x);
    }
}

/// Adding any number of batches of env exposures, in any order, leaves
/// every secret with the same env specs, counted as a multiset.
pub proof fn lemma_env_batches_any_order(
    before: Seq<EnvSpecView>,
    bs1: Seq<Seq<EnvSpecView>>,
    bs2: Seq<Seq<EnvSpecView>>,
    k: Seq<char>,
)
    requires
        bs1.to_multiset() =~= bs2.to_multiset(),
    ensures
        envs_named(before + bs1.flatten(), k).to_multiset() =~= envs_named(
            before + bs2.flatten(),
            k,
        ).to_multiset(),
{
    broadcast use vstd::seq_lib::lemma_multiset_commutative;
    broadcast use vstd::multiset::group_multiset_axioms;

    lemma_flatten_reordered(bs1, bs2);
    assert((before + bs1.flatten()).to_multiset() =~= (before + bs2.flatten()).to_multiset());
    assert forall|x: EnvSpecView|
        envs_named(before + bs1.flatten(), k).to_multiset().count(x) == envs_named(
            before + bs2.flatten(),
            k,
        ).to_multiset().count(x) by {
        lemma_envs_named_count(before + bs1.flatten(), k, x);
        lemma_envs_named_count(before + bs2.flatten(), k, x);
    }
}

} // verus!
