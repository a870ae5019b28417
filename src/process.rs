//! The child runner's decisions: the command to spawn and its environment,
//! and the arguments that forward a signal to it.
use vstd::prelude::*;

use crate::exposures::{file_views, EnvExposeArgs, Exposures, FileExposeArgs};
use crate::secret::{all_resolve, first_missing, map_secrets, pairs_resolve, Secret};
use crate::materialize::{cleanup_paths, DecryptionError, EnvExposureError};
use crate::state::{clone_strs, vanity_paths};
use crate::text::{decimal, strs_view, to_decimal};

verus! {

/// Why a command could not be run with its secrets.
pub enum ProcessRunningError {
    /// The command line is empty.
    EmptyCommand,
    /// An exposure names a secret that is not configured.
    NoSuchSecret(String),
    SecretDecryptionFailure(DecryptionError),
    ExposingSecretEnvs(EnvExposureError),
    CreatingTempDir(String),
    ChmoddingTempDir(String),
    CreatingSignalHandlers(String),
    FetchingSecretsErr(String),
    ExposingSecretFiles(String),
    ForkingProcess(String),
    JoiningProcess(String),
    SignallingChildProcess(String),
}

/// A child process to spawn: program, arguments, and the variables added
/// to its environment, in the order set (a later one wins).
pub struct CommandSpec {
    pub program: String,
    pub args: Vec<String>,
    pub env: Vec<(String, String)>,
}

/// The variable that tells the child where its secret files are.
pub open spec fn secrets_dir_var() -> Seq<char> {
    "SECRETS_FILE_DIR"@
}

/// The command for `argv`, with `SECRETS_FILE_DIR` set to `secrets_file_dir`;
/// refused where `argv` is empty.
pub fn prepare_command(argv: &Vec<String>, secrets_file_dir: &str) -> (r: Result<
    CommandSpec,
    ProcessRunningError,
>)
    ensures
        match r {
            Ok(c) => {
                &&& argv@.len() > 0
                &&& c.program == argv@[0]
                &&& c.args@ == argv@.skip(1)
                &&& c.env@.len() == 1
                &&& c.env@[0].0@ == secrets_dir_var()
                &&& c.env@[0].1@ == secrets_file_dir@
            },
            Err(e) => argv@.len() == 0 && e is EmptyCommand,
        },
{
    if argv.len() == 0 {
        return Err(ProcessRunningError::EmptyCommand);
    }
    let mut args: Vec<String> = Vec::new();
    let mut i: usize = 1;
    while i < argv.len()
        invariant
            1 <= i <= argv@.len(),
            args@ == argv@.subrange(1, i as int),
        decreases argv@.len() - i,
    {
        args.push(argv[i].clone());
        assert(args@ =~= argv@.subrange(1, i as int + 1));
        i = i + 1;
    }
    assert(argv@.subrange(1, argv@.len() as int) =~= argv@.skip(1));
    let mut env: Vec<(String, String)> = Vec::new();
    proof {
        reveal_strlit("SECRETS_FILE_DIR");
    }
    env.push(("SECRETS_FILE_DIR".to_owned(), secrets_file_dir.to_owned()));
    Ok(CommandSpec { program: argv[0].clone(), args, env })
}

impl CommandSpec {
    /// Adds variables to the child's environment.
    pub fn set_envs(&mut self, assignments: Vec<(String, String)>)
        ensures
            final(self).env@ == old(self).env@ + assignments@,
            final(self).program == old(self).program,
            final(self).args == old(self).args,
    {
        let mut assignments = assignments;
        self.env.append(&mut assignments);
    }
}

/// The arguments of `kill` that send `signal` to the process `pid`.
pub fn kill_args(pid: u32, signal: u32) -> (r: Vec<String>)
    ensures
        r@.len() == 2,
        r@[0]@ == decimal(signal as nat),
        r@[1]@ == decimal(pid as nat),
{
    let mut r: Vec<String> = Vec::new();
    r.push(to_decimal(signal as u64));
    r.push(to_decimal(pid as u64));
    r
}

/// Resolves every env exposure group and then every file exposure group
/// against the secrets, so that an unknown secret is reported before any
/// secret is read. The error names the first unknown env secret, or else
/// the first unknown file secret.
pub fn resolve_exposures<'a>(
    secrets: &'a Vec<Secret>,
    envs: &'a Vec<(String, Vec<EnvExposeArgs>)>,
    files: &'a Vec<(String, Vec<FileExposeArgs>)>,
) -> (r: Result<
    (Vec<(&'a Secret, &'a Vec<EnvExposeArgs>)>, Vec<(&'a Secret, &'a Vec<FileExposeArgs>)>),
    ProcessRunningError,
>)
    ensures
        match r {
            Ok((ev, fv)) => pairs_resolve(secrets@, envs@, ev@) && pairs_resolve(
                secrets@,
                files@,
                fv@,
            ),
            Err(e) => e matches ProcessRunningError::NoSuchSecret(n) && (first_missing(
                secrets@,
                envs@,
                n@,
            ) || (all_resolve(secrets@, envs@) && first_missing(secrets@, files@, n@))),
        },
{
    let ev = match map_secrets(secrets, envs) {
        Ok(v) => v,
        Err(n) => {
            return Err(ProcessRunningError::NoSuchSecret(n));
        },
    };
    let fv = match map_secrets(secrets, files) {
        Ok(v) => v,
        Err(n) => {
            return Err(ProcessRunningError::NoSuchSecret(n));
        },
    };
    Ok((ev, fv))
}

/// Where a run stands: each step awaits the outcome of one action.
pub enum RunStep {
    /// Awaits the private temporary directory.
    CreatingDir,
    /// Awaits its permissions being narrowed to the owner.
    Restricting,
    /// Awaits the signal handlers.
    Arming,
    /// Awaits the check that every exposed secret is configured, made
    /// before any secret is read.
    Resolving,
    /// Awaits the variables of the env exposures.
    ExposingEnv,
    /// Awaits the files of the file exposures.
    ExposingFiles,
    /// Awaits the child's process id.
    Spawning,
    /// Awaits the child's exit, forwarding signals meanwhile.
    Running,
    /// Awaits the removal of the temporary directory.
    RemovingDir,
    /// Awaits the removal of the vanity links.
    RemovingLinks,
    /// Finished, or failed.
    Done,
}

/// What the caller does next on behalf of a run.
pub enum RunAction {
    /// Create a private temporary directory.
    CreateTempDir,
    /// Make this directory accessible to its owner only.
    RestrictDir(String),
    /// Install the signal handlers.
    ArmSignals,
    /// Check that every exposure names a configured secret; report
    /// `NoSuchSecret` otherwise, reading nothing from the store.
    ResolveSecrets,
    /// Compute the variables of the env exposures.
    ExposeEnv,
    /// Write the files of the file exposures into this directory.
    ExposeFiles(String),
    /// Spawn the session's command.
    Spawn,
    /// Run `kill` with these arguments.
    ForwardSignal(Vec<String>),
    /// Keep waiting for the child or a signal.
    Wait,
    /// Remove this directory and all it holds.
    RemoveDir(String),
    /// Remove these vanity links; a failure is reported, not fatal.
    RemoveLinks(Vec<String>),
    /// The run is over.
    Finish,
    /// The run failed with this error; everything it wrote is removed.
    Abort(ProcessRunningError),
}

/// The outcome of the last action.
pub enum RunEvent {
    DirCreated(String),
    Completed,
    EnvReady(Vec<(String, String)>),
    Spawned(u32),
    Signal(u32),
    Exited,
    Failed(ProcessRunningError),
}

/// One run of a command with its secrets.
pub struct RunSession {
    pub argv: Vec<String>,
    /// The vanity links the run's exposures create.
    pub links: Vec<String>,
    /// The temporary directory, once created.
    pub dir: String,
    /// The command to spawn, once the directory is known.
    pub command: Option<CommandSpec>,
    pub pid: u32,
    pub step: RunStep,
    /// The error that ends the run once its files are removed.
    pub error: Option<ProcessRunningError>,
}

/// Whether a step comes after the temporary directory is made and before
/// the child is spawned.
pub open spec fn preparing(step: RunStep) -> bool {
    step is Restricting || step is Arming || step is Resolving || step is ExposingEnv
        || step is ExposingFiles || step is Spawning
}

impl RunSession {
    pub open spec fn wf(&self) -> bool {
        &&& self.argv@.len() > 0
        &&& (preparing(self.step) || self.step is Running) ==> self.command is Some
    }

    /// Starts a run of `argv` with `exposures`; refused where `argv` is
    /// empty. The first action makes the temporary directory.
    pub fn start(argv: Vec<String>, exposures: &Exposures) -> (r: Result<
        (RunSession, RunAction),
        ProcessRunningError,
    >)
        ensures
            match r {
                Ok((s, a)) => {
                    &&& s.wf()
                    &&& s.argv == argv
                    &&& strs_view(s.links@) == vanity_paths(file_views(exposures.files@))
                    &&& s.step is CreatingDir
                    &&& a is CreateTempDir
                },
                Err(e) => argv@.len() == 0 && e is EmptyCommand,
            },
    {
        if argv.len() == 0 {
            return Err(ProcessRunningError::EmptyCommand);
        }
        let links = cleanup_paths(exposures);
        let session = RunSession {
            argv,
            links,
            dir: String::new(),
            command: None,
            pid: 0,
            step: RunStep::CreatingDir,
            error: None,
        };
        Ok((session, RunAction::CreateTempDir))
    }

    /// The next action once the last one ended with `event`. Setup runs in
    /// a fixed order: directory, permissions, signal handlers, variables,
    /// files, spawn. While the child runs, each signal is forwarded to it.
    /// Once it exits, or once setup fails after the directory exists, the
    /// directory and then the vanity links are removed before the run ends.
    pub fn advance(&mut self, event: RunEvent) -> (r: RunAction)
        requires
            old(self).wf(),
        ensures
            final(self).wf(),
            final(self).argv == old(self).argv,
            final(self).links == old(self).links,
            final(self).step is Done ==> (old(self).step is Done || old(self).step is CreatingDir
                || old(self).step is RemovingLinks),
            final(self).step is RemovingLinks && !(old(self).step is RemovingLinks) ==> (
            r matches RunAction::RemoveLinks(v) && v@ == old(self).links@),
            final(self).step is RemovingLinks ==> (old(self).step is RemovingDir || old(
                self,
            ).step is RemovingLinks),
            final(self).step is RemovingDir && !(old(self).step is RemovingDir) ==> r
                == RunAction::RemoveDir(old(self).dir),
            !(old(self).step is CreatingDir && event is DirCreated) ==> final(self).dir
                == old(self).dir,
            !(old(self).step is CreatingDir && event is DirCreated) && !(old(self).step is ExposingEnv
                && event is EnvReady) ==> final(self).command == old(self).command,
            !(old(self).step is Spawning && event is Spawned) ==> final(self).pid == old(self).pid,
            !(final(self).step is Done) && !(preparing(old(self).step) && event is Failed)
                ==> final(self).error == old(self).error,
            match (old(self).step, event) {
                (RunStep::Done, _) => final(self).step is Done && r is Finish,
                (RunStep::CreatingDir, RunEvent::DirCreated(d)) => {
                    &&& final(self).step is Restricting
                    &&& final(self).dir == d
                    &&& final(self).command matches Some(c) && c.program == old(self).argv@[0]
                        && c.args@ == old(self).argv@.skip(1) && c.env@.len() == 1
                        && c.env@[0].0@ == secrets_dir_var() && c.env@[0].1@ == d@
                    &&& r matches RunAction::RestrictDir(x) && x == d
                },
                (RunStep::CreatingDir, RunEvent::Failed(e)) => final(self).step is Done && r
                    == RunAction::Abort(e),
                (RunStep::Restricting, RunEvent::Completed) => final(self).step is Arming
                    && r is ArmSignals,
                (RunStep::Arming, RunEvent::Completed) => final(self).step is Resolving
                    && r is ResolveSecrets,
                (RunStep::Resolving, RunEvent::Completed) => final(self).step is ExposingEnv
                    && r is ExposeEnv,
                (RunStep::ExposingEnv, RunEvent::EnvReady(v)) => {
                    &&& final(self).step is ExposingFiles
                    &&& final(self).command matches Some(c) && old(self).command matches Some(o)
                        && c.program == o.program && c.args == o.args && c.env@ == o.env@ + v@
                    &&& r == RunAction::ExposeFiles(old(self).dir)
                },
                (RunStep::ExposingFiles, RunEvent::Completed) => final(self).step is Spawning
                    && r is Spawn,
                (RunStep::Spawning, RunEvent::Spawned(pid)) => final(self).step is Running
                    && final(self).pid == pid && r is Wait,
                (RunStep::Running, RunEvent::Signal(sig)) => {
                    &&& final(self).step is Running
                    &&& r matches RunAction::ForwardSignal(a) && a@.len() == 2 && a@[0]@
                        == decimal(sig as nat) && a@[1]@ == decimal(old(self).pid as nat)
                },
                (RunStep::Running, RunEvent::Exited) => final(self).step is RemovingDir && r
                    == RunAction::RemoveDir(old(self).dir),
                (RunStep::Running, RunEvent::Completed) => final(self).step is Running && r is Wait,
                (RunStep::Running, RunEvent::Failed(_)) => final(self).step is Running && r is Wait,
                (RunStep::RemovingDir, RunEvent::Completed) => final(self).step is RemovingLinks,
                (RunStep::RemovingDir, RunEvent::Failed(_)) => final(self).step is RemovingLinks,
                (RunStep::RemovingLinks, RunEvent::Completed) => final(self).step is Done && r
                    == match old(self).error {
                    Some(e) => RunAction::Abort(e),
                    None => RunAction::Finish,
                },
                (RunStep::RemovingLinks, RunEvent::Failed(_)) => final(self).step is Done && r
                    == match old(self).error {
                    Some(e) => RunAction::Abort(e),
                    None => RunAction::Finish,
                },
                (step, RunEvent::Failed(e)) => preparing(step) ==> (final(self).step is RemovingDir
                    && final(self).error == Some(e) && r == RunAction::RemoveDir(old(self).dir)),
                _ => *final(self) == *old(self),
            },
    {
        match self.step {
            RunStep::Done => {
                return RunAction::Finish;
            },
            _ => {},
        }
        match event {
            RunEvent::DirCreated(d) => match self.step {
                RunStep::CreatingDir => {
                    let command = prepare_command(&self.argv, d.as_str());
                    match command {
                        Ok(c) => {
                            self.command = Some(c);
                        },
                        Err(_) => {},
                    }
                    self.step = RunStep::Restricting;
                    self.dir = d;
                    RunAction::RestrictDir(self.dir.clone())
                },
                _ => self.awaited_action(),
            },
            RunEvent::Completed => match self.step {
                RunStep::Restricting => {
                    self.step = RunStep::Arming;
                    RunAction::ArmSignals
                },
                RunStep::Arming => {
                    self.step = RunStep::Resolving;
                    RunAction::ResolveSecrets
                },
                RunStep::Resolving => {
                    self.step = RunStep::ExposingEnv;
                    RunAction::ExposeEnv
                },
                RunStep::ExposingFiles => {
                    self.step = RunStep::Spawning;
                    RunAction::Spawn
                },
                RunStep::Running => RunAction::Wait,
                RunStep::RemovingDir => {
                    self.step = RunStep::RemovingLinks;
                    RunAction::RemoveLinks(clone_strs(&self.links))
                },
                RunStep::RemovingLinks => self.finish(),
                _ => self.awaited_action(),
            },
            RunEvent::EnvReady(v) => match self.step {
                RunStep::ExposingEnv => {
                    let mut command = self.command.take();
                    match command {
                        Some(ref mut c) => c.set_envs(v),
                        None => {},
                    }
                    self.command = command;
                    self.step = RunStep::ExposingFiles;
                    RunAction::ExposeFiles(self.dir.clone())
                },
                _ => self.awaited_action(),
            },
            RunEvent::Spawned(pid) => match self.step {
                RunStep::Spawning => {
                    self.pid = pid;
                    self.step = RunStep::Running;
                    RunAction::Wait
                },
                _ => self.awaited_action(),
            },
            RunEvent::Signal(sig) => match self.step {
                RunStep::Running => RunAction::ForwardSignal(kill_args(self.pid, sig)),
                _ => self.awaited_action(),
            },
            RunEvent::Exited => match self.step {
                RunStep::Running => {
                    self.step = RunStep::RemovingDir;
                    RunAction::RemoveDir(self.dir.clone())
                },
                _ => self.awaited_action(),
            },
            RunEvent::Failed(e) => match self.step {
                RunStep::CreatingDir => {
                    self.step = RunStep::Done;
                    RunAction::Abort(e)
                },
                RunStep::Running => RunAction::Wait,
                RunStep::RemovingDir => {
                    self.step = RunStep::RemovingLinks;
                    RunAction::RemoveLinks(clone_strs(&self.links))
                },
                RunStep::RemovingLinks => self.finish(),
                _ => {
                    self.error = Some(e);
                    self.step = RunStep::RemovingDir;
                    RunAction::RemoveDir(self.dir.clone())
                },
            },
        }
    }

    /// Ends the run with its error, if it has one.
    fn finish(&mut self) -> (r: RunAction)
        requires
            old(self).wf(),
        ensures
            final(self).wf(),
            final(self).step is Done,
            final(self).argv == old(self).argv,
            final(self).links == old(self).links,
            final(self).dir == old(self).dir,
            final(self).command == old(self).command,
            final(self).pid == old(self).pid,
            r == match old(self).error {
                Some(e) => RunAction::Abort(e),
                None => RunAction::Finish,
            },
    {
        self.step = RunStep::Done;
        match self.error.take() {
            Some(e) => RunAction::Abort(e),
            None => RunAction::Finish,
        }
    }

    /// The action whose outcome the session awaits; nothing changes.
    fn awaited_action(&self) -> (r: RunAction) {
        match self.step {
            RunStep::CreatingDir => RunAction::CreateTempDir,
            RunStep::Restricting => RunAction::RestrictDir(self.dir.clone()),
            RunStep::Arming => RunAction::ArmSignals,
            RunStep::Resolving => RunAction::ResolveSecrets,
            RunStep::ExposingEnv => RunAction::ExposeEnv,
            RunStep::ExposingFiles => RunAction::ExposeFiles(self.dir.clone()),
            RunStep::Spawning => RunAction::Spawn,
            RunStep::Running => RunAction::Wait,
            RunStep::RemovingDir => RunAction::RemoveDir(self.dir.clone()),
            RunStep::RemovingLinks => RunAction::RemoveLinks(clone_strs(&self.links)),
            RunStep::Done => RunAction::Finish,
        }
    }
}

} // verus!
