//! The boundary between the engine and the machine it provisions.
//!
//! Leaf actions never touch the operating system directly: every external
//! mutation goes through a [`Host`], which runs programs and creates or
//! removes files and directories. The trait's contract records each requested
//! mutation in a ghost log, so that the contracts of `execute` and `revert`
//! can pin down exactly which mutations an action requests and in which
//! order. What a mutation *returns* is up to the host: a real host consults
//! the operating system, while [`SpyHost`] replays a script of outcomes and
//! keeps the log as an inspectable value.

use vstd::prelude::*;

verus! {

/// An external program invocation: a program path and its ordered arguments.
#[derive(Debug)]
pub struct Command {
    pub program: String,
    pub args: Vec<String>,
}

/// The mathematical value of a [`Command`].
pub struct CommandView {
    pub program: Seq<char>,
    pub args: Seq<Seq<char>>,
}

impl View for Command {
    type V = CommandView;

    open spec fn view(&self) -> CommandView {
        CommandView { program: self.program@, args: self.args.deep_view() }
    }
}

/// One failure of the host: the program exited with a non-zero status, or an
/// operation (spawning, touching the filesystem) failed with an I/O error.
#[derive(Clone, Debug, PartialEq, Eq)]
pub enum HostError {
    /// The program ran to completion but exited with the given status.
    Status(i32),
    /// The operation could not be carried out; carries the I/O cause.
    Io(String),
}

/// One externally observable mutation requested of the host, as recorded in
/// the ghost log of a [`Host`].
pub enum Effect {
    Run(CommandView),
    CreateDirectory { path: Seq<char>, user: Seq<char>, group: Seq<char>, mode: u32 },
    CreateFile {
        path: Seq<char>,
        user: Option<Seq<char>>,
        group: Option<Seq<char>>,
        mode: u32,
        content: Seq<char>,
    },
    RemoveFile { path: Seq<char> },
    RemoveDirectory { path: Seq<char> },
}

/// The external collaborator that performs mutations on behalf of leaf
/// actions.
///
/// Every method appends exactly one [`Effect`] to the ghost log, whether or
/// not the mutation succeeded: the log records what was requested. Nothing is
/// promised about the outcome; callers must state what holds of their own
/// result whichever outcome came back.
pub trait Host {
    /// The mutations requested of this host so far, in order. A host outside
    /// the verified world keeps the default: its log is not tracked.
    open spec fn log(&self) -> Seq<Effect> {
        Seq::<Effect>::empty()
    }

    /// Run a program to completion.
    fn run(&mut self, command: &Command) -> (r: Result<(), HostError>)
        ensures
            final(self).log() =~= old(self).log().push(Effect::Run(command@)),
    ;

    /// Create a directory with the given ownership and mode.
    fn create_directory(
        &mut self,
        path: &String,
        user: &String,
        group: &String,
        mode: u32,
    ) -> (r: Result<(), HostError>)
        ensures
            final(self).log() =~= old(self).log().push(
                Effect::CreateDirectory { path: path@, user: user@, group: group@, mode },
            ),
    ;

    /// Write a file with the given content, ownership and mode.
    fn create_file(
        &mut self,
        path: &String,
        user: &Option<String>,
        group: &Option<String>,
        mode: u32,
        content: &String,
    ) -> (r: Result<(), HostError>)
        ensures
            final(self).log() =~= old(self).log().push(
                Effect::CreateFile {
                    path: path@,
                    user: user.deep_view(),
                    group: group.deep_view(),
                    mode,
                    content: content@,
                },
            ),
    ;

    /// Remove a file.
    fn remove_file(&mut self, path: &String) -> (r: Result<(), HostError>)
        ensures
            final(self).log() =~= old(self).log().push(Effect::RemoveFile { path: path@ }),
    ;

    /// Remove a directory.
    fn remove_directory(&mut self, path: &String) -> (r: Result<(), HostError>)
        ensures
            final(self).log() =~= old(self).log().push(Effect::RemoveDirectory { path: path@ }),
    ;
}

/// An executable record of one requested mutation, kept by [`SpyHost`] so
/// that tests can inspect what a plan did and in which order.
#[derive(Debug, PartialEq, Eq)]
pub enum EffectRecord {
    Run { program: String, args: Vec<String> },
    CreateDirectory { path: String, user: String, group: String, mode: u32 },
    CreateFile { path: String, user: Option<String>, group: Option<String>, mode: u32, content: String },
    RemoveFile { path: String },
    RemoveDirectory { path: String },
}

impl View for EffectRecord {
    type V = Effect;

    open spec fn view(&self) -> Effect {
        match self {
            EffectRecord::Run { program, args } => Effect::Run(
                CommandView { program: program@, args: args.deep_view() },
            ),
            EffectRecord::CreateDirectory { path, user, group, mode } => Effect::CreateDirectory {
                path: path@,
                user: user@,
                group: group@,
                mode: *mode,
            },
            EffectRecord::CreateFile { path, user, group, mode, content } => Effect::CreateFile {
                path: path@,
                user: user.deep_view(),
                group: group.deep_view(),
                mode: *mode,
                content: content@,
            },
            EffectRecord::RemoveFile { path } => Effect::RemoveFile { path: path@ },
            EffectRecord::RemoveDirectory { path } => Effect::RemoveDirectory { path: path@ },
        }
    }
}

impl DeepView for EffectRecord {
    type V = Effect;

    open spec fn deep_view(&self) -> Effect {
        self.view()
    }
}

/// A host double for tests and dry runs: it performs no real mutation,
/// records every request as an [`EffectRecord`], and answers each request
/// with the next outcome of a script (success once the script is exhausted).
pub struct SpyHost {
    effects: Vec<EffectRecord>,
    script: Vec<Option<HostError>>,
    cursor: usize,
}

impl SpyHost {
    /// A spy that answers every request with success.
    pub fn new() -> (r: SpyHost)
        ensures
            r.log() =~= Seq::<Effect>::empty(),
    {
        SpyHost { effects: Vec::new(), script: Vec::new(), cursor: 0 }
    }

    /// A spy that answers the `i`-th request with the `i`-th entry of
    /// `script` (`None` for success), and with success past its end.
    pub fn with_script(script: Vec<Option<HostError>>) -> (r: SpyHost)
        ensures
            r.log() =~= Seq::<Effect>::empty(),
    {
        SpyHost { effects: Vec::new(), script, cursor: 0 }
    }

    /// The mutations requested so far, in order.
    pub fn effects(&self) -> (r: &Vec<EffectRecord>)
        ensures
            r.deep_view() =~= self.log(),
    {
        &self.effects
    }

    /// The outcome scripted for the current request.
    fn next_outcome(&mut self) -> (r: Result<(), HostError>)
        ensures
            final(self).effects == old(self).effects,
    {
        let i = self.cursor;
        if i < self.script.len() {
            self.cursor = i + 1;
            match &self.script[i] {
                None => Ok(()),
                Some(e) => Err(e.clone()),
            }
        } else {
            Ok(())
        }
    }
}

impl Host for SpyHost {
    closed spec fn log(&self) -> Seq<Effect> {
        self.effects.deep_view()
    }

    fn run(&mut self, command: &Command) -> (r: Result<(), HostError>) {
        let mut args: Vec<String> = Vec::new();
        let n = command.args.len();
        for i in 0..n
            invariant
                n == command.args.len(),
                args@ =~= command.args@.subrange(0, i as int),
        {
            args.push(command.args[i].clone());
        }
        proof {
            assert(args@ =~= command.args@);
            assert(args.deep_view() =~= command.args.deep_view());
        }
        self.effects.push(EffectRecord::Run { program: command.program.clone(), args });
        self.next_outcome()
    }

    fn create_directory(
        &mut self,
        path: &String,
        user: &String,
        group: &String,
        mode: u32,
    ) -> (r: Result<(), HostError>) {
        self.effects.push(EffectRecord::CreateDirectory {
            path: path.clone(),
            user: user.clone(),
            group: group.clone(),
            mode,
        });
        self.next_outcome()
    }

    fn create_file(
        &mut self,
        path: &String,
        user: &Option<String>,
        group: &Option<String>,
        mode: u32,
        content: &String,
    ) -> (r: Result<(), HostError>) {
        let user2: Option<String> = match user {
            Some(u) => Some(u.clone()),
            None => None,
        };
        let group2: Option<String> = match group {
            Some(g) => Some(g.clone()),
            None => None,
        };
        self.effects.push(EffectRecord::CreateFile {
            path: path.clone(),
            user: user2,
            group: group2,
            mode,
            content: content.clone(),
        });
        self.next_outcome()
    }

    fn remove_file(&mut self, path: &String) -> (r: Result<(), HostError>) {
        self.effects.push(EffectRecord::RemoveFile { path: path.clone() });
        self.next_outcome()
    }

    fn remove_directory(&mut self, path: &String) -> (r: Result<(), HostError>) {
        self.effects.push(EffectRecord::RemoveDirectory { path: path.clone() });
        self.next_outcome()
    }
}

} // verus!
