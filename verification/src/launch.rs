use vstd::prelude::*;

verus! {

/// Where a standard stream of the launched process is connected.
#[derive(Clone, Copy, Debug, PartialEq, Eq, Structural)]
pub enum StdioMode {
    /// The stream of the supervisor itself.
    Inherit,
    /// A fresh pipe whose other end the supervisor reads.
    Piped,
    /// Nowhere.
    Null,
}

/// How a process is to be launched: what to run, and under which settings.
#[derive(Debug)]
pub struct LaunchConfig {
    pub program: String,
    pub args: Vec<String>,
    pub envs: Vec<(String, String)>,
    pub current_dir: Option<String>,
    pub kill_on_drop: bool,
    pub stdout: StdioMode,
    pub stderr: StdioMode,
    pub uid: Option<u32>,
    pub gid: Option<u32>,
    pub group_leader: bool,
}

/// The mathematical value of a [`LaunchConfig`].
pub struct LaunchConfigView {
    pub program: Seq<char>,
    pub args: Seq<Seq<char>>,
    pub envs: Seq<(Seq<char>, Seq<char>)>,
    pub current_dir: Option<Seq<char>>,
    pub kill_on_drop: bool,
    pub stdout: StdioMode,
    pub stderr: StdioMode,
    pub uid: Option<u32>,
    pub gid: Option<u32>,
    pub group_leader: bool,
}

/// The working directory of every supervised process: the filesystem root.
pub open spec fn root_dir() -> Seq<char> {
    "/"@
}

impl LaunchConfigView {
    /// This configuration made ready for a supervised launch: the process
    /// dies with its handle, runs in the filesystem root, writes both output
    /// streams into pipes and leads a process group of its own. A user or
    /// group id that is given replaces the one held; one that is not given
    /// leaves it as it was.
    pub open spec fn supervised(self, uid: Option<u32>, gid: Option<u32>) -> LaunchConfigView {
        LaunchConfigView {
            current_dir: Some(root_dir()),
            kill_on_drop: true,
            stdout: StdioMode::Piped,
            stderr: StdioMode::Piped,
            uid: if uid is Some { uid } else { self.uid },
            gid: if gid is Some { gid } else { self.gid },
            group_leader: true,
            ..self
        }
    }
}

impl View for LaunchConfig {
    type V = LaunchConfigView;

    open spec fn view(&self) -> LaunchConfigView {
        LaunchConfigView {
            program: self.program@,
            args: self.args.deep_view(),
            envs: self.envs.deep_view(),
            current_dir: match self.current_dir {
                Some(dir) => Some(dir@),
                None => None,
            },
            kill_on_drop: self.kill_on_drop,
            stdout: self.stdout,
            stderr: self.stderr,
            uid: self.uid,
            gid: self.gid,
            group_leader: self.group_leader,
        }
    }
}

impl LaunchConfig {
    /// A configuration that runs `program` with `args` and nothing else set:
    /// the environment, directory, streams and identity of the supervisor.
    pub fn new(program: String, args: Vec<String>) -> (config: LaunchConfig)
        ensures
            config@ == (LaunchConfigView {
                program: program@,
                args: args.deep_view(),
                envs: Seq::empty(),
                current_dir: None,
                kill_on_drop: false,
                stdout: StdioMode::Inherit,
                stderr: StdioMode::Inherit,
                uid: None,
                gid: None,
                group_leader: false,
            }),
    {
        let config = LaunchConfig {
            program,
            args,
            envs: Vec::new(),
            current_dir: None,
            kill_on_drop: false,
            stdout: StdioMode::Inherit,
            stderr: StdioMode::Inherit,
            uid: None,
            gid: None,
            group_leader: false,
        };
        assert(config.envs.deep_view() =~= Seq::empty());
        config
    }

    /// Makes this configuration ready for a supervised launch under the
    /// given identity.
    pub fn supervise(&mut self, uid: Option<u32>, gid: Option<u32>)
        ensures
            final(self)@ == old(self)@.supervised(uid, gid),
    {
        self.kill_on_drop = true;
        self.current_dir = Some("/".to_string());
        self.stdout = StdioMode::Piped;
        self.stderr = StdioMode::Piped;
        if let Some(uid) = uid {
            self.uid = Some(uid);
        }
        if let Some(gid) = gid {
            self.gid = Some(gid);
        }
        self.group_leader = true;
    }
}

/// Making a configuration ready twice under the same identity is the same
/// as making it ready once.
pub proof fn lemma_supervised_idempotent(config: LaunchConfigView, uid: Option<u32>, gid: Option<u32>)
    ensures
        config.supervised(uid, gid).supervised(uid, gid) == config.supervised(uid, gid),
{
}

} // verus!
