//! Debug task definitions in the shape the language server's
//! `debug-adapter-start` command takes, their mathematical model, and the
//! editor's generic debug configuration that they are made from.

use vstd::prelude::*;

verus! {

/// The `runType` given to an autodiscovered launch that names none.
pub const DEFAULT_LAUNCH_RUN_TYPE: &'static str = "run";

/// The host that an attach request names when it gives none.
pub const DEFAULT_ATTACH_HOST_NAME: &'static str = "localhost";

/// The port that an attach request names when it gives none.
pub const DEFAULT_ATTACH_PORT: u16 = 5005;

/// The `request` value of a launch.
pub const LAUNCH_REQUEST: &'static str = "launch";

/// The `request` value of an attach.
pub const ATTACH_REQUEST: &'static str = "attach";

/// The scheme prefix of a file URI.
pub const FILE_SCHEME: &'static str = "file://";

/// What to run: the program reachable from a source file (the server finds
/// the entry class), a main class, or a test class. The three shapes are told
/// apart by their required keys, `path`, `mainClass` and `testClass`.
#[derive(Clone, Debug, PartialEq, Eq)]
pub enum EntryPoint {
    Auto { path: String, run_type: Option<String> },
    Main { main_class: String },
    Test { test_class: String },
}

/// A launch request.
#[derive(Clone, Debug, PartialEq, Eq)]
pub struct ScalaDebugLauchDefinition {
    pub request: String,
    pub entry: EntryPoint,
    pub build_taget: Option<String>,
    pub args: Option<Vec<String>>,
    pub jvm_options: Option<Vec<String>>,
    pub env: Option<Vec<(String, String)>>,
    pub env_file: Option<String>,
}

/// An attach request.
#[derive(Clone, Debug, PartialEq, Eq)]
pub struct ScalaDebugAttachDefinition {
    pub request: String,
    pub build_taget: Option<String>,
    pub host_name: Option<String>,
    pub port: Option<u16>,
}

/// A debug task definition: a launch or an attach. The `request` field of a
/// valid one agrees with its variant.
#[derive(Clone, Debug, PartialEq, Eq)]
pub enum ScalaDebugTaskDefinition {
    Launch(ScalaDebugLauchDefinition),
    Attach(ScalaDebugAttachDefinition),
}

/// Model of an `EntryPoint`.
pub enum EntrySpec {
    Auto { path: Seq<char>, run_type: Option<Seq<char>> },
    Main { main_class: Seq<char> },
    Test { test_class: Seq<char> },
}

/// Model of a launch request.
pub struct LaunchSpec {
    pub request: Seq<char>,
    pub entry: EntrySpec,
    pub build_taget: Option<Seq<char>>,
    pub args: Option<Seq<Seq<char>>>,
    pub jvm_options: Option<Seq<Seq<char>>>,
    pub env: Option<Seq<(Seq<char>, Seq<char>)>>,
    pub env_file: Option<Seq<char>>,
}

/// Model of an attach request.
pub struct AttachSpec {
    pub request: Seq<char>,
    pub build_taget: Option<Seq<char>>,
    pub host_name: Option<Seq<char>>,
    pub port: Option<u16>,
}

/// Model of a debug task definition.
pub enum TaskSpec {
    Launch(LaunchSpec),
    Attach(AttachSpec),
}

impl View for EntryPoint {
    type V = EntrySpec;

    open spec fn view(&self) -> EntrySpec {
        match self {
            EntryPoint::Auto { path, run_type } => EntrySpec::Auto {
                path: path@,
                run_type: run_type.deep_view(),
            },
            EntryPoint::Main { main_class } => EntrySpec::Main { main_class: main_class@ },
            EntryPoint::Test { test_class } => EntrySpec::Test { test_class: test_class@ },
        }
    }
}

impl View for ScalaDebugLauchDefinition {
    type V = LaunchSpec;

    open spec fn view(&self) -> LaunchSpec {
        LaunchSpec {
            request: self.request@,
            entry: self.entry@,
            build_taget: self.build_taget.deep_view(),
            args: self.args.deep_view(),
            jvm_options: self.jvm_options.deep_view(),
            env: self.env.deep_view(),
            env_file: self.env_file.deep_view(),
        }
    }
}

impl View for ScalaDebugAttachDefinition {
    type V = AttachSpec;

    open spec fn view(&self) -> AttachSpec {
        AttachSpec {
            request: self.request@,
            build_taget: self.build_taget.deep_view(),
            host_name: self.host_name.deep_view(),
            port: self.port,
        }
    }
}

impl View for ScalaDebugTaskDefinition {
    type V = TaskSpec;

    open spec fn view(&self) -> TaskSpec {
        match self {
            ScalaDebugTaskDefinition::Launch(l) => TaskSpec::Launch(l@),
            ScalaDebugTaskDefinition::Attach(a) => TaskSpec::Attach(a@),
        }
    }
}

/// A definition whose `request` field agrees with its variant.
pub open spec fn is_consistent(t: TaskSpec) -> bool {
    match t {
        TaskSpec::Launch(l) => l.request == LAUNCH_REQUEST@,
        TaskSpec::Attach(a) => a.request == ATTACH_REQUEST@,
    }
}

/// A launch request of the editor, independent of any debug adapter.
pub struct LaunchRequest {
    pub program: String,
    pub cwd: Option<String>,
    pub args: Vec<String>,
    pub envs: Vec<(String, String)>,
}

/// An attach request of the editor: to a process, by its identifier.
pub struct AttachRequest {
    pub process_id: Option<u32>,
}

/// What the editor asks the debug adapter to do.
pub enum DebugRequest {
    Launch(LaunchRequest),
    Attach(AttachRequest),
}

/// The editor's generic debug configuration.
pub struct DebugConfig {
    pub label: String,
    pub adapter: String,
    pub request: DebugRequest,
    pub stop_on_entry: Option<bool>,
}

} // verus!
