//! The debugger front end: turning the editor's generic configuration into a
//! task definition, completing a task definition with the server's defaults,
//! and the exchange that starts a debug session.

use vstd::prelude::*;

use crate::config::{
    is_consistent, AttachSpec, DebugConfig, DebugRequest, EntryPoint, EntrySpec, LaunchSpec,
    ScalaDebugAttachDefinition, ScalaDebugLauchDefinition, ScalaDebugTaskDefinition, TaskSpec,
    ATTACH_REQUEST, DEFAULT_ATTACH_HOST_NAME, DEFAULT_ATTACH_PORT, DEFAULT_LAUNCH_RUN_TYPE,
    FILE_SCHEME, LAUNCH_REQUEST,
};
use crate::error::DapError;
use crate::path::{full_path, is_absolute, join_path};
use crate::text::{has_prefix, starts_with};

verus! {

/// The path of an autodiscovered launch as a file URI: kept if it already has
/// the file scheme, otherwise resolved against the workspace and prefixed.
pub open spec fn file_uri(workspace: Seq<char>, path: Seq<char>) -> Seq<char> {
    if has_prefix(path, FILE_SCHEME@) {
        path
    } else {
        FILE_SCHEME@ + join_path(workspace, path)
    }
}

/// A task definition completed with the server's defaults, or the error for
/// one whose `request` field disagrees with its variant.
pub open spec fn enrich_spec(workspace: Seq<char>, t: TaskSpec) -> Result<TaskSpec, DapError> {
    match t {
        TaskSpec::Launch(l) => {
            if l.request != LAUNCH_REQUEST@ {
                Err(DapError::InvalidTaskDefinition)
            } else {
                match l.entry {
                    EntrySpec::Auto { path, run_type } => Ok(
                        TaskSpec::Launch(
                            LaunchSpec {
                                entry: EntrySpec::Auto {
                                    path: file_uri(workspace, path),
                                    run_type: Some(
                                        match run_type {
                                            Some(r) => r,
                                            None => DEFAULT_LAUNCH_RUN_TYPE@,
                                        },
                                    ),
                                },
                                ..l
                            },
                        ),
                    ),
                    _ => Ok(t),
                }
            }
        },
        TaskSpec::Attach(a) => {
            if a.request != ATTACH_REQUEST@ {
                Err(DapError::InvalidTaskDefinition)
            } else {
                Ok(
                    TaskSpec::Attach(
                        AttachSpec {
                            host_name: Some(
                                match a.host_name {
                                    Some(h) => h,
                                    None => DEFAULT_ATTACH_HOST_NAME@,
                                },
                            ),
                            port: Some(
                                match a.port {
                                    Some(p) => p,
                                    None => DEFAULT_ATTACH_PORT,
                                },
                            ),
                            ..a
                        },
                    ),
                )
            }
        },
    }
}

/// The task definition made from the editor's generic configuration.
pub open spec fn converted(g: DebugConfig) -> TaskSpec {
    match g.request {
        DebugRequest::Launch(l) => TaskSpec::Launch(
            LaunchSpec {
                request: LAUNCH_REQUEST@,
                entry: EntrySpec::Auto {
                    path: match l.cwd {
                        Some(c) => join_path(c@, l.program@),
                        None => l.program@,
                    },
                    run_type: None,
                },
                build_taget: None,
                args: if l.args@.len() == 0 {
                    None
                } else {
                    Some(l.args.deep_view())
                },
                jvm_options: None,
                env: if l.envs@.len() == 0 {
                    None
                } else {
                    Some(l.envs.deep_view())
                },
                env_file: None,
            },
        ),
        DebugRequest::Attach(_) => TaskSpec::Attach(
            AttachSpec { request: ATTACH_REQUEST@, build_taget: None, host_name: None, port: None },
        ),
    }
}

pub open spec fn task_result_view(r: Result<ScalaDebugTaskDefinition, DapError>) -> Result<
    TaskSpec,
    DapError,
> {
    match r {
        Ok(d) => Ok(d@),
        Err(e) => Err(e),
    }
}

/// A path that already has the file scheme is its own file URI.
pub proof fn lemma_file_uri_prefixed(workspace: Seq<char>, path: Seq<char>)
    ensures
        has_prefix(file_uri(workspace, path), FILE_SCHEME@),
        file_uri(workspace, file_uri(workspace, path)) == file_uri(workspace, path),
{
    if !has_prefix(path, FILE_SCHEME@) {
        let u = FILE_SCHEME@ + join_path(workspace, path);
        assert(u.subrange(0, FILE_SCHEME@.len() as int) =~= FILE_SCHEME@);
    }
}

/// Enrichment of an autodiscovered launch: a path with the file scheme is
/// kept; an absolute path gets the scheme in front of it; a relative path is
/// joined onto the workspace and then gets the scheme, which gives an
/// absolute path whenever the workspace is one.
pub proof fn lemma_enrich_auto_path(workspace: Seq<char>, l: LaunchSpec)
    requires
        l.request == LAUNCH_REQUEST@,
        l.entry is Auto,
    ensures
        enrich_spec(workspace, TaskSpec::Launch(l)) is Ok,
        ({
            let path = l.entry->Auto_path;
            let out = enrich_spec(workspace, TaskSpec::Launch(l))->Ok_0;
            &&& out is Launch
            &&& out->Launch_0.entry is Auto
            &&& has_prefix(path, FILE_SCHEME@) ==> out->Launch_0.entry->Auto_path == path
            &&& !has_prefix(path, FILE_SCHEME@) && is_absolute(path)
                ==> out->Launch_0.entry->Auto_path == FILE_SCHEME@ + path
            &&& !has_prefix(path, FILE_SCHEME@) && !is_absolute(path)
                ==> out->Launch_0.entry->Auto_path == FILE_SCHEME@ + join_path(workspace, path)
            &&& !has_prefix(path, FILE_SCHEME@) && !is_absolute(path) && is_absolute(workspace)
                ==> is_absolute(join_path(workspace, path))
        }),
{
    let path = l.entry->Auto_path;
    if !has_prefix(path, FILE_SCHEME@) && !is_absolute(path) && is_absolute(workspace) {
        let j = join_path(workspace, path);
        assert(j[0] == workspace[0]);
    }
}

/// Enriching is idempotent: a valid definition is enriched without error,
/// and enriching the result again gives the result unchanged.
pub proof fn lemma_enrich_idempotent(workspace: Seq<char>, t: TaskSpec)
    requires
        is_consistent(t),
    ensures
        enrich_spec(workspace, t) is Ok,
        enrich_spec(workspace, enrich_spec(workspace, t)->Ok_0) == enrich_spec(workspace, t),
{
    match t {
        TaskSpec::Launch(l) => {
            if let EntrySpec::Auto { path, run_type } = l.entry {
                lemma_file_uri_prefixed(workspace, path);
            }
        },
        TaskSpec::Attach(_) => {},
    }
}

/// The debugger front end of the extension.
pub struct Debugger;

impl Debugger {
    pub fn new() -> (r: Self) {
        Debugger
    }

    /// Completes a task definition with the defaults that the server needs:
    /// for an autodiscovered launch a file URI as path and `run` as run type;
    /// for an attach the local host and the default debug port. Fields that
    /// are given are kept. A definition whose `request` field disagrees with
    /// its variant is refused.
    pub fn enrich_config(&self, workspace: &str, debug_task_def: ScalaDebugTaskDefinition) -> (r:
        Result<ScalaDebugTaskDefinition, DapError>)
        ensures
            task_result_view(r) == enrich_spec(workspace@, debug_task_def@),
    {
        match debug_task_def {
            ScalaDebugTaskDefinition::Launch(config) => {
                let launch = String::from_str(LAUNCH_REQUEST);
                if !(config.request == launch) {
                    return Err(DapError::InvalidTaskDefinition);
                }
                let ScalaDebugLauchDefinition {
                    request,
                    entry,
                    build_taget,
                    args,
                    jvm_options,
                    env,
                    env_file,
                } = config;
                let entry = match entry {
                    EntryPoint::Auto { path, run_type } => {
                        let path = if starts_with(path.as_str(), FILE_SCHEME) {
                            path
                        } else {
                            let mut uri = String::from_str(FILE_SCHEME);
                            let joined = full_path(path.as_str(), workspace);
                            uri.append(joined.as_str());
                            uri
                        };
                        let run_type = match run_type {
                            Some(r) => Some(r),
                            None => Some(String::from_str(DEFAULT_LAUNCH_RUN_TYPE)),
                        };
                        EntryPoint::Auto { path, run_type }
                    },
                    other => other,
                };
                Ok(
                    ScalaDebugTaskDefinition::Launch(
                        ScalaDebugLauchDefinition {
                            request,
                            entry,
                            build_taget,
                            args,
                            jvm_options,
                            env,
                            env_file,
                        },
                    ),
                )
            },
            ScalaDebugTaskDefinition::Attach(config) => {
                let attach = String::from_str(ATTACH_REQUEST);
                if !(config.request == attach) {
                    return Err(DapError::InvalidTaskDefinition);
                }
                let host_name = match config.host_name {
                    Some(h) => Some(h),
                    None => Some(String::from_str(DEFAULT_ATTACH_HOST_NAME)),
                };
                let port = match config.port {
                    Some(p) => Some(p),
                    None => Some(DEFAULT_ATTACH_PORT),
                };
                Ok(
                    ScalaDebugTaskDefinition::Attach(
                        ScalaDebugAttachDefinition {
                            request: config.request,
                            build_taget: config.build_taget,
                            host_name,
                            port,
                        },
                    ),
                )
            },
        }
    }

    /// Makes the server's task definition from the editor's generic one. A
    /// launch becomes an autodiscovered launch of the program, resolved
    /// against the working directory when one is given; its run type is left
    /// for enrichment. The server cannot attach to a process by identifier,
    /// so an attach becomes an attach with every optional field unset.
    pub fn convert_generic_config(&self, generic_config: DebugConfig) -> (r:
        ScalaDebugTaskDefinition)
        ensures
            r@ == converted(generic_config),
    {
        match generic_config.request {
            DebugRequest::Launch(launch_request) => {
                let path = match &launch_request.cwd {
                    Some(cwd) => full_path(launch_request.program.as_str(), cwd.as_str()),
                    None => launch_request.program,
                };
                let args = if launch_request.args.len() == 0 {
                    None
                } else {
                    Some(launch_request.args)
                };
                let env = if launch_request.envs.len() == 0 {
                    None
                } else {
                    Some(launch_request.envs)
                };
                ScalaDebugTaskDefinition::Launch(
                    ScalaDebugLauchDefinition {
                        request: String::from_str(LAUNCH_REQUEST),
                        entry: EntryPoint::Auto { path, run_type: None },
                        build_taget: None,
                        args,
                        jvm_options: None,
                        env,
                        env_file: None,
                    },
                )
            },
            DebugRequest::Attach(_attach_request) => {
                ScalaDebugTaskDefinition::Attach(
                    ScalaDebugAttachDefinition {
                        request: String::from_str(ATTACH_REQUEST),
                        build_taget: None,
                        host_name: None,
                        port: None,
                    },
                )
            },
        }
    }
}

} // verus!
