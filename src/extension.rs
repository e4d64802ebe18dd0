//! Decisions of the editor extension around the debugger: which adapter it
//! serves, which kind of request a configuration makes, and how the language
//! server is launched through its proxy.

use vstd::prelude::*;

use crate::error::DapError;

verus! {

/// The name of the language server and of its debug adapter.
pub const LSP_DAP_NAME: &'static str = "Metals";

/// The server argument used when the settings give none: it turns on the
/// server's HTTP interface.
pub const DEFAULT_METALS_ARGUMENT: &'static str = "-Dmetals.http=on";

/// What the `request` member of a user's debug configuration holds.
pub enum RequestField {
    /// There is no such member.
    Absent,
    /// A string.
    Text(String),
    /// A value of another JSON type.
    Other,
}

/// Whether a session is launched or attached to.
#[derive(Clone, Copy, Debug, PartialEq, Eq)]
pub enum RequestKind {
    Launch,
    Attach,
}

/// The kind of request that the `request` member names.
pub open spec fn request_kind_spec(request: RequestField) -> Result<RequestKind, DapError> {
    match request {
        RequestField::Absent => Err(DapError::MalformedConfig),
        RequestField::Text(s) => if s@ == crate::config::LAUNCH_REQUEST@ {
            Ok(RequestKind::Launch)
        } else if s@ == crate::config::ATTACH_REQUEST@ {
            Ok(RequestKind::Attach)
        } else {
            Err(DapError::UnsupportedRequestKind)
        },
        RequestField::Other => Err(DapError::UnsupportedRequestKind),
    }
}

/// Refuses every adapter but the one this extension serves.
pub fn check_adapter(adapter_name: &str) -> (r: Result<(), DapError>)
    ensures
        r is Ok <==> adapter_name@ == LSP_DAP_NAME@,
        r is Err ==> r == Err::<(), DapError>(DapError::UnknownAdapter),
{
    let name = String::from_str(adapter_name);
    let served = String::from_str(LSP_DAP_NAME);
    if name == served {
        Ok(())
    } else {
        Err(DapError::UnknownAdapter)
    }
}

/// Classifies a configuration by its `request` member: `"launch"` or
/// `"attach"`; a missing member is a malformed configuration, any other
/// value an unsupported kind.
pub fn classify_request_kind(request: &RequestField) -> (r: Result<RequestKind, DapError>)
    ensures
        r == request_kind_spec(*request),
{
    match request {
        RequestField::Absent => Err(DapError::MalformedConfig),
        RequestField::Text(s) => {
            if *s == String::from_str(crate::config::LAUNCH_REQUEST) {
                Ok(RequestKind::Launch)
            } else if *s == String::from_str(crate::config::ATTACH_REQUEST) {
                Ok(RequestKind::Attach)
            } else {
                Err(DapError::UnsupportedRequestKind)
            }
        },
        RequestField::Other => Err(DapError::UnsupportedRequestKind),
    }
}

/// The adapter check followed by the classification.
pub fn dap_request_kind(adapter_name: &str, request: &RequestField) -> (r: Result<
    RequestKind,
    DapError,
>)
    ensures
        adapter_name@ != LSP_DAP_NAME@ ==> r == Err::<RequestKind, DapError>(
            DapError::UnknownAdapter,
        ),
        adapter_name@ == LSP_DAP_NAME@ ==> r == request_kind_spec(*request),
{
    match check_adapter(adapter_name) {
        Err(e) => Err(e),
        Ok(()) => classify_request_kind(request),
    }
}

/// The arguments handed to the language server: none when its settings
/// could not be read, those the settings give, or else the one that turns on
/// its HTTP interface.
pub fn metals_arguments(settings: Option<Option<Vec<String>>>) -> (r: Vec<String>)
    ensures
        settings is None ==> r@.len() == 0,
        settings matches Some(Some(a)) ==> r == a,
        settings matches Some(None) ==> r.deep_view() == seq![DEFAULT_METALS_ARGUMENT@],
{
    match settings {
        None => Vec::new(),
        Some(Some(a)) => a,
        Some(None) => {
            let mut v = Vec::new();
            v.push(String::from_str(DEFAULT_METALS_ARGUMENT));
            assert(v.deep_view() =~= seq![DEFAULT_METALS_ARGUMENT@]);
            v
        },
    }
}

/// The command line given to Node to run the proxy, which then runs the
/// server: the proxy's module source, the directory for its port files, the
/// server's path, then the server's own arguments.
pub fn proxy_command_args(
    proxy_code: &str,
    extension_dir: String,
    metals_path: String,
    arguments: Vec<String>,
) -> (r: Vec<String>)
    ensures
        r.deep_view() == seq!["--input-type=module"@, "-e"@, proxy_code@, extension_dir@, metals_path@]
            + arguments.deep_view(),
{
    let mut args = Vec::new();
    args.push(String::from_str("--input-type=module"));
    args.push(String::from_str("-e"));
    args.push(String::from_str(proxy_code));
    args.push(extension_dir);
    args.push(metals_path);
    let ghost head = args.deep_view();
    let mut i: usize = 0;
    while i < arguments.len()
        invariant
            i <= arguments@.len(),
            args.deep_view() == head + arguments.deep_view().subrange(0, i as int),
        decreases arguments@.len() - i,
    {
        let ghost prev = args@;
        let ghost prev_dv = args.deep_view();
        let a = arguments[i].clone();
        args.push(a);
        assert(args@ =~= prev.push(a));
        assert forall|k: int| 0 <= k < prev.len() implies args.deep_view()[k] == prev_dv[k] by {
            assert(args@[k] == prev[k]);
        }
        assert(args.deep_view() =~= prev_dv.push(a@));
        assert(arguments.deep_view().subrange(0, i + 1) =~= arguments.deep_view().subrange(
            0,
            i as int,
        ).push(arguments[i as int]@));
        assert(args.deep_view() =~= head + arguments.deep_view().subrange(0, i + 1));
        i = i + 1;
    }
    assert(arguments.deep_view().subrange(0, arguments@.len() as int) =~= arguments.deep_view());
    assert(head =~= seq!["--input-type=module"@, "-e"@, proxy_code@, extension_dir@, metals_path@]);
    args
}

} // verus!
