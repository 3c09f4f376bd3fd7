//! Request-header checks shared by the REST handlers.

use vstd::prelude::*;
use crate::proto::{ServerMsg, auth_error, err, is_error};
use crate::pathname::{file_name, file_name_spec, is_absolute, is_absolute_spec};
use crate::text::{parse_u32_spec, parse_u64_spec};

verus! {

/// The code and message of a missing workspace-root header.
pub open spec fn missing_root_msg() -> Seq<char> {
    "缺少 X-AgTalk-Workspace-Root；请在目标项目目录执行 agtalk"@
}

/// The message of a workspace-root header that is not an absolute `.agtalk` directory.
pub open spec fn invalid_root_msg() -> Seq<char> {
    "X-AgTalk-Workspace-Root 必须是绝对的 .agtalk 目录"@
}

/// A workspace root is an absolute path whose last component is `.agtalk`.
pub open spec fn valid_workspace_root(p: Seq<char>) -> bool {
    is_absolute_spec(p) && file_name_spec(p) == Some(".agtalk"@)
}

/// Checks the `X-AgTalk-Workspace-Root` header (its value when it is
/// readable text): it must be present and non-empty, else
/// `workspace_root_required`; it must be an absolute path whose last
/// component is `.agtalk`, else `workspace_root_invalid`.
pub fn workspace_root_from_headers(header: Option<&str>) -> (r: Result<String, ServerMsg>)
    ensures
        (header is None || header.unwrap()@.len() == 0) ==> (r matches Err(e) && is_error(
            e,
            "workspace_root_required"@,
            missing_root_msg(),
        )),
        header matches Some(h) ==> (h@.len() > 0 && !valid_workspace_root(h@) ==> (r matches Err(e)
            && is_error(e, "workspace_root_invalid"@, invalid_root_msg()))),
        header matches Some(h) ==> (h@.len() > 0 && valid_workspace_root(h@) ==> (r matches Ok(p) && p@
            == h@)),
{
    let raw = match header {
        Some(h) => h,
        None => {
            return Err(err("workspace_root_required", "缺少 X-AgTalk-Workspace-Root；请在目标项目目录执行 agtalk"));
        },
    };
    if crate::text::is_empty(raw) {
        return Err(err("workspace_root_required", "缺少 X-AgTalk-Workspace-Root；请在目标项目目录执行 agtalk"));
    }
    let is_dot_agtalk = match file_name(raw) {
        Some(f) => crate::text::str_eq(f.as_str(), ".agtalk"),
        None => false,
    };
    if !is_absolute(raw) || !is_dot_agtalk {
        return Err(err("workspace_root_invalid", "X-AgTalk-Workspace-Root 必须是绝对的 .agtalk 目录"));
    }
    Ok(String::from_str(raw))
}

/// What an agent request authenticates with.
#[derive(Debug)]
pub struct AuthRequest {
    pub address: String,
    pub pid: Option<u32>,
    pub start_time: Option<u64>,
    pub browser_token: Option<String>,
    pub workspace_root: String,
}

/// The view of an optional header value.
pub open spec fn opt_view(o: Option<&str>) -> Option<Seq<char>> {
    match o {
        Some(s) => Some(s@),
        None => None,
    }
}

/// The view of an optional owned string.
pub open spec fn opt_string_view(o: Option<String>) -> Option<Seq<char>> {
    match o {
        Some(s) => Some(s@),
        None => None,
    }
}

/// Gathers the credentials of an agent request from its headers (their
/// values when readable): the address is required; the pid and start time
/// are kept when they parse; a browser token selects the daemon's own
/// workspace root, otherwise the workspace-root header must be valid.
pub fn auth_request_from_headers(
    address: Option<&str>,
    pid: Option<&str>,
    start_time: Option<&str>,
    browser_token: Option<&str>,
    workspace_root: Option<&str>,
    daemon_root: &str,
) -> (r: Result<AuthRequest, ServerMsg>)
    ensures
        address is None ==> (r matches Err(e) && is_error(e, "auth_failed"@, "缺少 X-AgTalk-Address"@)),
        address is Some && browser_token is None ==> (r is Ok <==> (workspace_root is Some
            && workspace_root.unwrap()@.len() > 0 && valid_workspace_root(workspace_root.unwrap()@))),
        address is Some && browser_token is Some ==> r is Ok,
        address is Some && browser_token is None && (workspace_root is None || workspace_root.unwrap()@.len()
            == 0) ==> (r matches Err(e) && is_error(e, "workspace_root_required"@, missing_root_msg())),
        address is Some && browser_token is None ==> (workspace_root matches Some(h) ==> (h@.len() > 0
            && !valid_workspace_root(h@) ==> (r matches Err(e) && is_error(
            e,
            "workspace_root_invalid"@,
            invalid_root_msg(),
        )))),
        r matches Ok(a) ==> {
            &&& a.address@ == address.unwrap()@
            &&& a.pid == match pid {
                Some(p) => parse_u32_spec(p@),
                None => None,
            }
            &&& a.start_time == match start_time {
                Some(t) => parse_u64_spec(t@),
                None => None,
            }
            &&& opt_string_view(a.browser_token) == opt_view(browser_token)
            &&& a.workspace_root@ == if browser_token is Some {
                daemon_root@
            } else {
                workspace_root.unwrap()@
            }
        },
{
    let address = match address {
        Some(a) => a,
        None => {
            return Err(auth_error(String::from_str("缺少 X-AgTalk-Address")));
        },
    };
    let pid = match pid {
        Some(p) => crate::decimal::parse_u32(p),
        None => None,
    };
    let start_time = match start_time {
        Some(t) => crate::decimal::parse_u64(t),
        None => None,
    };
    let root = match browser_token {
        Some(_) => String::from_str(daemon_root),
        None => match workspace_root_from_headers(workspace_root) {
            Ok(r) => r,
            Err(e) => {
                return Err(e);
            },
        },
    };
    let token = match browser_token {
        Some(t) => Some(String::from_str(t)),
        None => None,
    };
    Ok(AuthRequest {
        address: String::from_str(address),
        pid,
        start_time,
        browser_token: token,
        workspace_root: root,
    })
}

} // verus!
