//! Handing a file to an agent: the bytes a reference or an attachment puts
//! on the agent's input, and the checks a request passes before anything is
//! sent. Reading the disk and writing to the terminal are the caller's.

use vstd::prelude::*;
use vstd::string::StringSliceAdditionalSpecFns;

verus! {

/// The most bytes an attachment may put on an agent's input, Enter included.
pub const MAX_AGENT_ATTACHMENT_PAYLOAD_BYTES: usize = 1048576;

/// What attaching a path sends: its UTF-8 bytes and one carriage return,
/// when that fits in the limit.
pub open spec fn attachment_payload_spec(path: Option<Seq<u8>>) -> Result<Seq<u8>, Seq<char>> {
    match path {
        None => Err("attachment path is not valid UTF-8"@),
        Some(bytes) => if bytes.len() + 1 <= MAX_AGENT_ATTACHMENT_PAYLOAD_BYTES {
            Ok(bytes.push(13u8))
        } else {
            Err("attachment path exceeds 1 MiB"@)
        },
    }
}

/// The bytes an attachment puts on the agent's input: the path as UTF-8 and
/// an Enter. `None` stands for a path that is not valid UTF-8. The bound is
/// checked with the final carriage return included.
pub fn agent_attachment_payload(path: Option<&str>) -> (r: Result<Vec<u8>, &'static str>)
    ensures
        match attachment_payload_spec(match path {
            Some(p) => Some(p.spec_bytes()),
            None => None,
        }) {
            Ok(bytes) => r is Ok && r->Ok_0@ == bytes,
            Err(m) => r is Err && r->Err_0@ == m,
        },
{
    let path = match path {
        Some(p) => p,
        None => {
            return Err("attachment path is not valid UTF-8");
        },
    };
    let bytes = path.as_bytes();
    let n = bytes.len();
    if n >= MAX_AGENT_ATTACHMENT_PAYLOAD_BYTES {
        return Err("attachment path exceeds 1 MiB");
    }
    let mut payload: Vec<u8> = Vec::new();
    let mut i: usize = 0;
    while i < n
        invariant
            n == bytes@.len(),
            bytes@ == path.spec_bytes(),
            i <= n,
            payload@ == bytes@.subrange(0, i as int),
        decreases n - i,
    {
        payload.push(bytes[i]);
        i = i + 1;
        assert(payload@ =~= bytes@.subrange(0, i as int));
    }
    assert(payload@ =~= bytes@);
    payload.push(13u8);
    Ok(payload)
}

/// The characters `char::is_control` names: the C0 and C1 control codes.
pub open spec fn is_control(c: char) -> bool {
    c <= '\u{1f}' || ('\u{7f}' <= c && c <= '\u{9f}')
}

/// Whether a reference path's text may go to an agent: valid UTF-8 with no
/// control character. Whether it still names a file or directory is the
/// filesystem's question.
pub open spec fn reference_text_ok(text: Option<Seq<char>>) -> bool {
    match text {
        None => false,
        Some(t) => no_control(t),
    }
}

/// No character of the text is a control code.
pub open spec fn no_control(t: Seq<char>) -> bool {
    forall|i: int| 0 <= i < t.len() ==> !is_control(#[trigger] t[i])
}

/// Whether a reference path's text may go to an agent.
pub fn reference_text_is_deliverable(text: Option<&str>) -> (r: bool)
    ensures
        r == reference_text_ok(match text {
            Some(t) => Some(t@),
            None => None,
        }),
{
    let t = match text {
        Some(t) => t,
        None => {
            return false;
        },
    };
    let n = t.unicode_len();
    let mut i: usize = 0;
    while i < n
        invariant
            text == Some(t),
            n == t@.len(),
            i <= n,
            forall|j: int| 0 <= j < i ==> !is_control(#[trigger] t@[j]),
        decreases n - i,
    {
        let c = t.get_char(i);
        if c <= '\u{1f}' || ('\u{7f}' <= c && c <= '\u{9f}') {
            assert(is_control(t@[i as int]));
            assert(!no_control(t@));
            return false;
        }
        i = i + 1;
    }
    true
}

/// Why writing to an agent's input failed.
#[derive(Debug, Clone, Copy, PartialEq, Eq, Structural)]
pub enum TerminalInputSendError {
    /// The agent's terminal has no runtime.
    RuntimeUnavailable,
    /// The runtime refused the bytes; `busy` when its queue was full.
    SendFailed { busy: bool },
}

pub open spec fn send_failure_spec(e: TerminalInputSendError) -> Seq<char> {
    match e {
        TerminalInputSendError::RuntimeUnavailable => "agent runtime is unavailable"@,
        TerminalInputSendError::SendFailed { busy } => if busy {
            "agent input is busy"@
        } else {
            "agent runtime is unavailable"@
        },
    }
}

/// What a failed send tells the person: a full queue is busy input, any
/// other refusal an unavailable runtime.
pub fn send_failure_context(e: TerminalInputSendError) -> (r: &'static str)
    ensures
        r@ == send_failure_spec(e),
{
    match e {
        TerminalInputSendError::RuntimeUnavailable => "agent runtime is unavailable",
        TerminalInputSendError::SendFailed { busy } => if busy {
            "agent input is busy"
        } else {
            "agent runtime is unavailable"
        },
    }
}

pub open spec fn delivery_spec(
    picker_matches: bool,
    target_current: bool,
    selection_matches: bool,
    path: Option<Seq<u8>>,
    is_regular_file: bool,
) -> Result<Seq<u8>, Seq<char>> {
    if !picker_matches || !target_current {
        Err("attachment target changed"@)
    } else if !selection_matches {
        Err("attachment selection changed"@)
    } else {
        match attachment_payload_spec(path) {
            Err(m) => Err(m),
            Ok(bytes) => if !is_regular_file {
                Err("selected attachment is no longer a regular file"@)
            } else {
                Ok(bytes)
            },
        }
    }
}

/// The bytes to send for an attachment, or the reason it is refused, in
/// the order the checks are made: the open picker still targets the
/// request's agent and that agent is still current; the picker's selection
/// is still the request's path; the payload fits; the path is still a
/// regular file. `path` is `None` when it is not valid UTF-8.
pub fn attachment_delivery(
    picker_matches: bool,
    target_current: bool,
    selection_matches: bool,
    path: Option<&str>,
    is_regular_file: bool,
) -> (r: Result<Vec<u8>, &'static str>)
    ensures
        match delivery_spec(
            picker_matches,
            target_current,
            selection_matches,
            match path {
                Some(p) => Some(p.spec_bytes()),
                None => None,
            },
            is_regular_file,
        ) {
            Ok(bytes) => r is Ok && r->Ok_0@ == bytes,
            Err(m) => r is Err && r->Err_0@ == m,
        },
{
    if !picker_matches || !target_current {
        return Err("attachment target changed");
    }
    if !selection_matches {
        return Err("attachment selection changed");
    }
    match agent_attachment_payload(path) {
        Err(m) => Err(m),
        Ok(bytes) => if !is_regular_file {
            Err("selected attachment is no longer a regular file")
        } else {
            Ok(bytes)
        },
    }
}


/// An attachment is sent only when every check passed: the picker still
/// targets the request's agent, that agent is still current, the selection
/// is still the request's path, the path is UTF-8 and fits with its Enter,
/// and it is still a regular file; what is sent is then the path's bytes and
/// a carriage return. A changed picker or a target that is no longer
/// current refuses first, whatever else holds.
pub proof fn law_attachment_sent_only_when_all_checks_pass(
    picker_matches: bool,
    target_current: bool,
    selection_matches: bool,
    path: Option<Seq<u8>>,
    is_regular_file: bool,
)
    ensures
        delivery_spec(picker_matches, target_current, selection_matches, path, is_regular_file) matches Ok(bytes) ==> {
            &&& picker_matches
            &&& target_current
            &&& selection_matches
            &&& is_regular_file
            &&& path matches Some(p) && p.len() + 1 <= MAX_AGENT_ATTACHMENT_PAYLOAD_BYTES && bytes == p.push(13u8)
        },
        !picker_matches || !target_current ==> delivery_spec(picker_matches, target_current, selection_matches, path, is_regular_file)
            == Err::<Seq<u8>, Seq<char>>("attachment target changed"@),
        picker_matches && target_current && !selection_matches ==> delivery_spec(
            picker_matches,
            target_current,
            selection_matches,
            path,
            is_regular_file,
        ) == Err::<Seq<u8>, Seq<char>>("attachment selection changed"@),
{
}

/// One entry of the open directory: its path and whether file operations
/// may act on it.
#[derive(Debug)]
pub struct HandoffEntry {
    pub path: String,
    pub operation_supported: bool,
}

/// A reference handoff the picker chose: the path, and the workspace, pane
/// and terminal it was bound to when it was chosen.
#[derive(Debug)]
pub struct AgentReferenceRequest {
    pub path: Option<String>,
    pub workspace_id: String,
    pub pane_id: u64,
    pub terminal_id: String,
}

/// Whether a handoff still holds: no file operation is in flight, the path
/// is valid text and still an entry file operations may act on, and the
/// chosen pane is still bound to the chosen terminal, an agent's.
pub open spec fn handoff_current_spec(
    operation_busy: bool,
    path: Option<Seq<char>>,
    entries: Seq<HandoffEntry>,
    bound_terminal: Option<Seq<char>>,
    terminal: Seq<char>,
    terminal_is_agent: bool,
) -> bool {
    &&& !operation_busy
    &&& path matches Some(p) && exists|i: int| 0 <= i < entries.len() && #[trigger] entries[i].operation_supported && crate::paths::path_key(entries[i].path@) == crate::paths::path_key(p)
    &&& bound_terminal == Some(terminal)
    &&& terminal_is_agent
}

/// Whether the handoff's authority is intact. `operation_busy` is whether a
/// file operation runs or its worker is busy; `entries` the open directory;
/// `bound_terminal` the terminal the chosen workspace's chosen pane is bound
/// to now (`None` when either is gone); `terminal_is_agent` whether the
/// request's terminal runs an agent.
pub fn file_manager_agent_handoff_is_current(
    operation_busy: bool,
    request: &AgentReferenceRequest,
    entries: &Vec<HandoffEntry>,
    bound_terminal: Option<&str>,
    terminal_is_agent: bool,
) -> (r: bool)
    ensures
        r == handoff_current_spec(
            operation_busy,
            match request.path {
                Some(p) => Some(p@),
                None => None,
            },
            entries@,
            match bound_terminal {
                Some(t) => Some(t@),
                None => None,
            },
            request.terminal_id@,
            terminal_is_agent,
        ),
{
    if operation_busy {
        return false;
    }
    let path = match &request.path {
        Some(p) => p,
        None => {
            return false;
        },
    };
    let mut found = false;
    let mut i: usize = 0;
    while i < entries.len()
        invariant
            i <= entries@.len(),
            found == exists|j: int| 0 <= j < i && #[trigger] entries@[j].operation_supported && crate::paths::path_key(entries@[j].path@) == crate::paths::path_key(path@),
        decreases entries.len() - i,
    {
        if entries[i].operation_supported && crate::paths::same_path(entries[i].path.as_str(), path.as_str()) {
            found = true;
        }
        i = i + 1;
    }
    if !found {
        return false;
    }
    let bound_ok = match bound_terminal {
        Some(t) => crate::text::str_equal(t, request.terminal_id.as_str()),
        None => false,
    };
    bound_ok && terminal_is_agent
}

/// What sending a reference puts on the agent's input, or why it is not
/// sent: a handoff whose authority changed, a path that is no longer
/// deliverable, and a path that is not text are refused; otherwise exactly
/// the path's UTF-8 bytes go, with no Enter, since the agent decides when to
/// submit.
pub open spec fn reference_send_spec(current: bool, deliverable: bool, path: Option<Seq<u8>>) -> Result<Seq<u8>, Seq<char>> {
    if !current {
        Err("agent handoff authority changed"@)
    } else if !deliverable {
        Err("reference path is unavailable"@)
    } else {
        match path {
            None => Err("agent handoff authority changed"@),
            Some(bytes) => Ok(bytes),
        }
    }
}

/// Decide a reference send; `deliverable` is the filesystem's answer for
/// the path on top of `reference_text_is_deliverable`.
pub fn reference_send(current: bool, deliverable: bool, path: Option<&str>) -> (r: Result<Vec<u8>, &'static str>)
    ensures
        match reference_send_spec(
            current,
            deliverable,
            match path {
                Some(p) => Some(p.spec_bytes()),
                None => None,
            },
        ) {
            Ok(bytes) => r is Ok && r->Ok_0@ == bytes,
            Err(m) => r is Err && r->Err_0@ == m,
        },
{
    if !current {
        return Err("agent handoff authority changed");
    }
    if !deliverable {
        return Err("reference path is unavailable");
    }
    let p = match path {
        Some(p) => p,
        None => {
            return Err("agent handoff authority changed");
        },
    };
    let bytes = p.as_bytes();
    let mut payload: Vec<u8> = Vec::new();
    let mut i: usize = 0;
    while i < bytes.len()
        invariant
            bytes@ == p.spec_bytes(),
            i <= bytes@.len(),
            payload@ == bytes@.subrange(0, i as int),
        decreases bytes.len() - i,
    {
        payload.push(bytes[i]);
        i = i + 1;
        assert(payload@ =~= bytes@.subrange(0, i as int));
    }
    assert(payload@ =~= bytes@);
    Ok(payload)
}

/// A reference sends exactly the path's bytes: nothing is appended, so no
/// Enter submits it on the agent's behalf.
pub proof fn law_reference_is_never_submitted(current: bool, deliverable: bool, path: Option<Seq<u8>>)
    requires
        reference_send_spec(current, deliverable, path) is Ok,
    ensures
        path == Some(reference_send_spec(current, deliverable, path)->Ok_0),
{
}

} // verus!
