use crate::strings::join;
use vstd::prelude::*;

verus! {

/// Where the language server's binary is fetched from. The address names no
/// version: every installation fetches what stands there at that time.
pub const DOWNLOAD_URL: &'static str =
    "https://raw.githubusercontent.com/forcedotcom/salesforcedx-vscode/develop/packages/salesforcedx-vscode-apex/out/apex-jorje-lsp.jar";

/// The file, in the extension's working directory, that holds the binary.
pub const BINARY_PATH: &'static str = "apex-jorje-lsp.jar";

/// Why a resolution failed. Each kind holds what the host said of the failure.
#[derive(Clone, Debug, PartialEq, Eq)]
pub enum ProvisionError {
    /// The binary could not be fetched.
    Network(String),
    /// The binary could not be written to its file.
    Filesystem(String),
    /// The file could not be made executable.
    Permission(String),
}

/// What the host hands back to the extension during a resolution.
#[derive(Debug, PartialEq, Eq)]
pub enum ResolveEvent {
    /// The host asks for the path of the binary.
    Requested,
    /// The cached path was looked up on disk: whether it names a regular file.
    FileChecked { is_file: bool },
    /// The host was told that a download starts.
    StatusReported,
    /// The fetch ended: with the bytes that came, or with what went wrong.
    Fetched { payload: Result<Vec<u8>, String> },
    /// The write ended.
    Written { outcome: Result<(), String> },
    /// The file was made executable, or could not be.
    MadeExecutable { outcome: Result<(), String> },
}

/// What the extension asks of the host next.
#[derive(Debug, PartialEq, Eq)]
pub enum ResolveAction {
    /// Look up, on disk, whether `path` names a regular file. Nothing else
    /// is asked of the file: one that was written only in part passes.
    CheckFile { path: String },
    /// Tell the editor that the language server is being downloaded.
    ReportDownloading,
    /// Fetch what stands at `url`.
    Fetch { url: String },
    /// Write `contents` to the file `path`, as they are.
    WriteFile { path: String, contents: Vec<u8> },
    /// Make the file `path` executable.
    MakeExecutable { path: String },
    /// The resolution is over: with the path of the binary, or with an error.
    Finish { outcome: Result<String, ProvisionError> },
}

/// The model of a `ProvisionError`.
pub enum ErrorModel {
    Network(Seq<char>),
    Filesystem(Seq<char>),
    Permission(Seq<char>),
}

/// The model of a `ResolveEvent`.
pub enum EventModel {
    Requested,
    FileChecked { is_file: bool },
    StatusReported,
    Fetched { payload: Result<Seq<u8>, Seq<char>> },
    Written { outcome: Result<(), Seq<char>> },
    MadeExecutable { outcome: Result<(), Seq<char>> },
}

/// The model of a `ResolveAction`.
pub enum ActionModel {
    CheckFile { path: Seq<char> },
    ReportDownloading,
    Fetch { url: Seq<char> },
    WriteFile { path: Seq<char>, contents: Seq<u8> },
    MakeExecutable { path: Seq<char> },
    Finish { outcome: Result<Seq<char>, ErrorModel> },
}

impl View for ProvisionError {
    type V = ErrorModel;

    open spec fn view(&self) -> ErrorModel {
        match *self {
            ProvisionError::Network(detail) => ErrorModel::Network(detail@),
            ProvisionError::Filesystem(detail) => ErrorModel::Filesystem(detail@),
            ProvisionError::Permission(detail) => ErrorModel::Permission(detail@),
        }
    }
}

/// The text that tells the host of an error: what failed, and after a colon
/// and a blank what the host itself had said of the failure.
pub open spec fn error_text(error: ErrorModel) -> Seq<char> {
    match error {
        ErrorModel::Network(detail) => "failed to download the language server: "@ + detail,
        ErrorModel::Filesystem(detail) => "failed to write the language server to disk: "@ + detail,
        ErrorModel::Permission(detail) => "failed to make the language server executable: "@
            + detail,
    }
}

impl ProvisionError {
    /// The text that tells the host of this error.
    pub fn message(&self) -> (text: String)
        ensures
            text@ == error_text(self@),
    {
        match self {
            ProvisionError::Network(detail) => join(
                "failed to download the language server: ",
                detail.as_str(),
            ),
            ProvisionError::Filesystem(detail) => join(
                "failed to write the language server to disk: ",
                detail.as_str(),
            ),
            ProvisionError::Permission(detail) => join(
                "failed to make the language server executable: ",
                detail.as_str(),
            ),
        }
    }
}

/// The model of what an outside step gave: its value, or what went wrong.
pub open spec fn outcome_model(outcome: Result<(), String>) -> Result<(), Seq<char>> {
    match outcome {
        Ok(_) => Ok(()),
        Err(detail) => Err(detail@),
    }
}

impl View for ResolveEvent {
    type V = EventModel;

    open spec fn view(&self) -> EventModel {
        match *self {
            ResolveEvent::Requested => EventModel::Requested,
            ResolveEvent::FileChecked { is_file } => EventModel::FileChecked { is_file },
            ResolveEvent::StatusReported => EventModel::StatusReported,
            ResolveEvent::Fetched { payload } => EventModel::Fetched {
                payload: match payload {
                    Ok(contents) => Ok(contents@),
                    Err(detail) => Err(detail@),
                },
            },
            ResolveEvent::Written { outcome } => EventModel::Written {
                outcome: outcome_model(outcome),
            },
            ResolveEvent::MadeExecutable { outcome } => EventModel::MadeExecutable {
                outcome: outcome_model(outcome),
            },
        }
    }
}

impl View for ResolveAction {
    type V = ActionModel;

    open spec fn view(&self) -> ActionModel {
        match *self {
            ResolveAction::CheckFile { path } => ActionModel::CheckFile { path: path@ },
            ResolveAction::ReportDownloading => ActionModel::ReportDownloading,
            ResolveAction::Fetch { url } => ActionModel::Fetch { url: url@ },
            ResolveAction::WriteFile { path, contents } => ActionModel::WriteFile {
                path: path@,
                contents: contents@,
            },
            ResolveAction::MakeExecutable { path } => ActionModel::MakeExecutable { path: path@ },
            ResolveAction::Finish { outcome } => ActionModel::Finish {
                outcome: match outcome {
                    Ok(path) => Ok(path@),
                    Err(error) => Err(error@),
                },
            },
        }
    }
}

/// One step of a resolution: from the cached path and what the host handed
/// back, the cached path from now on and what to ask of the host next.
///
/// A request is answered from the cache where the cached path still names a
/// regular file. Otherwise the binary is fetched, written, made executable,
/// and only then cached. A failure ends the resolution and leaves the cache
/// as it was.
pub open spec fn step(cache: Option<Seq<char>>, event: EventModel) -> (
    Option<Seq<char>>,
    ActionModel,
) {
    match event {
        EventModel::Requested => match cache {
            Some(path) => (cache, ActionModel::CheckFile { path }),
            None => (cache, ActionModel::ReportDownloading),
        },
        EventModel::FileChecked { is_file } => match cache {
            Some(path) if is_file => (cache, ActionModel::Finish { outcome: Ok(path) }),
            _ => (cache, ActionModel::ReportDownloading),
        },
        EventModel::StatusReported => (cache, ActionModel::Fetch { url: DOWNLOAD_URL@ }),
        EventModel::Fetched { payload } => match payload {
            Ok(contents) => (cache, ActionModel::WriteFile { path: BINARY_PATH@, contents }),
            Err(detail) => (
                cache,
                ActionModel::Finish { outcome: Err(ErrorModel::Network(detail)) },
            ),
        },
        EventModel::Written { outcome } => match outcome {
            Ok(_) => (cache, ActionModel::MakeExecutable { path: BINARY_PATH@ }),
            Err(detail) => (
                cache,
                ActionModel::Finish { outcome: Err(ErrorModel::Filesystem(detail)) },
            ),
        },
        EventModel::MadeExecutable { outcome } => match outcome {
            Ok(_) => (Some(BINARY_PATH@), ActionModel::Finish { outcome: Ok(BINARY_PATH@) }),
            Err(detail) => (
                cache,
                ActionModel::Finish { outcome: Err(ErrorModel::Permission(detail)) },
            ),
        },
    }
}

/// What the host finds and does during one resolution: its answer to each
/// thing that the extension may ask of it.
pub struct Host {
    /// Whether the cached path names a regular file.
    pub cached_file_found: bool,
    /// What a fetch of the binary gives.
    pub fetched: Result<Seq<u8>, Seq<char>>,
    /// How writing the binary to its file ends.
    pub written: Result<(), Seq<char>>,
    /// How making the file executable ends.
    pub made_executable: Result<(), Seq<char>>,
}

/// What `host` hands back after it has done what `action` asks. `Finish` asks
/// nothing: what the host hands over after it is the next request.
pub open spec fn answer(host: Host, action: ActionModel) -> EventModel {
    match action {
        ActionModel::CheckFile { .. } => EventModel::FileChecked {
            is_file: host.cached_file_found,
        },
        ActionModel::ReportDownloading => EventModel::StatusReported,
        ActionModel::Fetch { .. } => EventModel::Fetched { payload: host.fetched },
        ActionModel::WriteFile { .. } => EventModel::Written { outcome: host.written },
        ActionModel::MakeExecutable { .. } => EventModel::MadeExecutable {
            outcome: host.made_executable,
        },
        ActionModel::Finish { .. } => EventModel::Requested,
    }
}

/// How many steps a resolution can still take after `event` was handed back.
pub open spec fn steps_left(event: EventModel) -> nat {
    match event {
        EventModel::Requested => 5,
        EventModel::FileChecked { .. } => 4,
        EventModel::StatusReported => 3,
        EventModel::Fetched { .. } => 2,
        EventModel::Written { .. } => 1,
        EventModel::MadeExecutable { .. } => 0,
    }
}

/// A resolution as it ran: what was asked of the host, in order, and the
/// cached path that it left.
pub struct Resolution {
    pub cache: Option<Seq<char>>,
    pub actions: Seq<ActionModel>,
}

/// The resolution that goes on from `event` with `host`: step by step, each
/// action answered by the host, until a step says `Finish`.
pub open spec fn resolve_from(cache: Option<Seq<char>>, event: EventModel, host: Host) -> Resolution
    decreases steps_left(event),
{
    let (next, action) = step(cache, event);
    if action is Finish {
        Resolution { cache: next, actions: seq![action] }
    } else {
        let rest = resolve_from(next, answer(host, action), host);
        Resolution { cache: rest.cache, actions: seq![action] + rest.actions }
    }
}

/// The resolution that a request of the binary's path sets off.
pub open spec fn resolve(cache: Option<Seq<char>>, host: Host) -> Resolution {
    resolve_from(cache, EventModel::Requested, host)
}

/// How many of `actions` are fetches.
pub open spec fn count_fetches(actions: Seq<ActionModel>) -> nat
    decreases actions.len(),
{
    if actions.len() == 0 {
        0
    } else {
        (if actions[0] is Fetch {
            1nat
        } else {
            0nat
        }) + count_fetches(actions.drop_first())
    }
}

impl Resolution {
    /// What the resolution gave the host in the end.
    pub open spec fn outcome(self) -> Result<Seq<char>, ErrorModel>
        recommends
            self.actions.len() > 0,
            self.actions.last() is Finish,
    {
        self.actions.last()->Finish_outcome
    }

    /// How many times the binary was fetched.
    pub open spec fn fetches(self) -> nat {
        count_fetches(self.actions)
    }
}

} // verus!
