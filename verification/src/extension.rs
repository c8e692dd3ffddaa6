use crate::format::label_model;
use crate::label::{CodeLabel, Completion};
use crate::provision::{
    step, ProvisionError, ResolveAction, ResolveEvent, BINARY_PATH, DOWNLOAD_URL,
};
use crate::text::utf8;
use vstd::prelude::*;

verus! {

/// How the editor starts the language server: the program, its arguments and
/// the environment variables set for it.
#[derive(Clone, Debug, PartialEq, Eq)]
pub struct Command {
    pub command: String,
    pub args: Vec<String>,
    pub env: Vec<(String, String)>,
}

/// The extension: it remembers where the language server's binary was put.
pub struct ApexExtension {
    cached_binary_path: Option<String>,
}

impl View for ApexExtension {
    type V = Option<Seq<char>>;

    /// The cached path of the binary, if one is cached.
    closed spec fn view(&self) -> Option<Seq<char>> {
        match self.cached_binary_path {
            Some(path) => Some(path@),
            None => None,
        }
    }
}

impl ApexExtension {
    /// An extension that has cached no path yet.
    pub fn new() -> (extension: ApexExtension)
        ensures
            extension@ is None,
    {
        ApexExtension { cached_binary_path: None }
    }

    /// The cached path of the binary, if one is cached.
    pub fn cached_binary_path(&self) -> (path: Option<&String>)
        ensures
            match self@ {
                Some(cached) => path is Some && path->Some_0@ == cached,
                None => path is None,
            },
    {
        self.cached_binary_path.as_ref()
    }

    /// One step of resolving the path of the language server's binary: takes
    /// what the host handed back, and says what to ask of the host next. The
    /// host starts with `Requested`, does what each action asks and hands the
    /// answer back, until the action is `Finish`.
    pub fn language_server_binary_path(&mut self, event: ResolveEvent) -> (action: ResolveAction)
        ensures
            (final(self)@, action@) == step(old(self)@, event@),
    {
        match event {
            ResolveEvent::Requested => match &self.cached_binary_path {
                Some(path) => ResolveAction::CheckFile { path: path.clone() },
                None => ResolveAction::ReportDownloading,
            },
            ResolveEvent::FileChecked { is_file } => match &self.cached_binary_path {
                Some(path) if is_file => ResolveAction::Finish { outcome: Ok(path.clone()) },
                _ => ResolveAction::ReportDownloading,
            },
            ResolveEvent::StatusReported => ResolveAction::Fetch { url: DOWNLOAD_URL.to_owned() },
            ResolveEvent::Fetched { payload } => match payload {
                Ok(contents) => ResolveAction::WriteFile { path: BINARY_PATH.to_owned(), contents },
                Err(detail) => ResolveAction::Finish {
                    outcome: Err(ProvisionError::Network(detail)),
                },
            },
            ResolveEvent::Written { outcome } => match outcome {
                Ok(_) => ResolveAction::MakeExecutable { path: BINARY_PATH.to_owned() },
                Err(detail) => ResolveAction::Finish {
                    outcome: Err(ProvisionError::Filesystem(detail)),
                },
            },
            ResolveEvent::MadeExecutable { outcome } => match outcome {
                Ok(_) => {
                    self.cached_binary_path = Some(BINARY_PATH.to_owned());
                    ResolveAction::Finish { outcome: Ok(BINARY_PATH.to_owned()) }
                },
                Err(detail) => ResolveAction::Finish {
                    outcome: Err(ProvisionError::Permission(detail)),
                },
            },
        }
    }

    /// The command that starts the language server, from what the resolution
    /// of the binary's path gave: the binary, with no arguments and no
    /// environment of its own. An error of the resolution is handed on.
    pub fn language_server_command(resolved: Result<String, ProvisionError>) -> (r: Result<
        Command,
        ProvisionError,
    >)
        ensures
            match resolved {
                Ok(path) => r matches Ok(command) && command.command@ == path@
                    && command.args@.len() == 0 && command.env@.len() == 0,
                Err(error) => r matches Err(handed_on) && handed_on@ == error@,
            },
    {
        match resolved {
            Ok(path) => Ok(Command { command: path, args: Vec::new(), env: Vec::new() }),
            Err(error) => Err(error),
        }
    }

    /// The label under which the editor shows a suggestion. `None` where the
    /// suggestion has no kind or a kind without a rule, and where its raw
    /// label lacks the separator that the kind's rule parts it at. The ranges
    /// of the label count bytes, and none of them cuts a character in two.
    pub fn label_for_completion(&self, completion: Completion) -> (r: Option<CodeLabel>)
        ensures
            match label_model(utf8(completion.label@), completion.kind) {
                Some(model) => r is Some && r->Some_0@ == model,
                None => r is None,
            },
            r matches Some(label) ==> label@.wf() && label@.cuts_no_character(),
    {
        crate::format::format(completion)
    }
}

} // verus!
