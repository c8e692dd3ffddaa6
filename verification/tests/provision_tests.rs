use zed_apex::extension::{ApexExtension, Command};
use zed_apex::provision::{
    ProvisionError, ResolveAction, ResolveEvent, BINARY_PATH, DOWNLOAD_URL,
};

/// A host that answers from fixed values and counts what it is asked.
struct Host {
    file_present: bool,
    fetched: Result<Vec<u8>, String>,
    written: Result<(), String>,
    made_executable: Result<(), String>,
    fetches: usize,
    asked: Vec<String>,
    stored: Option<Vec<u8>>,
}

impl Host {
    fn new(file_present: bool) -> Host {
        Host {
            file_present,
            fetched: Ok(vec![0x50, 0x4b, 0x03, 0x04]),
            written: Ok(()),
            made_executable: Ok(()),
            fetches: 0,
            asked: Vec::new(),
            stored: None,
        }
    }

    /// Runs one resolution: does what each action asks until `Finish`.
    fn resolve(&mut self, extension: &mut ApexExtension) -> Result<String, ProvisionError> {
        let mut event = ResolveEvent::Requested;
        loop {
            event = match extension.language_server_binary_path(event) {
                ResolveAction::CheckFile { path } => {
                    self.asked.push(format!("check {path}"));
                    ResolveEvent::FileChecked { is_file: self.file_present }
                }
                ResolveAction::ReportDownloading => {
                    self.asked.push("report".to_string());
                    ResolveEvent::StatusReported
                }
                ResolveAction::Fetch { url } => {
                    self.asked.push(format!("fetch {url}"));
                    self.fetches += 1;
                    ResolveEvent::Fetched { payload: self.fetched.clone() }
                }
                ResolveAction::WriteFile { path, contents } => {
                    self.asked.push(format!("write {path}"));
                    if self.written.is_ok() {
                        self.stored = Some(contents);
                        self.file_present = true;
                    }
                    ResolveEvent::Written { outcome: self.written.clone() }
                }
                ResolveAction::MakeExecutable { path } => {
                    self.asked.push(format!("mark {path}"));
                    ResolveEvent::MadeExecutable { outcome: self.made_executable.clone() }
                }
                ResolveAction::Finish { outcome } => return outcome,
            };
        }
    }
}

#[test]
fn new_extension_has_no_cached_path() {
    let extension = ApexExtension::new();
    assert_eq!(extension.cached_binary_path(), None);
}

#[test]
fn fixed_names_of_the_download() {
    assert_eq!(BINARY_PATH, "apex-jorje-lsp.jar");
    assert_eq!(
        DOWNLOAD_URL,
        "https://raw.githubusercontent.com/forcedotcom/salesforcedx-vscode/develop/packages/salesforcedx-vscode-apex/out/apex-jorje-lsp.jar"
    );
}

#[test]
fn first_request_downloads_and_caches() {
    let mut extension = ApexExtension::new();
    let mut host = Host::new(false);
    assert_eq!(host.resolve(&mut extension), Ok("apex-jorje-lsp.jar".to_string()));
    assert_eq!(
        host.asked,
        vec![
            "report".to_string(),
            format!("fetch {DOWNLOAD_URL}"),
            "write apex-jorje-lsp.jar".to_string(),
            "mark apex-jorje-lsp.jar".to_string(),
        ]
    );
    assert_eq!(host.fetches, 1);
    assert_eq!(host.stored, Some(vec![0x50, 0x4b, 0x03, 0x04]));
    assert_eq!(extension.cached_binary_path(), Some(&"apex-jorje-lsp.jar".to_string()));
}

#[test]
fn second_request_is_answered_from_the_cache() {
    let mut extension = ApexExtension::new();
    let mut host = Host::new(false);
    assert_eq!(host.resolve(&mut extension), Ok("apex-jorje-lsp.jar".to_string()));
    host.asked.clear();
    assert_eq!(host.resolve(&mut extension), Ok("apex-jorje-lsp.jar".to_string()));
    assert_eq!(host.asked, vec!["check apex-jorje-lsp.jar".to_string()]);
    assert_eq!(host.fetches, 1);
    assert_eq!(extension.cached_binary_path(), Some(&"apex-jorje-lsp.jar".to_string()));
}

#[test]
fn request_after_the_file_was_removed_downloads_again() {
    let mut extension = ApexExtension::new();
    let mut host = Host::new(false);
    assert_eq!(host.resolve(&mut extension), Ok("apex-jorje-lsp.jar".to_string()));
    host.file_present = false;
    host.asked.clear();
    assert_eq!(host.resolve(&mut extension), Ok("apex-jorje-lsp.jar".to_string()));
    assert_eq!(
        host.asked,
        vec![
            "check apex-jorje-lsp.jar".to_string(),
            "report".to_string(),
            format!("fetch {DOWNLOAD_URL}"),
            "write apex-jorje-lsp.jar".to_string(),
            "mark apex-jorje-lsp.jar".to_string(),
        ]
    );
    assert_eq!(host.fetches, 2);
}

#[test]
fn failed_fetch_is_a_network_error() {
    let mut extension = ApexExtension::new();
    let mut host = Host::new(false);
    host.fetched = Err("connection refused".to_string());
    assert_eq!(
        host.resolve(&mut extension),
        Err(ProvisionError::Network("connection refused".to_string()))
    );
    assert_eq!(host.asked, vec!["report".to_string(), format!("fetch {DOWNLOAD_URL}")]);
    assert_eq!(extension.cached_binary_path(), None);
}

#[test]
fn failed_write_is_a_filesystem_error() {
    let mut extension = ApexExtension::new();
    let mut host = Host::new(false);
    host.written = Err("disk full".to_string());
    assert_eq!(
        host.resolve(&mut extension),
        Err(ProvisionError::Filesystem("disk full".to_string()))
    );
    assert_eq!(
        host.asked,
        vec![
            "report".to_string(),
            format!("fetch {DOWNLOAD_URL}"),
            "write apex-jorje-lsp.jar".to_string(),
        ]
    );
    assert_eq!(extension.cached_binary_path(), None);
}

#[test]
fn failed_change_of_mode_is_a_permission_error() {
    let mut extension = ApexExtension::new();
    let mut host = Host::new(false);
    host.made_executable = Err("operation not permitted".to_string());
    assert_eq!(
        host.resolve(&mut extension),
        Err(ProvisionError::Permission("operation not permitted".to_string()))
    );
    assert_eq!(host.asked.len(), 4);
    assert_eq!(extension.cached_binary_path(), None);
}

#[test]
fn request_after_a_failure_starts_over() {
    let mut extension = ApexExtension::new();
    let mut host = Host::new(false);
    host.fetched = Err("timed out".to_string());
    assert!(host.resolve(&mut extension).is_err());
    host.fetched = Ok(vec![1, 2, 3]);
    host.asked.clear();
    assert_eq!(host.resolve(&mut extension), Ok("apex-jorje-lsp.jar".to_string()));
    assert_eq!(host.asked[0], "report");
    assert_eq!(host.fetches, 2);
    assert_eq!(host.stored, Some(vec![1, 2, 3]));
}

#[test]
fn failure_leaves_an_earlier_cache_in_place() {
    let mut extension = ApexExtension::new();
    let mut host = Host::new(false);
    assert!(host.resolve(&mut extension).is_ok());
    host.file_present = false;
    host.written = Err("read-only".to_string());
    assert_eq!(
        host.resolve(&mut extension),
        Err(ProvisionError::Filesystem("read-only".to_string()))
    );
    assert_eq!(extension.cached_binary_path(), Some(&"apex-jorje-lsp.jar".to_string()));
}

#[test]
fn each_step_asks_for_the_next() {
    let mut extension = ApexExtension::new();
    assert_eq!(
        extension.language_server_binary_path(ResolveEvent::Requested),
        ResolveAction::ReportDownloading
    );
    assert_eq!(
        extension.language_server_binary_path(ResolveEvent::FileChecked { is_file: true }),
        ResolveAction::ReportDownloading
    );
    assert_eq!(
        extension.language_server_binary_path(ResolveEvent::StatusReported),
        ResolveAction::Fetch { url: DOWNLOAD_URL.to_string() }
    );
    assert_eq!(
        extension.language_server_binary_path(ResolveEvent::Fetched { payload: Ok(vec![7, 8]) }),
        ResolveAction::WriteFile { path: BINARY_PATH.to_string(), contents: vec![7, 8] }
    );
    assert_eq!(
        extension.language_server_binary_path(ResolveEvent::Written { outcome: Ok(()) }),
        ResolveAction::MakeExecutable { path: BINARY_PATH.to_string() }
    );
    assert_eq!(extension.cached_binary_path(), None);
    assert_eq!(
        extension.language_server_binary_path(ResolveEvent::MadeExecutable { outcome: Ok(()) }),
        ResolveAction::Finish { outcome: Ok(BINARY_PATH.to_string()) }
    );
    assert_eq!(extension.cached_binary_path(), Some(&BINARY_PATH.to_string()));
    assert_eq!(
        extension.language_server_binary_path(ResolveEvent::Requested),
        ResolveAction::CheckFile { path: BINARY_PATH.to_string() }
    );
    assert_eq!(
        extension.language_server_binary_path(ResolveEvent::FileChecked { is_file: true }),
        ResolveAction::Finish { outcome: Ok(BINARY_PATH.to_string()) }
    );
    assert_eq!(
        extension.language_server_binary_path(ResolveEvent::FileChecked { is_file: false }),
        ResolveAction::ReportDownloading
    );
}

#[test]
fn error_message_names_the_step_and_the_cause() {
    assert_eq!(
        ProvisionError::Network("connection refused".to_string()).message(),
        "failed to download the language server: connection refused"
    );
    assert_eq!(
        ProvisionError::Filesystem("disk full".to_string()).message(),
        "failed to write the language server to disk: disk full"
    );
    assert_eq!(
        ProvisionError::Permission("operation not permitted".to_string()).message(),
        "failed to make the language server executable: operation not permitted"
    );
}

#[test]
fn command_runs_the_binary_without_arguments() {
    assert_eq!(
        ApexExtension::language_server_command(Ok("apex-jorje-lsp.jar".to_string())),
        Ok(Command { command: "apex-jorje-lsp.jar".to_string(), args: vec![], env: vec![] })
    );
}

#[test]
fn command_hands_an_error_on() {
    assert_eq!(
        ApexExtension::language_server_command(Err(ProvisionError::Network("down".to_string()))),
        Err(ProvisionError::Network("down".to_string()))
    );
}
