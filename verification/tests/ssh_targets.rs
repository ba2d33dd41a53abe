use std::cell::RefCell;

use explora::config_text::{begin_config_file, discover_aliases, include_patterns, invalid_include_pattern, resolve_identities_only, MAX_INCLUDE_DEPTH};
use explora::filesystem::ExplorerError;
use explora::ssh_targets::{
    endpoint, expand_home, join, location_id, normalized_optional, validate_input, ManualSshTargetInputDto,
    SshTargetEnvironment, SshTargetSource, SshTargetStore, StoredTarget, StoredTargetsDocument, StoredTargetsRead,
};

struct MemoryEnvironment {
    saved: RefCell<Option<Vec<StoredTarget>>>,
    config: String,
    files: Vec<String>,
}

impl MemoryEnvironment {
    fn new(config: &str) -> MemoryEnvironment {
        MemoryEnvironment { saved: RefCell::new(None), config: config.to_owned(), files: Vec::new() }
    }
}

impl SshTargetEnvironment for MemoryEnvironment {
    fn persist(&self, targets: &Vec<StoredTarget>) -> Result<(), ExplorerError> {
        *self.saved.borrow_mut() = Some(targets.clone());
        Ok(())
    }

    fn is_file(&self, path: &str) -> bool {
        self.files.iter().any(|f| f == path)
    }

    fn read_config(&self) -> Result<String, ExplorerError> {
        Ok(self.config.clone())
    }
}

fn input() -> ManualSshTargetInputDto {
    ManualSshTargetInputDto {
        name: "Staging".to_owned(),
        host: "staging.example.com".to_owned(),
        port: 22,
        username: "deploy".to_owned(),
        initial_path: Some("/srv/app".to_owned()),
        identity_file: None,
        identities_only: false,
    }
}

const CONFIG: &str =
    "Host *\n  User yunho\nHost staging *.internal !blocked\n  HostName 10.0.0.5\nHost jump-only\n  ProxyJump bastion\n";

#[test]
fn persists_only_non_secret_target_metadata() {
    let mut store =
        SshTargetStore::new(MemoryEnvironment::new(""), "/home/me".to_owned(), StoredTargetsRead::Missing).expect("store");
    let summary = store.create(input()).expect("target");
    assert_eq!(summary.name, "Staging");
    assert_eq!(summary.source, SshTargetSource::Manual);
    assert!(summary.id.starts_with("manual:"));
    assert_eq!(summary.location_id, format!("ssh:{}", summary.id));
    assert_eq!(summary.endpoint, "deploy@staging.example.com");
}

#[test]
fn discovers_only_concrete_config_aliases_and_rejects_proxies() {
    let store =
        SshTargetStore::new(MemoryEnvironment::new(CONFIG), "/home/me".to_owned(), StoredTargetsRead::Missing).expect("store");
    let targets = store.list().expect("targets");
    assert!(targets.iter().any(|target| target.name == "staging"));
    assert!(!targets.iter().any(|target| target.name == "*.internal"));
    assert!(matches!(store.resolve("config:jump-only"), Err(ExplorerError::Unsupported(_))));
}

#[test]
fn config_aliases_skip_patterns_and_negations() {
    assert_eq!(discover_aliases(CONFIG), vec!["staging".to_owned(), "jump-only".to_owned()]);
    assert_eq!(discover_aliases("host a b\n  hostname x\nHost a\n"), vec!["a".to_owned(), "b".to_owned()]);
    assert!(discover_aliases("").is_empty());
}

#[test]
fn config_aliases_resolve_through_the_parsed_configuration() {
    let store =
        SshTargetStore::new(MemoryEnvironment::new(CONFIG), "/home/me".to_owned(), StoredTargetsRead::Missing).expect("store");
    let staging = store.resolve("config:staging").expect("staging");
    assert_eq!(staging.host, "10.0.0.5");
    assert_eq!(staging.username, "yunho");
    assert_eq!(staging.port, 22);
    assert_eq!(staging.id, "config:staging");
}

#[test]
fn identities_only_is_read_from_the_matching_host_block() {
    let config = "Host a\n  IdentitiesOnly yes\nHost b\n  IdentitiesOnly no\n";
    assert!(resolve_identities_only(config, "a"));
    assert!(!resolve_identities_only(config, "b"));
    assert!(!resolve_identities_only(config, "c"));
}

#[test]
fn created_targets_can_be_updated_resolved_and_deleted() {
    let mut store =
        SshTargetStore::new(MemoryEnvironment::new(""), "/home/me".to_owned(), StoredTargetsRead::Missing).expect("store");
    let created = store.create(input()).expect("create");
    let mut changed = input();
    changed.port = 2222;
    changed.identity_file = Some("~/.ssh/deploy".to_owned());
    let updated = store.update(&created.id, changed).expect("update");
    assert_eq!(updated.endpoint, "deploy@staging.example.com:2222");

    let resolved = store.resolve(&created.id).expect("resolve");
    assert_eq!(resolved.port, 2222);
    assert_eq!(resolved.identity_files, vec!["/home/me/.ssh/deploy".to_owned()]);
    assert_eq!(resolved.known_hosts_path, "/home/me/.ssh/known_hosts");
    assert_eq!(resolved.initial_path, "/srv/app");

    store.delete(&created.id).expect("delete");
    assert!(matches!(store.resolve(&created.id), Err(ExplorerError::InvalidReference)));
    assert!(matches!(store.delete(&created.id), Err(ExplorerError::InvalidReference)));
    assert!(matches!(store.update(&created.id, input()), Err(ExplorerError::InvalidReference)));
}

#[test]
fn stored_targets_are_listed_first() {
    let document = StoredTargetsDocument {
        version: 1,
        targets: vec![StoredTarget {
            id: "manual:1".to_owned(),
            name: "Saved".to_owned(),
            host: "saved.example.com".to_owned(),
            port: 22,
            username: "me".to_owned(),
            initial_path: None,
            identity_file: None,
            identities_only: false,
        }],
    };
    let store = SshTargetStore::new(
        MemoryEnvironment::new(CONFIG),
        "/home/me".to_owned(),
        StoredTargetsRead::Document(document),
    )
    .expect("store");
    let targets = store.list().expect("targets");
    assert_eq!(targets[0].name, "Saved");
    assert!(targets[0].editable);
    assert!(targets[1..].iter().all(|t| t.source == SshTargetSource::OpenSshConfig && !t.editable));
}

#[test]
fn invalid_inputs_are_refused_with_a_reason() {
    let mut bad = input();
    bad.name = "   ".to_owned();
    assert_eq!(
        validate_input(&bad),
        Err(ExplorerError::InvalidConfiguration("The SSH target name is invalid.".to_owned()))
    );
    let mut bad_port = input();
    bad_port.port = 0;
    assert_eq!(
        validate_input(&bad_port),
        Err(ExplorerError::InvalidConfiguration("The SSH target port must be between 1 and 65535.".to_owned()))
    );
    let mut store =
        SshTargetStore::new(MemoryEnvironment::new(""), "/home/me".to_owned(), StoredTargetsRead::Missing).expect("store");
    assert!(store.create(bad).is_err());
    assert!(store.list().expect("list").is_empty());
}

#[test]
fn path_helpers_follow_unix_semantics() {
    assert_eq!(join("/home/me", ".ssh"), "/home/me/.ssh");
    assert_eq!(join("/home/me/", ".ssh"), "/home/me/.ssh");
    assert_eq!(join("/home/me", "/etc/ssh"), "/etc/ssh");
    assert_eq!(expand_home("~/.ssh/id", "/home/me"), "/home/me/.ssh/id");
    assert_eq!(expand_home("/abs/id", "/home/me"), "/abs/id");
    assert_eq!(normalized_optional(Some("  /srv ".to_owned())), Some("/srv".to_owned()));
    assert_eq!(normalized_optional(Some("   ".to_owned())), None);
    assert_eq!(location_id("manual:1"), "ssh:manual:1");
    assert_eq!(endpoint("me", "host", 22), "me@host");
    assert_eq!(endpoint("me", "host", 2200), "me@host:2200");
}

#[test]
fn include_lines_name_unquoted_home_relative_patterns() {
    assert_eq!(
        include_patterns("  Include ~/.ssh/config.d/* \"/etc/ssh/extra\"", "/home/me"),
        Some(vec!["/home/me/.ssh/config.d/*".to_owned(), "/etc/ssh/extra".to_owned()])
    );
    assert_eq!(include_patterns("include 'conf'", "/home/me"), Some(vec!["conf".to_owned()]));
    assert_eq!(include_patterns("Host include", "/home/me"), None);
    assert_eq!(include_patterns("Include", "/home/me"), None);
}

#[test]
fn a_failed_configuration_read_fails_the_list_and_a_read_one_is_listed() {
    let store =
        SshTargetStore::new(MemoryEnvironment::new(""), "/home/me".to_owned(), StoredTargetsRead::Missing).expect("store");
    let failure = ExplorerError::InvalidConfiguration("unreadable".to_owned());
    assert_eq!(store.summaries_with_config(Err(failure.clone())), Err(failure));
    let listed = store.summaries_with_config(Ok("Host one two\n".to_owned())).expect("listed");
    let names: Vec<String> = listed.iter().map(|t| t.name.clone()).collect();
    assert_eq!(names, vec!["one".to_owned(), "two".to_owned()]);
    assert!(listed.iter().all(|t| t.source == SshTargetSource::OpenSshConfig && !t.editable));
}

#[test]
fn saved_targets_change_only_when_the_save_succeeds() {
    let mut store =
        SshTargetStore::new(MemoryEnvironment::new(""), "/home/me".to_owned(), StoredTargetsRead::Missing).expect("store");
    store.create(input()).expect("created");
    let failure = ExplorerError::InvalidConfiguration("read-only".to_owned());
    assert_eq!(store.commit_targets(Vec::new(), Err(failure.clone())), Err(failure));
    assert_eq!(store.list().expect("list").len(), 1);
    assert_eq!(store.commit_targets(Vec::new(), Ok(())), Ok(()));
    assert!(store.list().expect("list").is_empty());
}

#[test]
fn configuration_includes_are_read_once_and_not_too_deep() {
    let mut visited = Vec::new();
    assert_eq!(begin_config_file(&mut visited, 0, "/home/me/.ssh/config"), Ok(true));
    assert_eq!(begin_config_file(&mut visited, 1, "/home/me/.ssh/config"), Ok(false));
    assert_eq!(begin_config_file(&mut visited, MAX_INCLUDE_DEPTH, "/home/me/.ssh/other"), Ok(true));
    assert_eq!(
        begin_config_file(&mut visited, MAX_INCLUDE_DEPTH + 1, "/home/me/.ssh/deep"),
        Err(ExplorerError::InvalidConfiguration("OpenSSH config includes are nested too deeply.".to_owned()))
    );
    assert_eq!(visited.len(), 2);
    assert_eq!(invalid_include_pattern(), ExplorerError::InvalidConfiguration("An OpenSSH Include pattern is invalid.".to_owned()));
}

#[test]
fn prepared_target_changes_are_what_is_saved() {
    let mut store =
        SshTargetStore::new(MemoryEnvironment::new(""), "/home/me".to_owned(), StoredTargetsRead::Missing).expect("store");
    let (created, summary) = store.prepare_create(&input(), "00000000-0000-4000-8000-000000000000").expect("prepared");
    assert_eq!(created.len(), 1);
    assert_eq!(summary.id, "manual:00000000-0000-4000-8000-000000000000");
    store.commit_targets(created, Ok(())).expect("committed");
    let mut changed = input();
    changed.name = "Production".to_owned();
    let (updated, summary) = store.prepare_update(&summary.id, &changed).expect("prepared update");
    assert_eq!(updated[0].name, "Production");
    assert_eq!(summary.name, "Production");
    assert_eq!(store.prepare_update("manual:unknown", &changed).err(), Some(ExplorerError::InvalidReference));
    let remaining = store.prepare_delete(&summary.id).expect("prepared delete");
    assert!(remaining.is_empty());
    assert_eq!(store.prepare_delete("manual:unknown").err(), Some(ExplorerError::InvalidReference));
}
