//! SSH targets: manual targets that the user saves, aliases found in the OpenSSH client
//! configuration, and how either becomes a connection target.

use vstd::prelude::*;

use crate::config_text::{config_aliases, discover_aliases, identities_only, resolve_identities_only};
use crate::filesystem::ExplorerError;
use crate::gio::{opt_clone, opt_view};
use crate::ids::{is_uuid_text, random_id};
use crate::text::{
    any_control, chars_of, decimal, decimal_string, has_control_char, position_of, starts_with, str_eq,
    str_starts_with, trim, trimmed, views,
};

verus! {

broadcast use vstd::seq_lib::group_seq_properties;

pub const TARGETS_FILE_VERSION: u32 = 1;

#[derive(Debug, Clone, Copy, PartialEq, Eq, Structural)]
pub enum SshTargetSource {
    Manual,
    OpenSshConfig,
}

/// What the user enters for a manual target.
#[derive(Debug, Clone, PartialEq, Eq)]
pub struct ManualSshTargetInputDto {
    pub name: String,
    pub host: String,
    pub port: u16,
    pub username: String,
    pub initial_path: Option<String>,
    pub identity_file: Option<String>,
    pub identities_only: bool,
}

#[derive(Debug, Clone, PartialEq, Eq)]
pub struct SshTargetSummaryDto {
    pub id: String,
    pub location_id: String,
    pub name: String,
    pub source: SshTargetSource,
    pub endpoint: String,
    pub status: String,
    pub editable: bool,
    pub connected_location_id: Option<String>,
    pub configuration: Option<ManualSshTargetInputDto>,
}

/// A manual target as it is saved: no secret is ever part of it.
#[derive(Debug, Clone, PartialEq, Eq)]
pub struct StoredTarget {
    pub id: String,
    pub name: String,
    pub host: String,
    pub port: u16,
    pub username: String,
    pub initial_path: Option<String>,
    pub identity_file: Option<String>,
    pub identities_only: bool,
}

#[derive(Debug, Clone, PartialEq, Eq)]
pub struct StoredTargetsDocument {
    pub version: u32,
    pub targets: Vec<StoredTarget>,
}

/// What reading the saved targets found.
#[derive(Debug, Clone, PartialEq, Eq)]
pub enum StoredTargetsRead {
    Missing,
    Failed(ExplorerError),
    Malformed,
    Document(StoredTargetsDocument),
}

/// Everything a connection needs to know about a target.
#[derive(Debug, Clone, PartialEq, Eq)]
pub struct ResolvedSshTarget {
    pub id: String,
    pub name: String,
    pub host: String,
    pub port: u16,
    pub username: String,
    pub initial_path: String,
    pub identity_files: Vec<String>,
    pub identities_only: bool,
    pub known_hosts_path: String,
}

pub struct InputView {
    pub name: Seq<char>,
    pub host: Seq<char>,
    pub port: u16,
    pub username: Seq<char>,
    pub initial_path: Option<Seq<char>>,
    pub identity_file: Option<Seq<char>>,
    pub identities_only: bool,
}

impl View for ManualSshTargetInputDto {
    type V = InputView;

    open spec fn view(&self) -> InputView {
        InputView {
            name: self.name@,
            host: self.host@,
            port: self.port,
            username: self.username@,
            initial_path: opt_view(self.initial_path),
            identity_file: opt_view(self.identity_file),
            identities_only: self.identities_only,
        }
    }
}

pub struct TargetView {
    pub id: Seq<char>,
    pub name: Seq<char>,
    pub host: Seq<char>,
    pub port: u16,
    pub username: Seq<char>,
    pub initial_path: Option<Seq<char>>,
    pub identity_file: Option<Seq<char>>,
    pub identities_only: bool,
}

impl View for StoredTarget {
    type V = TargetView;

    open spec fn view(&self) -> TargetView {
        TargetView {
            id: self.id@,
            name: self.name@,
            host: self.host@,
            port: self.port,
            username: self.username@,
            initial_path: opt_view(self.initial_path),
            identity_file: opt_view(self.identity_file),
            identities_only: self.identities_only,
        }
    }
}

pub open spec fn target_views(v: Seq<StoredTarget>) -> Seq<TargetView> {
    v.map_values(|t: StoredTarget| t@)
}

pub struct SummaryView {
    pub id: Seq<char>,
    pub location_id: Seq<char>,
    pub name: Seq<char>,
    pub source: SshTargetSource,
    pub endpoint: Seq<char>,
    pub status: Seq<char>,
    pub editable: bool,
    pub connected_location_id: Option<Seq<char>>,
    pub configuration: Option<InputView>,
}

impl View for SshTargetSummaryDto {
    type V = SummaryView;

    open spec fn view(&self) -> SummaryView {
        SummaryView {
            id: self.id@,
            location_id: self.location_id@,
            name: self.name@,
            source: self.source,
            endpoint: self.endpoint@,
            status: self.status@,
            editable: self.editable,
            connected_location_id: opt_view(self.connected_location_id),
            configuration: match self.configuration {
                Some(c) => Some(c@),
                None => None,
            },
        }
    }
}

pub open spec fn utf8_len(s: Seq<char>) -> nat {
    vstd::utf8::encode_utf8(s).len()
}

/// A required field: after trimming, 1 to `max` bytes without control characters.
pub open spec fn required_field_valid(value: Seq<char>, max: nat) -> bool {
    let t = trim(value);
    1 <= utf8_len(t) && utf8_len(t) <= max && !has_control_char(t)
}

/// An optional field: at most 4096 bytes without control characters.
pub open spec fn optional_field_valid(value: Option<Seq<char>>) -> bool {
    match value {
        Some(v) => utf8_len(v) <= 4096 && !has_control_char(v),
        None => true,
    }
}

/// The first problem with an input, as the message that reports it; the fields are checked
/// in the order name, host, username, initial path, identity file, port.
pub open spec fn input_problem(input: InputView) -> Option<Seq<char>> {
    if !required_field_valid(input.name, 80) {
        Some("The SSH target name is invalid."@)
    } else if !required_field_valid(input.host, 255) {
        Some("The SSH target host is invalid."@)
    } else if !required_field_valid(input.username, 128) {
        Some("The SSH target username is invalid."@)
    } else if !optional_field_valid(input.initial_path) {
        Some("The SSH target initial path is invalid."@)
    } else if !optional_field_valid(input.identity_file) {
        Some("The SSH target identity file is invalid."@)
    } else if input.port == 0 {
        Some("The SSH target port must be between 1 and 65535."@)
    } else {
        None
    }
}

pub open spec fn unsupported_error(e: ExplorerError, message: Seq<char>) -> bool {
    e matches ExplorerError::Unsupported(m) && m@ == message
}

pub open spec fn configuration_error(e: ExplorerError, message: Seq<char>) -> bool {
    e matches ExplorerError::InvalidConfiguration(m) && m@ == message
}

fn required_field_ok(value: &String, max: usize) -> (r: bool)
    ensures
        r == required_field_valid(value@, max as nat),
{
    let t = trimmed(value.as_str());
    let n = t.as_str().as_bytes().len();
    if n == 0 || n > max {
        return false;
    }
    let chars = chars_of(t.as_str());
    !any_control(&chars)
}

fn optional_field_ok(value: &Option<String>) -> (r: bool)
    ensures
        r == optional_field_valid(opt_view(*value)),
{
    match value {
        Some(v) => {
            if v.as_str().as_bytes().len() > 4096 {
                return false;
            }
            let chars = chars_of(v.as_str());
            !any_control(&chars)
        },
        None => true,
    }
}

/// Checks a manual target input field by field.
pub fn validate_input(input: &ManualSshTargetInputDto) -> (r: Result<(), ExplorerError>)
    ensures
        match input_problem(input@) {
            Some(message) => r is Err && configuration_error(r->Err_0, message),
            None => r is Ok,
        },
{
    if !required_field_ok(&input.name, 80) {
        return Err(ExplorerError::InvalidConfiguration("The SSH target name is invalid.".to_owned()));
    }
    if !required_field_ok(&input.host, 255) {
        return Err(ExplorerError::InvalidConfiguration("The SSH target host is invalid.".to_owned()));
    }
    if !required_field_ok(&input.username, 128) {
        return Err(ExplorerError::InvalidConfiguration("The SSH target username is invalid.".to_owned()));
    }
    if !optional_field_ok(&input.initial_path) {
        return Err(ExplorerError::InvalidConfiguration("The SSH target initial path is invalid.".to_owned()));
    }
    if !optional_field_ok(&input.identity_file) {
        return Err(ExplorerError::InvalidConfiguration("The SSH target identity file is invalid.".to_owned()));
    }
    if input.port == 0 {
        return Err(ExplorerError::InvalidConfiguration("The SSH target port must be between 1 and 65535.".to_owned()));
    }
    Ok(())
}

/// An optional field trimmed, and absent if nothing is left.
pub open spec fn normalized(value: Option<Seq<char>>) -> Option<Seq<char>> {
    match value {
        Some(v) => if trim(v).len() > 0 { Some(trim(v)) } else { None },
        None => None,
    }
}

pub fn normalized_optional(value: Option<String>) -> (r: Option<String>)
    ensures
        opt_view(r) == normalized(opt_view(value)),
{
    match value {
        Some(v) => {
            let t = trimmed(v.as_str());
            if t.as_str().unicode_len() > 0 {
                Some(t)
            } else {
                None
            }
        },
        None => None,
    }
}

/// The location of a target: its id behind the `ssh:` scheme.
pub open spec fn ssh_location_id(target_id: Seq<char>) -> Seq<char> {
    "ssh:"@ + target_id
}

pub fn location_id(target_id: &str) -> (r: String)
    ensures
        r@ == ssh_location_id(target_id@),
{
    "ssh:".to_owned().concat(target_id)
}

/// `user@host`, with `:port` unless the port is the standard one.
pub open spec fn endpoint_text(username: Seq<char>, host: Seq<char>, port: u16) -> Seq<char> {
    if port == 22 {
        username + "@"@ + host
    } else {
        username + "@"@ + host + ":"@ + decimal(port as nat)
    }
}

pub fn endpoint(username: &str, host: &str, port: u16) -> (r: String)
    ensures
        r@ == endpoint_text(username@, host@, port),
{
    let base = username.to_owned().concat("@").concat(host);
    if port == 22 {
        base
    } else {
        let digits = decimal_string(port as u64);
        base.concat(":").concat(digits.as_str())
    }
}

pub open spec fn input_of(t: TargetView) -> InputView {
    InputView {
        name: t.name,
        host: t.host,
        port: t.port,
        username: t.username,
        initial_path: t.initial_path,
        identity_file: t.identity_file,
        identities_only: t.identities_only,
    }
}

/// How a saved manual target is listed.
pub open spec fn manual_summary(t: TargetView) -> SummaryView {
    SummaryView {
        id: t.id,
        location_id: ssh_location_id(t.id),
        name: t.name,
        source: SshTargetSource::Manual,
        endpoint: endpoint_text(t.username, t.host, t.port),
        status: "disconnected"@,
        editable: true,
        connected_location_id: None,
        configuration: Some(input_of(t)),
    }
}

pub fn summary_for_stored(target: &StoredTarget) -> (r: SshTargetSummaryDto)
    ensures
        r@ == manual_summary(target@),
{
    SshTargetSummaryDto {
        id: target.id.clone(),
        location_id: location_id(target.id.as_str()),
        name: target.name.clone(),
        source: SshTargetSource::Manual,
        endpoint: endpoint(target.username.as_str(), target.host.as_str(), target.port),
        status: "disconnected".to_owned(),
        editable: true,
        connected_location_id: None,
        configuration: Some(ManualSshTargetInputDto {
            name: target.name.clone(),
            host: target.host.clone(),
            port: target.port,
            username: target.username.clone(),
            initial_path: opt_clone(&target.initial_path),
            identity_file: opt_clone(&target.identity_file),
            identities_only: target.identities_only,
        }),
    }
}

/// `base.join(p)` as Unix paths join: an absolute `p` replaces `base`, and one separator
/// goes between them unless `base` is empty or already ends with one.
pub open spec fn join_path(base: Seq<char>, p: Seq<char>) -> Seq<char> {
    if p.len() > 0 && p[0] == '/' {
        p
    } else if base.len() == 0 {
        p
    } else if base.last() == '/' {
        base + p
    } else {
        base + "/"@ + p
    }
}

pub fn join(base: &str, p: &str) -> (r: String)
    ensures
        r@ == join_path(base@, p@),
{
    let pc = chars_of(p);
    let bc = chars_of(base);
    if pc.len() > 0 && pc[0] == '/' {
        p.to_owned()
    } else if bc.len() == 0 {
        p.to_owned()
    } else if bc[bc.len() - 1] == '/' {
        base.to_owned().concat(p)
    } else {
        base.to_owned().concat("/").concat(p)
    }
}

/// A `~/` prefix stands for the home directory.
pub open spec fn home_expanded(path: Seq<char>, home: Seq<char>) -> Seq<char> {
    if starts_with(path, "~/"@) {
        join_path(home, path.skip(2))
    } else {
        path
    }
}

pub fn expand_home(path: &str, home_dir: &str) -> (r: String)
    ensures
        r@ == home_expanded(path@, home_dir@),
{
    if str_starts_with(path, "~/") {
        proof {
            reveal_strlit("~/");
        }
        let chars = chars_of(path);
        let rest = crate::text::string_from_range(&chars, 2, chars.len());
        join(home_dir, rest.as_str())
    } else {
        path.to_owned()
    }
}

pub open spec fn ssh_dir(home: Seq<char>) -> Seq<char> {
    join_path(home, ".ssh"@)
}

pub open spec fn default_known_hosts(home: Seq<char>) -> Seq<char> {
    join_path(ssh_dir(home), "known_hosts"@)
}

/// The key files tried when none is configured, most preferred first.
pub open spec fn identity_candidates(home: Seq<char>) -> Seq<Seq<char>> {
    seq![
        join_path(ssh_dir(home), "id_ed25519"@),
        join_path(ssh_dir(home), "id_ecdsa"@),
        join_path(ssh_dir(home), "id_rsa"@),
    ]
}

/// The elements of `s` whose flag is set, in order.
pub open spec fn selected(s: Seq<Seq<char>>, flags: Seq<bool>) -> Seq<Seq<char>>
    decreases s.len(),
{
    if s.len() == 0 || flags.len() == 0 {
        Seq::empty()
    } else {
        let rest = selected(s.drop_last(), flags.drop_last());
        if flags.last() {
            rest.push(s.last())
        } else {
            rest
        }
    }
}

/// Where the target store meets the machine: the saved targets, the user's files and the
/// OpenSSH configuration. Nothing here is trusted to answer any particular way.
pub trait SshTargetEnvironment {
    /// Saves the manual targets, replacing what was saved before.
    fn persist(&self, targets: &Vec<StoredTarget>) -> Result<(), ExplorerError>;

    /// Whether a regular file exists at `path`.
    fn is_file(&self, path: &str) -> bool;

    /// The user's OpenSSH client configuration with its `Include`s expanded; empty text
    /// when there is none.
    fn read_config(&self) -> Result<String, ExplorerError>;
}

/// The default key files that exist.
pub fn default_identity_files<E: SshTargetEnvironment>(env: &E, home_dir: &str) -> (r: Vec<String>)
    ensures
        exists|flags: Seq<bool>| flags.len() == 3 && views(r@) == selected(identity_candidates(home_dir@), flags),
{
    let dir = join(home_dir, ".ssh");
    let candidates = vec![join(dir.as_str(), "id_ed25519"), join(dir.as_str(), "id_ecdsa"), join(dir.as_str(), "id_rsa")];
    let ghost cs = identity_candidates(home_dir@);
    assert(views(candidates@) =~= cs);
    let mut out: Vec<String> = Vec::new();
    let ghost mut flags: Seq<bool> = Seq::empty();
    let mut i: usize = 0;
    while i < 3
        invariant
            i <= 3,
            candidates@.len() == 3,
            views(candidates@) == cs,
            flags.len() == i,
            views(out@) == selected(cs.take(i as int), flags),
        decreases 3 - i,
    {
        assert(cs.take(i + 1).drop_last() =~= cs.take(i as int));
        let present = env.is_file(candidates[i].as_str());
        let ghost prev = out@;
        if present {
            out.push(candidates[i].clone());
            assert(views(out@) =~= views(prev).push(cs[i as int]));
        }
        proof {
            let old_flags = flags;
            flags = flags.push(present);
            assert(flags.drop_last() =~= old_flags);
            assert(cs.take(i + 1).last() == cs[i as int]);
        }
        i = i + 1;
    }
    assert(cs.take(3) =~= cs);
    out
}

pub struct ResolvedView {
    pub id: Seq<char>,
    pub name: Seq<char>,
    pub host: Seq<char>,
    pub port: u16,
    pub username: Seq<char>,
    pub initial_path: Seq<char>,
    pub identity_files: Seq<Seq<char>>,
    pub identities_only: bool,
    pub known_hosts_path: Seq<char>,
}

impl View for ResolvedSshTarget {
    type V = ResolvedView;

    open spec fn view(&self) -> ResolvedView {
        ResolvedView {
            id: self.id@,
            name: self.name@,
            host: self.host@,
            port: self.port,
            username: self.username@,
            initial_path: self.initial_path@,
            identity_files: views(self.identity_files@),
            identities_only: self.identities_only,
            known_hosts_path: self.known_hosts_path@,
        }
    }
}

/// A saved target as a connection target; `defaults` are the default key files, used when
/// the target names none.
pub open spec fn resolved_manual(t: TargetView, home: Seq<char>, defaults: Seq<Seq<char>>) -> ResolvedView {
    ResolvedView {
        id: t.id,
        name: t.name,
        host: t.host,
        port: t.port,
        username: t.username,
        initial_path: match t.initial_path {
            Some(p) => p,
            None => "."@,
        },
        identity_files: match t.identity_file {
            Some(p) => seq![home_expanded(p, home)],
            None => defaults,
        },
        identities_only: t.identities_only,
        known_hosts_path: default_known_hosts(home),
    }
}

pub fn resolve_stored<E: SshTargetEnvironment>(env: &E, target: &StoredTarget, home_dir: &str) -> (r: ResolvedSshTarget)
    ensures
        exists|flags: Seq<bool>| flags.len() == 3
            && r@ == resolved_manual(target@, home_dir@, selected(identity_candidates(home_dir@), flags)),
{
    let identity_files = match &target.identity_file {
        Some(path) => vec![expand_home(path.as_str(), home_dir)],
        None => default_identity_files(env, home_dir),
    };
    let initial_path = match &target.initial_path {
        Some(p) => p.clone(),
        None => ".".to_owned(),
    };
    let dir = join(home_dir, ".ssh");
    let r = ResolvedSshTarget {
        id: target.id.clone(),
        name: target.name.clone(),
        host: target.host.clone(),
        port: target.port,
        username: target.username.clone(),
        initial_path,
        identity_files,
        identities_only: target.identities_only,
        known_hosts_path: join(dir.as_str(), "known_hosts"),
    };
    proof {
        if target.identity_file is Some {
            assert(views(r.identity_files@) =~= seq![home_expanded(target.identity_file->0@, home_dir@)]);
            let flags = seq![false, false, false];
            assert(r@ == resolved_manual(target@, home_dir@, selected(identity_candidates(home_dir@), flags)));
        }
    }
    r
}

/// A target list for the configuration text `contents`: the summaries of the manual
/// targets in order, then one configuration entry for each concrete alias of `contents`,
/// in order.
pub open spec fn listed_with_config(targets: Seq<TargetView>, contents: Seq<char>, out: Seq<SshTargetSummaryDto>) -> bool {
    &&& out.len() >= targets.len()
    &&& forall|i: int| 0 <= i < targets.len() ==> (#[trigger] out[i])@ == manual_summary(targets[i])
    &&& forall|i: int| targets.len() <= i < out.len() ==> config_summary_shape((#[trigger] out[i])@)
    &&& config_aliases(contents) == out.subrange(targets.len() as int, out.len() as int).map_values(
        |s: SshTargetSummaryDto| s.name@,
    )
}

/// What `russh_config` makes of a configuration for one alias, as plain values.
pub struct ParsedSshHost {
    pub host: String,
    pub port: u16,
    pub user: String,
    pub has_proxy_command: bool,
    pub has_proxy_jump: bool,
    pub identity_files: Option<Vec<String>>,
    pub user_known_hosts_file: Option<String>,
}

/// The host name, port and whether a ProxyCommand or a ProxyJump is configured, as
/// `russh_config` reads them for `alias` from the configuration text `contents`.
pub uninterp spec fn ssh_host_settings(contents: Seq<char>, alias: Seq<char>) -> (Seq<char>, u16, bool, bool);

pub open spec fn host_settings(p: ParsedSshHost) -> (Seq<char>, u16, bool, bool) {
    (p.host@, p.port, p.has_proxy_command, p.has_proxy_jump)
}

/// `russh_config::parse(contents, alias)`: the host, port and user that apply to the alias,
/// whether a proxy is configured, and the configured key and known-hosts files; or the
/// parser's error message.
///
/// Trusted: on success the host, port and proxy settings are read from the text alone,
/// so they are named `ssh_host_settings` of the arguments. Nothing else is stated: the
/// crate fills in the user from the operating system, and expanding `~` with the
/// process's home directory can make the parse fail.
#[verifier::external_body]
fn parse_ssh_config(contents: &str, alias: &str) -> (r: Result<ParsedSshHost, String>)
    ensures
        r is Ok ==> host_settings(r->Ok_0) == ssh_host_settings(contents@, alias@),
{
    match russh_config::parse(contents, alias) {
        Ok(config) => Ok(ParsedSshHost {
            host: config.host().to_owned(),
            port: config.port(),
            user: config.user(),
            has_proxy_command: config.host_config.proxy_command.is_some(),
            has_proxy_jump: config.host_config.proxy_jump.is_some(),
            identity_files: config.host_config.identity_file.as_ref().map(|files| files.iter().map(|f| f.to_string_lossy().into_owned()).collect()),
            user_known_hosts_file: config.host_config.user_known_hosts_file.as_ref().map(|f| f.to_string_lossy().into_owned()),
        }),
        Err(error) => Err(error.to_string()),
    }
}

pub open spec fn parsed_identity_files(parsed: ParsedSshHost) -> Option<Seq<Seq<char>>> {
    match parsed.identity_files {
        Some(files) => Some(views(files@)),
        None => None,
    }
}

/// The outcome of resolving an alias from what the configuration parser returned: a parser
/// error or a proxy is refused; otherwise the target, with the default key files and known
/// hosts file where the configuration names none.
pub open spec fn config_resolution(
    contents: Seq<char>,
    alias: Seq<char>,
    home: Seq<char>,
    parsed: Result<ParsedSshHost, String>,
    defaults: Seq<Seq<char>>,
    r: Result<ResolvedView, ExplorerError>,
) -> bool {
    match parsed {
        Err(message) => r is Err && configuration_error(r->Err_0,
            "Explora could not resolve SSH alias "@ + alias + ": "@ + message@),
        Ok(p) => if p.has_proxy_command {
            r is Err && unsupported_error(r->Err_0, "SSH alias "@ + alias + " uses ProxyCommand, which Explora does not execute."@)
        } else if p.has_proxy_jump {
            r is Err && unsupported_error(r->Err_0, "SSH alias "@ + alias + " uses ProxyJump, which Explora does not support yet."@)
        } else {
            r == Ok::<ResolvedView, ExplorerError>(ResolvedView {
                id: "config:"@ + alias,
                name: alias,
                host: p.host@,
                port: p.port,
                username: p.user@,
                initial_path: "."@,
                identity_files: match parsed_identity_files(p) {
                    Some(files) => if files.len() > 0 { files } else { defaults },
                    None => defaults,
                },
                identities_only: identities_only(contents, alias),
                known_hosts_path: match p.user_known_hosts_file {
                    Some(f) => f@,
                    None => default_known_hosts(home),
                },
            })
        },
    }
}

pub open spec fn resolved_result(r: Result<ResolvedSshTarget, ExplorerError>) -> Result<ResolvedView, ExplorerError> {
    match r {
        Ok(t) => Ok(t@),
        Err(e) => Err(e),
    }
}

/// Resolves `alias` from the configuration parser's answer `parsed`.
pub fn resolve_parsed_alias<E: SshTargetEnvironment>(
    env: &E,
    contents: &str,
    home_dir: &str,
    alias: &str,
    parsed: Result<ParsedSshHost, String>,
) -> (r: Result<ResolvedSshTarget, ExplorerError>)
    ensures
        exists|flags: Seq<bool>| flags.len() == 3 && config_resolution(contents@, alias@, home_dir@, parsed,
            selected(identity_candidates(home_dir@), flags), resolved_result(r)),
{
    let ghost parsed_copy = parsed;
    let p = match parsed {
        Err(message) => {
            let text = "Explora could not resolve SSH alias ".to_owned().concat(alias).concat(": ").concat(message.as_str());
            let r = Err(ExplorerError::InvalidConfiguration(text));
            assert(config_resolution(contents@, alias@, home_dir@, parsed_copy, identity_candidates(home_dir@), resolved_result(r)));
            assert(identity_candidates(home_dir@) == selected(identity_candidates(home_dir@), seq![true, true, true])) by {
                assert(selected(identity_candidates(home_dir@), seq![true, true, true]) =~= identity_candidates(home_dir@)) by {
                    reveal_with_fuel(selected, 4);
                    assert(identity_candidates(home_dir@).drop_last().drop_last().drop_last() =~= Seq::<Seq<char>>::empty());
                    assert(seq![true, true, true].drop_last().drop_last().drop_last() =~= Seq::<bool>::empty());
                }
            }
            return r;
        },
        Ok(p) => p,
    };
    if p.has_proxy_command {
        let text = "SSH alias ".to_owned().concat(alias).concat(" uses ProxyCommand, which Explora does not execute.");
        let r = Err(ExplorerError::Unsupported(text));
        assert(config_resolution(contents@, alias@, home_dir@, parsed_copy, selected(identity_candidates(home_dir@), seq![false, false, false]), resolved_result(r)));
        return r;
    }
    if p.has_proxy_jump {
        let text = "SSH alias ".to_owned().concat(alias).concat(" uses ProxyJump, which Explora does not support yet.");
        let r = Err(ExplorerError::Unsupported(text));
        assert(config_resolution(contents@, alias@, home_dir@, parsed_copy, selected(identity_candidates(home_dir@), seq![false, false, false]), resolved_result(r)));
        return r;
    }
    let defaults = default_identity_files(env, home_dir);
    let identity_files = match p.identity_files {
        Some(files) => if files.len() > 0 { files } else { defaults },
        None => defaults,
    };
    let known_hosts_path = match p.user_known_hosts_file {
        Some(f) => f,
        None => {
            let dir = join(home_dir, ".ssh");
            join(dir.as_str(), "known_hosts")
        },
    };
    let r = Ok(ResolvedSshTarget {
        id: "config:".to_owned().concat(alias),
        name: alias.to_owned(),
        host: p.host,
        port: p.port,
        username: p.user,
        initial_path: ".".to_owned(),
        identity_files,
        identities_only: resolve_identities_only(contents, alias),
        known_hosts_path,
    });
    r
}

/// Resolves an alias of the configuration text.
/// A deleted target is gone: once the targets with `id` are filtered out, no target has
/// it, so deleting it again is refused as an unknown reference.
pub proof fn lemma_deleted_target_is_gone(ts: Seq<TargetView>, id: Seq<char>)
    ensures
        !has_target(ts.filter(id_differs(id)), id),
{
    let f = ts.filter(id_differs(id));
    assert forall|i: int| 0 <= i < f.len() implies (#[trigger] f[i]).id != id by {
        ts.filter_lemma(id_differs(id));
        assert(id_differs(id)(f[i]));
    }
}

/// The parser's answer for `alias` of `contents`, as far as it is fixed by them: on
/// success its host, port and proxy settings.
pub open spec fn parser_answer(contents: Seq<char>, alias: Seq<char>, parsed: Result<ParsedSshHost, String>) -> bool {
    parsed is Ok ==> host_settings(parsed->Ok_0) == ssh_host_settings(contents, alias)
}

/// Resolves an alias of the configuration text: the parser is asked for `alias` of
/// `contents`, and `resolve_parsed_alias` decides from its answer. A resolved target has
/// the host and port that the configuration names for the alias; an alias with a proxy
/// is refused.
pub fn resolve_config_alias<E: SshTargetEnvironment>(env: &E, contents: &str, home_dir: &str, alias: &str) -> (r: Result<ResolvedSshTarget, ExplorerError>)
    ensures
        exists|parsed: Result<ParsedSshHost, String>, flags: Seq<bool>| #![auto] flags.len() == 3 && parser_answer(contents@, alias@, parsed)
            && config_resolution(contents@, alias@, home_dir@, parsed, selected(identity_candidates(home_dir@), flags), resolved_result(r)),
        r is Ok ==> r->Ok_0.host@ == ssh_host_settings(contents@, alias@).0 && r->Ok_0.port == ssh_host_settings(contents@, alias@).1
            && !ssh_host_settings(contents@, alias@).2 && !ssh_host_settings(contents@, alias@).3,
{
    let parsed = parse_ssh_config(contents, alias);
    let ghost g = parsed;
    let r = resolve_parsed_alias(env, contents, home_dir, alias, parsed);
    assert(parser_answer(contents@, alias@, g));
    assert(exists|flags: Seq<bool>| flags.len() == 3 && config_resolution(contents@, alias@, home_dir@, g,
        selected(identity_candidates(home_dir@), flags), resolved_result(r)));
    r
}

/// A config alias as it is listed: its id, name and location follow from the alias; the
/// endpoint depends on what the configuration resolves it to.
pub open spec fn config_summary_shape(s: SummaryView) -> bool {
    &&& s.id == "config:"@ + s.name
    &&& s.location_id == ssh_location_id(s.id)
    &&& s.source == SshTargetSource::OpenSshConfig
    &&& s.status == "disconnected"@
    &&& !s.editable
    &&& s.connected_location_id is None
    &&& s.configuration is None
}

/// A manual target made from a valid input under a given id.
pub open spec fn target_from_input(id: Seq<char>, input: InputView) -> TargetView {
    TargetView {
        id,
        name: trim(input.name),
        host: trim(input.host),
        port: input.port,
        username: trim(input.username),
        initial_path: normalized(input.initial_path),
        identity_file: normalized(input.identity_file),
        identities_only: input.identities_only,
    }
}

pub open spec fn has_target(ts: Seq<TargetView>, id: Seq<char>) -> bool {
    exists|k: int| 0 <= k < ts.len() && #[trigger] ts[k].id == id
}

/// `k` is the first position of a target with `id`.
pub open spec fn first_target(ts: Seq<TargetView>, id: Seq<char>, k: int) -> bool {
    &&& 0 <= k < ts.len()
    &&& ts[k].id == id
    &&& forall|j: int| 0 <= j < k ==> (#[trigger] ts[j]).id != id
}

pub open spec fn id_differs(id: Seq<char>) -> spec_fn(TargetView) -> bool {
    |t: TargetView| t.id != id
}

fn make_target(id: String, input: &ManualSshTargetInputDto) -> (r: StoredTarget)
    ensures
        r@ == target_from_input(id@, input@),
{
    StoredTarget {
        id,
        name: trimmed(input.name.as_str()),
        host: trimmed(input.host.as_str()),
        port: input.port,
        username: trimmed(input.username.as_str()),
        initial_path: normalized_optional(opt_clone(&input.initial_path)),
        identity_file: normalized_optional(opt_clone(&input.identity_file)),
        identities_only: input.identities_only,
    }
}

fn copy_target(t: &StoredTarget) -> (r: StoredTarget)
    ensures
        r@ == t@,
{
    StoredTarget {
        id: t.id.clone(),
        name: t.name.clone(),
        host: t.host.clone(),
        port: t.port,
        username: t.username.clone(),
        initial_path: opt_clone(&t.initial_path),
        identity_file: opt_clone(&t.identity_file),
        identities_only: t.identities_only,
    }
}

fn copy_targets(v: &Vec<StoredTarget>) -> (r: Vec<StoredTarget>)
    ensures
        target_views(r@) == target_views(v@),
{
    let mut r: Vec<StoredTarget> = Vec::new();
    let mut i: usize = 0;
    while i < v.len()
        invariant
            i <= v.len(),
            target_views(r@) == target_views(v@).take(i as int),
        decreases v.len() - i,
    {
        let t = copy_target(&v[i]);
        let ghost prev = r@;
        r.push(t);
        assert(target_views(r@) =~= target_views(prev).push(v@[i as int]@));
        i = i + 1;
        assert(target_views(r@) =~= target_views(v@).take(i as int));
    }
    assert(target_views(v@).take(v.len() as int) =~= target_views(v@));
    r
}

/// The first position of a target with `id`.
fn find_target(v: &Vec<StoredTarget>, id: &str) -> (r: Option<usize>)
    ensures
        match r {
            Some(k) => first_target(target_views(v@), id@, k as int),
            None => !has_target(target_views(v@), id@),
        },
{
    let ghost ts = target_views(v@);
    let mut i: usize = 0;
    while i < v.len()
        invariant
            i <= v.len(),
            ts == target_views(v@),
            forall|j: int| 0 <= j < i ==> (#[trigger] ts[j]).id != id@,
        decreases v.len() - i,
    {
        if str_eq(v[i].id.as_str(), id) {
            return Some(i);
        }
        i = i + 1;
    }
    None
}

/// The manual targets and the home directory that config paths resolve against.
pub struct SshTargetStore<E> {
    env: E,
    home_dir: String,
    manual_targets: Vec<StoredTarget>,
}

impl<E: SshTargetEnvironment> SshTargetStore<E> {
    pub closed spec fn targets(&self) -> Seq<TargetView> {
        target_views(self.manual_targets@)
    }

    pub closed spec fn home(&self) -> Seq<char> {
        self.home_dir@
    }

    /// A store over what reading the saved targets found.
    pub fn new(env: E, home_dir: String, stored: StoredTargetsRead) -> (r: Result<Self, ExplorerError>)
        ensures
            r is Ok ==> r->Ok_0.home() == home_dir@,
            match stored {
                StoredTargetsRead::Missing => r is Ok && r->Ok_0.targets().len() == 0,
                StoredTargetsRead::Failed(e) => r == Err::<Self, ExplorerError>(e),
                StoredTargetsRead::Malformed => r is Err && configuration_error(r->Err_0,
                    "Explora's saved SSH target file is malformed."@),
                StoredTargetsRead::Document(d) => if d.version == TARGETS_FILE_VERSION {
                    r is Ok && r->Ok_0.targets() == target_views(d.targets@)
                } else {
                    r is Err && configuration_error(r->Err_0, "Explora's saved SSH target file has an unsupported version."@)
                },
            },
    {
        match stored {
            StoredTargetsRead::Missing => Ok(SshTargetStore { env, home_dir, manual_targets: Vec::new() }),
            StoredTargetsRead::Failed(e) => Err(e),
            StoredTargetsRead::Malformed => Err(ExplorerError::InvalidConfiguration(
                "Explora's saved SSH target file is malformed.".to_owned(),
            )),
            StoredTargetsRead::Document(document) => {
                if document.version != TARGETS_FILE_VERSION {
                    return Err(ExplorerError::InvalidConfiguration(
                        "Explora's saved SSH target file has an unsupported version.".to_owned(),
                    ));
                }
                Ok(SshTargetStore { env, home_dir, manual_targets: document.targets })
            },
        }
    }

    /// The manual targets, then one entry for each concrete alias of the OpenSSH
    /// configuration that the environment reads. Reading the configuration is the
    /// environment's work: whether it succeeds is not the library's to promise, and what
    /// follows the read is `summaries_with_config`.
    pub fn list(&self) -> (r: Result<Vec<SshTargetSummaryDto>, ExplorerError>)
        ensures
            r is Ok ==> exists|contents: Seq<char>| #![auto] listed_with_config(self.targets(), contents, r->Ok_0@),
    {
        let config = self.env.read_config();
        self.summaries_with_config(config)
    }

    /// The target list for the configuration text that was read: a failed read is passed
    /// on; otherwise the manual targets, then one entry for each concrete alias of `config`.
    pub fn summaries_with_config(&self, config: Result<String, ExplorerError>) -> (r: Result<Vec<SshTargetSummaryDto>, ExplorerError>)
        ensures
            match config {
                Err(e) => r == Err::<Vec<SshTargetSummaryDto>, ExplorerError>(e),
                Ok(contents) => r is Ok && listed_with_config(self.targets(), contents@, r->Ok_0@),
            },
    {
        let mut summaries: Vec<SshTargetSummaryDto> = Vec::new();
        let mut i: usize = 0;
        while i < self.manual_targets.len()
            invariant
                i <= self.manual_targets.len(),
                summaries@.len() == i,
                forall|j: int| 0 <= j < i ==> (#[trigger] summaries@[j])@ == manual_summary(self.targets()[j]),
            decreases self.manual_targets.len() - i,
        {
            summaries.push(summary_for_stored(&self.manual_targets[i]));
            i = i + 1;
        }
        let contents = match config {
            Ok(c) => c,
            Err(e) => {
                return Err(e);
            },
        };
        let aliases = discover_aliases(contents.as_str());
        let n = summaries.len();
        let mut k: usize = 0;
        while k < aliases.len()
            invariant
                k <= aliases.len(),
                n == self.targets().len(),
                summaries@.len() == n + k,
                views(aliases@) == config_aliases(contents@),
                forall|j: int| 0 <= j < n ==> (#[trigger] summaries@[j])@ == manual_summary(self.targets()[j]),
                forall|j: int| n <= j < summaries@.len() ==> config_summary_shape((#[trigger] summaries@[j])@),
                forall|j: int| 0 <= j < k ==> (#[trigger] summaries@[n + j]).name@ == aliases@[j]@,
            decreases aliases.len() - k,
        {
            let alias = aliases[k].as_str();
            let id = "config:".to_owned().concat(alias);
            let resolved = resolve_config_alias(&self.env, contents.as_str(), self.home_dir.as_str(), alias);
            let endpoint_text = match resolved {
                Ok(target) => endpoint(target.username.as_str(), target.host.as_str(), target.port),
                Err(_) => "SSH config".to_owned(),
            };
            let location = location_id(id.as_str());
            summaries.push(SshTargetSummaryDto {
                id,
                location_id: location,
                name: alias.to_owned(),
                source: SshTargetSource::OpenSshConfig,
                endpoint: endpoint_text,
                status: "disconnected".to_owned(),
                editable: false,
                connected_location_id: None,
                configuration: None,
            });
            k = k + 1;
        }
        proof {
            let out = summaries@;
            let names = out.subrange(n as int, out.len() as int).map_values(|s: SshTargetSummaryDto| s.name@);
            assert(views(aliases@).len() == aliases@.len());
            assert forall|j: int| 0 <= j < names.len() implies names[j] == config_aliases(contents@)[j] by {
                assert(names[j] == summaries@[n + j].name@);
                assert(views(aliases@)[j] == aliases@[j]@);
            }
            assert(names =~= config_aliases(contents@));
        }
        Ok(summaries)
    }

    /// Adds a manual target under a fresh `manual:` id, once it is saved.
    pub fn create(&mut self, input: ManualSshTargetInputDto) -> (r: Result<SshTargetSummaryDto, ExplorerError>)
        ensures
            final(self).home() == old(self).home(),
            match input_problem(input@) {
                Some(message) => r is Err && configuration_error(r->Err_0, message),
                None => true,
            },
            r is Err ==> final(self).targets() == old(self).targets(),
            r is Ok ==> exists|u: Seq<char>| #![auto] is_uuid_text(u) && ({
                let t = target_from_input("manual:"@ + u, input@);
                &&& final(self).targets() == old(self).targets().push(t)
                &&& r->Ok_0@ == manual_summary(t)
            }),
    {
        let uuid = random_id();
        let (updated, summary) = match self.prepare_create(&input, uuid.as_str()) {
            Ok(prepared) => prepared,
            Err(e) => {
                return Err(e);
            },
        };
        let saved = self.env.persist(&updated);
        match self.commit_targets(updated, saved) {
            Ok(()) => {},
            Err(e) => {
                return Err(e);
            },
        }
        assert(is_uuid_text(uuid@));
        Ok(summary)
    }

    /// The list a new target makes, saved under the id `manual:` followed by `uuid`, and
    /// its summary; an invalid input is refused. The host saves exactly this list and hands
    /// the outcome to `commit_targets`.
    pub fn prepare_create(&self, input: &ManualSshTargetInputDto, uuid: &str) -> (r: Result<
        (Vec<StoredTarget>, SshTargetSummaryDto),
        ExplorerError,
    >)
        ensures
            match input_problem(input@) {
                Some(message) => r is Err && configuration_error(r->Err_0, message),
                None => r is Ok && ({
                    let t = target_from_input("manual:"@ + uuid@, input@);
                    &&& target_views(r->Ok_0.0@) == self.targets().push(t)
                    &&& r->Ok_0.1@ == manual_summary(t)
                }),
            },
    {
        match validate_input(input) {
            Ok(()) => {},
            Err(e) => {
                return Err(e);
            },
        }
        let id = "manual:".to_owned().concat(uuid);
        let target = make_target(id, input);
        let summary = summary_for_stored(&target);
        let mut updated = copy_targets(&self.manual_targets);
        let ghost t = target@;
        updated.push(target);
        assert(target_views(updated@) =~= target_views(self.manual_targets@).push(t));
        Ok((updated, summary))
    }

    /// Replaces the fields of the first manual target with `id`, once saved.
    pub fn update(&mut self, id: &str, input: ManualSshTargetInputDto) -> (r: Result<SshTargetSummaryDto, ExplorerError>)
        ensures
            final(self).home() == old(self).home(),
            match input_problem(input@) {
                Some(message) => r is Err && configuration_error(r->Err_0, message),
                None => !has_target(old(self).targets(), id@) ==> r == Err::<SshTargetSummaryDto, ExplorerError>(ExplorerError::InvalidReference),
            },
            r is Err ==> final(self).targets() == old(self).targets(),
            r is Ok ==> exists|k: int| #![auto] first_target(old(self).targets(), id@, k) && ({
                let t = target_from_input(old(self).targets()[k].id, input@);
                &&& final(self).targets() == old(self).targets().update(k, t)
                &&& r->Ok_0@ == manual_summary(t)
            }),
    {
        let (updated, summary) = match self.prepare_update(id, &input) {
            Ok(prepared) => prepared,
            Err(e) => {
                return Err(e);
            },
        };
        let saved = self.env.persist(&updated);
        match self.commit_targets(updated, saved) {
            Ok(()) => {},
            Err(e) => {
                return Err(e);
            },
        }
        Ok(summary)
    }

    /// The list an update makes: the first manual target with `id` replaced by the input,
    /// keeping its id, and its summary. An invalid input or an unknown id is refused. The
    /// host saves exactly this list and hands the outcome to `commit_targets`.
    pub fn prepare_update(&self, id: &str, input: &ManualSshTargetInputDto) -> (r: Result<
        (Vec<StoredTarget>, SshTargetSummaryDto),
        ExplorerError,
    >)
        ensures
            match input_problem(input@) {
                Some(message) => r is Err && configuration_error(r->Err_0, message),
                None => if !has_target(self.targets(), id@) {
                    r == Err::<(Vec<StoredTarget>, SshTargetSummaryDto), ExplorerError>(ExplorerError::InvalidReference)
                } else {
                    r is Ok && exists|k: int| #![auto] first_target(self.targets(), id@, k) && ({
                        let t = target_from_input(self.targets()[k].id, input@);
                        &&& target_views(r->Ok_0.0@) == self.targets().update(k, t)
                        &&& r->Ok_0.1@ == manual_summary(t)
                    })
                },
            },
    {
        match validate_input(input) {
            Ok(()) => {},
            Err(e) => {
                return Err(e);
            },
        }
        let k = match find_target(&self.manual_targets, id) {
            Some(k) => k,
            None => {
                return Err(ExplorerError::InvalidReference);
            },
        };
        let mut updated = copy_targets(&self.manual_targets);
        let target = make_target(self.manual_targets[k].id.clone(), input);
        let summary = summary_for_stored(&target);
        let ghost t = target@;
        updated.set(k, target);
        assert(target_views(updated@) =~= target_views(self.manual_targets@).update(k as int, t));
        assert(first_target(self.targets(), id@, k as int));
        Ok((updated, summary))
    }

    /// Removes every manual target with `id`, once saved.
    pub fn delete(&mut self, id: &str) -> (r: Result<(), ExplorerError>)
        ensures
            final(self).home() == old(self).home(),
            !has_target(old(self).targets(), id@) ==> r == Err::<(), ExplorerError>(ExplorerError::InvalidReference),
            r is Err ==> final(self).targets() == old(self).targets(),
            r is Ok ==> final(self).targets() == old(self).targets().filter(id_differs(id@)),
    {
        let updated = match self.prepare_delete(id) {
            Ok(updated) => updated,
            Err(e) => {
                return Err(e);
            },
        };
        let saved = self.env.persist(&updated);
        self.commit_targets(updated, saved)
    }

    /// The list a deletion makes: every manual target but those with `id`, in order. An
    /// unknown id is refused. The host saves exactly this list and hands the outcome to
    /// `commit_targets`.
    pub fn prepare_delete(&self, id: &str) -> (r: Result<Vec<StoredTarget>, ExplorerError>)
        ensures
            !has_target(self.targets(), id@) ==> r == Err::<Vec<StoredTarget>, ExplorerError>(ExplorerError::InvalidReference),
            has_target(self.targets(), id@) ==> r is Ok && target_views(r->Ok_0@) == self.targets().filter(id_differs(id@)),
    {
        let ghost ts = self.targets();
        if find_target(&self.manual_targets, id).is_none() {
            return Err(ExplorerError::InvalidReference);
        }
        let mut updated: Vec<StoredTarget> = Vec::new();
        let mut i: usize = 0;
        proof {
            reveal(Seq::filter);
            assert(ts.take(0) =~= Seq::<TargetView>::empty());
        }
        while i < self.manual_targets.len()
            invariant
                i <= self.manual_targets.len(),
                ts == target_views(self.manual_targets@),
                target_views(updated@) == ts.take(i as int).filter(id_differs(id@)),
            decreases self.manual_targets.len() - i,
        {
            proof {
                reveal(Seq::filter);
                assert(ts.take(i + 1).drop_last() =~= ts.take(i as int));
            }
            if !str_eq(self.manual_targets[i].id.as_str(), id) {
                let t = copy_target(&self.manual_targets[i]);
                let ghost prev = updated@;
                updated.push(t);
                assert(target_views(updated@) =~= target_views(prev).push(ts[i as int]));
            }
            i = i + 1;
        }
        assert(ts.take(ts.len() as int) =~= ts);
        Ok(updated)
    }

    /// Takes the outcome of saving `updated`: a successful save makes `updated` the manual
    /// targets; a failed save changes nothing and its error is the result.
    pub fn commit_targets(&mut self, updated: Vec<StoredTarget>, saved: Result<(), ExplorerError>) -> (r: Result<(), ExplorerError>)
        ensures
            final(self).home() == old(self).home(),
            match saved {
                Ok(()) => r is Ok && final(self).targets() == target_views(updated@),
                Err(e) => r == Err::<(), ExplorerError>(e) && final(self).targets() == old(self).targets(),
            },
    {
        match saved {
            Ok(()) => {
                self.manual_targets = updated;
                Ok(())
            },
            Err(e) => Err(e),
        }
    }
}

/// What resolving a `config:` id yields from one reading of the configuration: a read
/// error as it is, an alias that the configuration does not define as an invalid reference,
/// and otherwise the alias's resolution.
pub open spec fn config_id_resolution(
    read: Result<Seq<char>, ExplorerError>,
    alias: Seq<char>,
    home: Seq<char>,
    r: Result<ResolvedView, ExplorerError>,
) -> bool {
    match read {
        Err(e) => r == Err::<ResolvedView, ExplorerError>(e),
        Ok(contents) => if !config_aliases(contents).contains(alias) {
            r == Err::<ResolvedView, ExplorerError>(ExplorerError::InvalidReference)
        } else {
            exists|parsed: Result<ParsedSshHost, String>, flags: Seq<bool>| #![auto] flags.len() == 3 && parser_answer(contents, alias, parsed)
                && config_resolution(contents, alias, home, parsed, selected(identity_candidates(home), flags), r)
        },
    }
}

impl<E: SshTargetEnvironment> SshTargetStore<E> {
    /// The connection target for `id`: a `config:` id names an alias of the OpenSSH
    /// configuration, any other id a manual target.
    pub fn resolve(&self, id: &str) -> (r: Result<ResolvedSshTarget, ExplorerError>)
        ensures
            starts_with(id@, "config:"@) ==> exists|read: Result<Seq<char>, ExplorerError>| #![auto]
                config_id_resolution(read, id@.skip(7), self.home(), resolved_result(r)),
            !starts_with(id@, "config:"@) && !has_target(self.targets(), id@) ==> r == Err::<ResolvedSshTarget, ExplorerError>(ExplorerError::InvalidReference),
            !starts_with(id@, "config:"@) && has_target(self.targets(), id@) ==> r is Ok && exists|k: int, flags: Seq<bool>| #![auto]
                first_target(self.targets(), id@, k) && flags.len() == 3 && r->Ok_0@ == resolved_manual(self.targets()[k], self.home(), selected(identity_candidates(self.home()), flags)),
    {
        if str_starts_with(id, "config:") {
            proof {
                reveal_strlit("config:");
            }
            let chars = chars_of(id);
            let alias = crate::text::string_from_range(&chars, 7, chars.len());
            let contents = match self.env.read_config() {
                Ok(c) => c,
                Err(e) => {
                    let r = Err(e);
                    assert(config_id_resolution(Err(e), id@.skip(7), self.home(), resolved_result(r)));
                    return r;
                },
            };
            let aliases = discover_aliases(contents.as_str());
            if position_of(&aliases, alias.as_str()).is_none() {
                let r = Err(ExplorerError::InvalidReference);
                assert(config_id_resolution(Ok(contents@), id@.skip(7), self.home(), resolved_result(r)));
                return r;
            }
            let r = resolve_config_alias(&self.env, contents.as_str(), self.home_dir.as_str(), alias.as_str());
            assert(config_id_resolution(Ok(contents@), id@.skip(7), self.home(), resolved_result(r)));
            return r;
        }
        match find_target(&self.manual_targets, id) {
            Some(k) => {
                let r = resolve_stored(&self.env, &self.manual_targets[k], self.home_dir.as_str());
                proof {
                    assert(self.targets()[k as int] == self.manual_targets@[k as int]@);
                    let flags = choose|flags: Seq<bool>| flags.len() == 3 && r@ == resolved_manual(
                        self.manual_targets@[k as int]@, self.home_dir@, selected(identity_candidates(self.home_dir@), flags));
                    assert(first_target(self.targets(), id@, k as int) && flags.len() == 3 && r@ == resolved_manual(
                        self.targets()[k as int], self.home(), selected(identity_candidates(self.home()), flags)));
                }
                Ok(r)
            },
            None => Err(ExplorerError::InvalidReference),
        }
    }
}

} // verus!
