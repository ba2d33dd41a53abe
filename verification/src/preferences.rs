//! User preferences: layout and terminal settings, their canonical forms, partial updates,
//! and the migration of documents saved by earlier versions.

use vstd::prelude::*;

use crate::filesystem::ExplorerError;
use crate::text::{
    any_control, chars_of, has_control_char, insert_sorted_unique, lemma_sorted_arrangement_exists,
    lemma_strictly_sorted_unique, starts_with, str_starts_with, strictly_sorted, views,
};

verus! {

broadcast use vstd::seq_lib::group_seq_properties;

pub const PREFERENCES_FILE_VERSION: u32 = 4;
pub const MAX_HIDDEN_SSH_TARGETS: usize = 512;
pub const MAX_SSH_TARGET_ID_LENGTH: usize = 512;
pub const MIN_TERMINAL_PANE_HEIGHT_PERCENT: u16 = 20;
pub const MAX_TERMINAL_PANE_HEIGHT_PERCENT: u16 = 70;
pub const MIN_TERMINAL_FONT_SIZE: u16 = 10;
pub const MAX_TERMINAL_FONT_SIZE: u16 = 24;
pub const MIN_TERMINAL_SCROLLBACK: u32 = 1000;
pub const MAX_TERMINAL_SCROLLBACK: u32 = 50000;

#[derive(Debug, Clone, Copy, PartialEq, Eq, Structural)]
pub enum ViewMode {
    List,
    Grid,
}

impl Default for ViewMode {
    fn default() -> (r: ViewMode)
        ensures
            r == ViewMode::List,
    {
        ViewMode::List
    }
}

#[derive(Debug, Clone, Copy, PartialEq, Eq, Structural)]
pub enum SortColumn {
    Name,
    ModifiedAt,
    Size,
}

impl Default for SortColumn {
    fn default() -> (r: SortColumn)
        ensures
            r == SortColumn::Name,
    {
        SortColumn::Name
    }
}

#[derive(Debug, Clone, Copy, PartialEq, Eq, Structural)]
pub enum SortDirection {
    Ascending,
    Descending,
}

impl Default for SortDirection {
    fn default() -> (r: SortDirection)
        ensures
            r == SortDirection::Ascending,
    {
        SortDirection::Ascending
    }
}

/// The standard places that can be pinned in the sidebar.
#[derive(Debug, Clone, Copy, PartialEq, Eq, Structural)]
pub enum FavoriteRole {
    Home,
    Desktop,
    Documents,
    Downloads,
    Pictures,
    Music,
    Videos,
}

#[derive(Debug, Clone, Copy, PartialEq, Eq, Structural)]
pub struct SortDescriptorDto {
    pub column: SortColumn,
    pub direction: SortDirection,
}

impl Default for SortDescriptorDto {
    fn default() -> (r: SortDescriptorDto)
        ensures
            r == (SortDescriptorDto { column: SortColumn::Name, direction: SortDirection::Ascending }),
    {
        SortDescriptorDto { column: SortColumn::Name, direction: SortDirection::Ascending }
    }
}

#[derive(Debug, Clone, PartialEq, Eq)]
pub struct LayoutPreferencesDto {
    pub sidebar_collapsed: bool,
    pub view_mode: ViewMode,
    pub sort: SortDescriptorDto,
    pub favorite_roles: Vec<FavoriteRole>,
    pub hidden_ssh_target_ids: Vec<String>,
}

#[derive(Debug, Clone, Copy, PartialEq, Eq, Structural)]
pub struct TerminalPreferencesDto {
    pub visible: bool,
    pub pane_height_percent: u16,
    pub font_size: u16,
    pub scrollback: u32,
    pub screen_reader_mode: bool,
}

#[derive(Debug, Clone, PartialEq, Eq)]
pub struct UserPreferencesDto {
    pub layout: LayoutPreferencesDto,
    pub terminal: TerminalPreferencesDto,
}

#[derive(Debug, Clone, PartialEq, Eq)]
pub struct LayoutPreferencesPatchDto {
    pub sidebar_collapsed: Option<bool>,
    pub view_mode: Option<ViewMode>,
    pub sort: Option<SortDescriptorDto>,
    pub favorite_roles: Option<Vec<FavoriteRole>>,
    pub hidden_ssh_target_ids: Option<Vec<String>>,
}

#[derive(Debug, Clone, Copy, PartialEq, Eq, Structural)]
pub struct TerminalPreferencesPatchDto {
    pub visible: Option<bool>,
    pub pane_height_percent: Option<u16>,
    pub font_size: Option<u16>,
    pub scrollback: Option<u32>,
    pub screen_reader_mode: Option<bool>,
}

#[derive(Debug, Clone, PartialEq, Eq)]
pub struct UserPreferencesPatchDto {
    pub layout: LayoutPreferencesPatchDto,
    pub terminal: Option<TerminalPreferencesPatchDto>,
}

#[derive(Debug, Clone, PartialEq, Eq)]
pub struct PreferencesWarningDto {
    pub code: String,
    pub message: String,
}

#[derive(Debug, Clone, PartialEq, Eq)]
pub struct PreferencesSnapshotDto {
    pub preferences: UserPreferencesDto,
    pub warning: Option<PreferencesWarningDto>,
}

#[verifier::ext_equal]
pub struct LayoutView {
    pub sidebar_collapsed: bool,
    pub view_mode: ViewMode,
    pub sort: SortDescriptorDto,
    pub favorite_roles: Seq<FavoriteRole>,
    pub hidden_ssh_target_ids: Seq<Seq<char>>,
}

#[verifier::ext_equal]
pub struct PreferencesView {
    pub layout: LayoutView,
    pub terminal: TerminalPreferencesDto,
}

impl View for LayoutPreferencesDto {
    type V = LayoutView;

    open spec fn view(&self) -> LayoutView {
        LayoutView {
            sidebar_collapsed: self.sidebar_collapsed,
            view_mode: self.view_mode,
            sort: self.sort,
            favorite_roles: self.favorite_roles@,
            hidden_ssh_target_ids: views(self.hidden_ssh_target_ids@),
        }
    }
}

impl View for UserPreferencesDto {
    type V = PreferencesView;

    open spec fn view(&self) -> PreferencesView {
        PreferencesView { layout: self.layout@, terminal: self.terminal }
    }
}

/// A warning as plain text: (code, message).
pub open spec fn warning_view(w: Option<PreferencesWarningDto>) -> Option<(Seq<char>, Seq<char>)> {
    match w {
        Some(w) => Some((w.code@, w.message@)),
        None => None,
    }
}

/// The sidebar favorites in their canonical order, which is also the default selection.
pub open spec fn default_favorites() -> Seq<FavoriteRole> {
    seq![
        FavoriteRole::Home,
        FavoriteRole::Desktop,
        FavoriteRole::Documents,
        FavoriteRole::Downloads,
        FavoriteRole::Pictures,
        FavoriteRole::Music,
        FavoriteRole::Videos,
    ]
}

pub open spec fn role_in(roles: Seq<FavoriteRole>) -> spec_fn(FavoriteRole) -> bool {
    |r: FavoriteRole| roles.contains(r)
}

/// The selected favorites, each once, in canonical order.
pub open spec fn canonical_roles(roles: Seq<FavoriteRole>) -> Seq<FavoriteRole> {
    default_favorites().filter(role_in(roles))
}

/// A hidden SSH target id names a manual or config target in 1 to 512 bytes without
/// control characters.
pub open spec fn valid_hidden_id(id: Seq<char>) -> bool {
    let n = vstd::utf8::encode_utf8(id).len();
    &&& 1 <= n && n <= MAX_SSH_TARGET_ID_LENGTH
    &&& !has_control_char(id)
    &&& (starts_with(id, "manual:"@) || starts_with(id, "config:"@))
}

pub open spec fn valid_hidden_ids(ids: Seq<Seq<char>>) -> bool {
    ids.len() <= MAX_HIDDEN_SSH_TARGETS && forall|i: int| 0 <= i < ids.len() ==> valid_hidden_id(#[trigger] ids[i])
}

/// The ids sorted, each once.
pub open spec fn canonical_ids(ids: Seq<Seq<char>>) -> Seq<Seq<char>> {
    choose|c: Seq<Seq<char>>| strictly_sorted(c) && c.to_set() == ids.to_set()
}

pub open spec fn terminal_valid(t: TerminalPreferencesDto) -> bool {
    &&& MIN_TERMINAL_PANE_HEIGHT_PERCENT <= t.pane_height_percent <= MAX_TERMINAL_PANE_HEIGHT_PERCENT
    &&& MIN_TERMINAL_FONT_SIZE <= t.font_size <= MAX_TERMINAL_FONT_SIZE
    &&& MIN_TERMINAL_SCROLLBACK <= t.scrollback <= MAX_TERMINAL_SCROLLBACK
}

pub open spec fn default_terminal() -> TerminalPreferencesDto {
    TerminalPreferencesDto { visible: false, pane_height_percent: 32, font_size: 13, scrollback: 5000, screen_reader_mode: true }
}

pub open spec fn default_layout() -> LayoutView {
    LayoutView {
        sidebar_collapsed: false,
        view_mode: ViewMode::List,
        sort: SortDescriptorDto { column: SortColumn::Name, direction: SortDirection::Ascending },
        favorite_roles: default_favorites(),
        hidden_ssh_target_ids: Seq::empty(),
    }
}

pub open spec fn default_preferences() -> PreferencesView {
    PreferencesView { layout: default_layout(), terminal: default_terminal() }
}

/// Preferences as the store keeps them: canonical favorites, valid sorted hidden ids and
/// terminal settings in range.
pub open spec fn preferences_canonical(p: PreferencesView) -> bool {
    &&& p.layout.favorite_roles == canonical_roles(p.layout.favorite_roles)
    &&& strictly_sorted(p.layout.hidden_ssh_target_ids)
    &&& valid_hidden_ids(p.layout.hidden_ssh_target_ids)
    &&& terminal_valid(p.terminal)
}

pub fn default_favorite_roles() -> (r: Vec<FavoriteRole>)
    ensures
        r@ == default_favorites(),
{
    let r = vec![
        FavoriteRole::Home,
        FavoriteRole::Desktop,
        FavoriteRole::Documents,
        FavoriteRole::Downloads,
        FavoriteRole::Pictures,
        FavoriteRole::Music,
        FavoriteRole::Videos,
    ];
    assert(r@ =~= default_favorites());
    r
}

impl Default for TerminalPreferencesDto {
    fn default() -> (r: TerminalPreferencesDto)
        ensures
            r == default_terminal(),
    {
        TerminalPreferencesDto { visible: false, pane_height_percent: 32, font_size: 13, scrollback: 5000, screen_reader_mode: true }
    }
}

impl Default for LayoutPreferencesDto {
    fn default() -> (r: LayoutPreferencesDto)
        ensures
            r@ == default_layout(),
    {
        let r = LayoutPreferencesDto {
            sidebar_collapsed: false,
            view_mode: ViewMode::List,
            sort: SortDescriptorDto { column: SortColumn::Name, direction: SortDirection::Ascending },
            favorite_roles: default_favorite_roles(),
            hidden_ssh_target_ids: Vec::new(),
        };
        assert(views(r.hidden_ssh_target_ids@) =~= Seq::<Seq<char>>::empty());
        r
    }
}

impl Default for UserPreferencesDto {
    fn default() -> (r: UserPreferencesDto)
        ensures
            r@ == default_preferences(),
    {
        UserPreferencesDto { layout: LayoutPreferencesDto::default(), terminal: TerminalPreferencesDto::default() }
    }
}

fn contains_role(roles: &Vec<FavoriteRole>, role: FavoriteRole) -> (r: bool)
    ensures
        r == roles@.contains(role),
{
    let mut i: usize = 0;
    while i < roles.len()
        invariant
            i <= roles.len(),
            forall|j: int| 0 <= j < i ==> roles@[j] != role,
        decreases roles.len() - i,
    {
        if roles[i] == role {
            assert(roles@[i as int] == role);
            return true;
        }
        i = i + 1;
    }
    false
}

/// The selected favorites, each once, in their canonical order.
pub fn canonical_favorite_roles(roles: &Vec<FavoriteRole>) -> (r: Vec<FavoriteRole>)
    ensures
        r@ == canonical_roles(roles@),
{
    let defaults = default_favorite_roles();
    let mut out: Vec<FavoriteRole> = Vec::new();
    let mut i: usize = 0;
    proof {
        reveal(Seq::filter);
        assert(defaults@.take(0) =~= Seq::<FavoriteRole>::empty());
    }
    while i < defaults.len()
        invariant
            i <= defaults.len(),
            defaults@ == default_favorites(),
            out@ == defaults@.take(i as int).filter(role_in(roles@)),
        decreases defaults.len() - i,
    {
        proof {
            reveal(Seq::filter);
            assert(defaults@.take(i + 1).drop_last() =~= defaults@.take(i as int));
        }
        let role = defaults[i];
        if contains_role(roles, role) {
            out.push(role);
        }
        i = i + 1;
    }
    assert(defaults@.take(defaults.len() as int) =~= defaults@);
    out
}

fn valid_hidden_id_exec(id: &String) -> (r: bool)
    ensures
        r == valid_hidden_id(id@),
{
    let n = id.as_str().as_bytes().len();
    if n == 0 || n > MAX_SSH_TARGET_ID_LENGTH {
        return false;
    }
    let chars = chars_of(id.as_str());
    if any_control(&chars) {
        return false;
    }
    str_starts_with(id.as_str(), "manual:") || str_starts_with(id.as_str(), "config:")
}

pub open spec fn hidden_ids_error(e: ExplorerError) -> bool {
    e matches ExplorerError::InvalidConfiguration(m) && m@ == "The hidden SSH target selection is invalid."@
}

pub open spec fn terminal_error(e: ExplorerError) -> bool {
    e matches ExplorerError::InvalidConfiguration(m) && m@ == "The terminal preferences are outside the supported range."@
}

pub proof fn lemma_canonical_ids(c: Seq<Seq<char>>, ids: Seq<Seq<char>>)
    requires
        strictly_sorted(c),
        c.to_set() == ids.to_set(),
    ensures
        canonical_ids(ids) == c,
{
    let k = canonical_ids(ids);
    assert(strictly_sorted(k) && k.to_set() == ids.to_set());
    lemma_strictly_sorted_unique(k, c);
}

/// The hidden SSH targets sorted and without repeats, if every id is acceptable.
pub fn canonical_hidden_ssh_target_ids(ids: &Vec<String>) -> (r: Result<Vec<String>, ExplorerError>)
    ensures
        r is Ok <==> valid_hidden_ids(views(ids@)),
        r is Ok ==> views(r->Ok_0@) == canonical_ids(views(ids@)),
        r is Err ==> hidden_ids_error(r->Err_0),
{
    let ghost input = views(ids@);
    if ids.len() > MAX_HIDDEN_SSH_TARGETS {
        return Err(ExplorerError::InvalidConfiguration("The hidden SSH target selection is invalid.".to_owned()));
    }
    let mut i: usize = 0;
    while i < ids.len()
        invariant
            i <= ids.len(),
            input == views(ids@),
            forall|j: int| 0 <= j < i ==> valid_hidden_id(#[trigger] input[j]),
        decreases ids.len() - i,
    {
        if !valid_hidden_id_exec(&ids[i]) {
            assert(!valid_hidden_id(input[i as int]));
            return Err(ExplorerError::InvalidConfiguration("The hidden SSH target selection is invalid.".to_owned()));
        }
        i = i + 1;
    }
    let mut out: Vec<String> = Vec::new();
    let mut k: usize = 0;
    assert(input.take(0).to_set() =~= Set::<Seq<char>>::empty());
    assert(views(out@).to_set() =~= Set::<Seq<char>>::empty());
    while k < ids.len()
        invariant
            k <= ids.len(),
            input == views(ids@),
            strictly_sorted(views(out@)),
            views(out@).to_set() == input.take(k as int).to_set(),
        decreases ids.len() - k,
    {
        assert(input.take(k + 1) =~= input.take(k as int).push(input[k as int]));
        insert_sorted_unique(&mut out, ids[k].clone());
        k = k + 1;
    }
    assert(input.take(ids.len() as int) =~= input);
    proof {
        lemma_canonical_ids(views(out@), input);
    }
    Ok(out)
}

/// The terminal settings, if each lies in its supported range.
pub fn validate_terminal_preferences(preferences: &TerminalPreferencesDto) -> (r: Result<(), ExplorerError>)
    ensures
        r is Ok <==> terminal_valid(*preferences),
        r is Err ==> terminal_error(r->Err_0),
{
    if !(MIN_TERMINAL_PANE_HEIGHT_PERCENT <= preferences.pane_height_percent
        && preferences.pane_height_percent <= MAX_TERMINAL_PANE_HEIGHT_PERCENT)
        || !(MIN_TERMINAL_FONT_SIZE <= preferences.font_size && preferences.font_size <= MAX_TERMINAL_FONT_SIZE)
        || !(MIN_TERMINAL_SCROLLBACK <= preferences.scrollback && preferences.scrollback <= MAX_TERMINAL_SCROLLBACK) {
        return Err(ExplorerError::InvalidConfiguration(
            "The terminal preferences are outside the supported range.".to_owned(),
        ));
    }
    Ok(())
}

pub open spec fn opt_or<T>(o: Option<T>, d: T) -> T {
    match o {
        Some(v) => v,
        None => d,
    }
}

/// The terminal settings with every field that the patch names replaced.
pub open spec fn patched_terminal(t: TerminalPreferencesDto, p: TerminalPreferencesPatchDto) -> TerminalPreferencesDto {
    TerminalPreferencesDto {
        visible: opt_or(p.visible, t.visible),
        pane_height_percent: opt_or(p.pane_height_percent, t.pane_height_percent),
        font_size: opt_or(p.font_size, t.font_size),
        scrollback: opt_or(p.scrollback, t.scrollback),
        screen_reader_mode: opt_or(p.screen_reader_mode, t.screen_reader_mode),
    }
}

/// A patch is refused when its hidden SSH targets are invalid, or when the terminal
/// settings it leads to are out of range.
pub open spec fn hidden_patch_valid(patch: UserPreferencesPatchDto) -> bool {
    match patch.layout.hidden_ssh_target_ids {
        Some(ids) => valid_hidden_ids(views(ids@)),
        None => true,
    }
}

pub open spec fn patch_accepted(prefs: PreferencesView, patch: UserPreferencesPatchDto) -> bool {
    &&& hidden_patch_valid(patch)
    &&& match patch.terminal {
        Some(t) => terminal_valid(patched_terminal(prefs.terminal, t)),
        None => true,
    }
}

/// The preferences with every field that the patch names replaced; favorites and hidden
/// targets are stored in their canonical forms.
pub open spec fn patched(prefs: PreferencesView, patch: UserPreferencesPatchDto) -> PreferencesView {
    PreferencesView {
        layout: LayoutView {
            sidebar_collapsed: opt_or(patch.layout.sidebar_collapsed, prefs.layout.sidebar_collapsed),
            view_mode: opt_or(patch.layout.view_mode, prefs.layout.view_mode),
            sort: opt_or(patch.layout.sort, prefs.layout.sort),
            favorite_roles: match patch.layout.favorite_roles {
                Some(roles) => canonical_roles(roles@),
                None => prefs.layout.favorite_roles,
            },
            hidden_ssh_target_ids: match patch.layout.hidden_ssh_target_ids {
                Some(ids) => canonical_ids(views(ids@)),
                None => prefs.layout.hidden_ssh_target_ids,
            },
        },
        terminal: match patch.terminal {
            Some(t) => patched_terminal(prefs.terminal, t),
            None => prefs.terminal,
        },
    }
}

/// The error of a refused patch: the hidden targets are checked first.
pub open spec fn patch_error(patch: UserPreferencesPatchDto, e: ExplorerError) -> bool {
    if !hidden_patch_valid(patch) {
        hidden_ids_error(e)
    } else {
        terminal_error(e)
    }
}

pub fn copy_strings(v: &Vec<String>) -> (r: Vec<String>)
    ensures
        views(r@) == views(v@),
{
    let mut r: Vec<String> = Vec::new();
    let mut i: usize = 0;
    while i < v.len()
        invariant
            i <= v.len(),
            views(r@) == views(v@).take(i as int),
        decreases v.len() - i,
    {
        let c = v[i].clone();
        let ghost before = r@;
        r.push(c);
        proof {
            assert(r@ == before.push(c));
            assert(views(r@) =~= views(before).push(c@));
            assert(views(v@)[i as int] == c@);
        }
        i = i + 1;
        assert(views(r@) =~= views(v@).take(i as int));
    }
    assert(views(v@).take(v.len() as int) =~= views(v@));
    r
}

pub fn copy_roles(v: &Vec<FavoriteRole>) -> (r: Vec<FavoriteRole>)
    ensures
        r@ == v@,
{
    let mut r: Vec<FavoriteRole> = Vec::new();
    let mut i: usize = 0;
    while i < v.len()
        invariant
            i <= v.len(),
            r@ == v@.take(i as int),
        decreases v.len() - i,
    {
        r.push(v[i]);
        i = i + 1;
        assert(r@ =~= v@.take(i as int));
    }
    assert(v@.take(v.len() as int) =~= v@);
    r
}

pub fn copy_preferences(p: &UserPreferencesDto) -> (r: UserPreferencesDto)
    ensures
        r@ == p@,
{
    UserPreferencesDto {
        layout: LayoutPreferencesDto {
            sidebar_collapsed: p.layout.sidebar_collapsed,
            view_mode: p.layout.view_mode,
            sort: p.layout.sort,
            favorite_roles: copy_roles(&p.layout.favorite_roles),
            hidden_ssh_target_ids: copy_strings(&p.layout.hidden_ssh_target_ids),
        },
        terminal: p.terminal,
    }
}

pub fn copy_warning(w: &Option<PreferencesWarningDto>) -> (r: Option<PreferencesWarningDto>)
    ensures
        warning_view(r) == warning_view(*w),
{
    match w {
        Some(w) => Some(PreferencesWarningDto { code: w.code.clone(), message: w.message.clone() }),
        None => None,
    }
}

pub open spec fn patched_layout(l: LayoutView, patch: LayoutPreferencesPatchDto) -> LayoutView {
    LayoutView {
        sidebar_collapsed: opt_or(patch.sidebar_collapsed, l.sidebar_collapsed),
        view_mode: opt_or(patch.view_mode, l.view_mode),
        sort: opt_or(patch.sort, l.sort),
        favorite_roles: match patch.favorite_roles {
            Some(roles) => canonical_roles(roles@),
            None => l.favorite_roles,
        },
        hidden_ssh_target_ids: match patch.hidden_ssh_target_ids {
            Some(ids) => canonical_ids(views(ids@)),
            None => l.hidden_ssh_target_ids,
        },
    }
}

fn apply_layout_patch(layout: &mut LayoutPreferencesDto, patch: &LayoutPreferencesPatchDto) -> (r: Result<(), ExplorerError>)
    ensures
        r is Ok <==> match patch.hidden_ssh_target_ids {
            Some(ids) => valid_hidden_ids(views(ids@)),
            None => true,
        },
        r is Ok ==> final(layout)@ == patched_layout(old(layout)@, *patch),
        r is Err ==> hidden_ids_error(r->Err_0),
{
    if let Some(hidden_ssh_target_ids) = &patch.hidden_ssh_target_ids {
        match canonical_hidden_ssh_target_ids(hidden_ssh_target_ids) {
            Ok(ids) => {
                layout.hidden_ssh_target_ids = ids;
            },
            Err(e) => {
                return Err(e);
            },
        }
    }
    if let Some(sidebar_collapsed) = patch.sidebar_collapsed {
        layout.sidebar_collapsed = sidebar_collapsed;
    }
    if let Some(view_mode) = patch.view_mode {
        layout.view_mode = view_mode;
    }
    if let Some(sort) = patch.sort {
        layout.sort = sort;
    }
    if let Some(favorite_roles) = &patch.favorite_roles {
        layout.favorite_roles = canonical_favorite_roles(favorite_roles);
    }
    Ok(())
}

fn apply_terminal_patch(terminal: TerminalPreferencesDto, patch: TerminalPreferencesPatchDto) -> (r: TerminalPreferencesDto)
    ensures
        r == patched_terminal(terminal, patch),
{
    let mut t = terminal;
    if let Some(visible) = patch.visible {
        t.visible = visible;
    }
    if let Some(pane_height_percent) = patch.pane_height_percent {
        t.pane_height_percent = pane_height_percent;
    }
    if let Some(font_size) = patch.font_size {
        t.font_size = font_size;
    }
    if let Some(scrollback) = patch.scrollback {
        t.scrollback = scrollback;
    }
    if let Some(screen_reader_mode) = patch.screen_reader_mode {
        t.screen_reader_mode = screen_reader_mode;
    }
    t
}

/// The preferences after `patch`, or the reason the patch is refused.
pub fn apply_preferences_patch(current: &UserPreferencesDto, patch: &UserPreferencesPatchDto) -> (r: Result<UserPreferencesDto, ExplorerError>)
    ensures
        r is Ok <==> patch_accepted(current@, *patch),
        r is Ok ==> r->Ok_0@ == patched(current@, *patch),
        r is Err ==> patch_error(*patch, r->Err_0),
{
    let mut updated = copy_preferences(current);
    match apply_layout_patch(&mut updated.layout, &patch.layout) {
        Ok(()) => {},
        Err(e) => {
            return Err(e);
        },
    }
    if let Some(terminal) = patch.terminal {
        updated.terminal = apply_terminal_patch(updated.terminal, terminal);
        match validate_terminal_preferences(&updated.terminal) {
            Ok(()) => {},
            Err(e) => {
                return Err(e);
            },
        }
    }
    assert(updated@.layout == patched(current@, *patch).layout);
    Ok(updated)
}

/// The layout of a version 1 document.
#[derive(Debug, Clone, Copy, PartialEq, Eq, Structural)]
pub struct LayoutPreferencesV1 {
    pub sidebar_collapsed: bool,
    pub view_mode: ViewMode,
    pub sort: SortDescriptorDto,
}

/// The layout of a version 2 document.
#[derive(Debug, Clone, PartialEq, Eq)]
pub struct LayoutPreferencesV2 {
    pub sidebar_collapsed: bool,
    pub view_mode: ViewMode,
    pub sort: SortDescriptorDto,
    pub favorite_roles: Vec<FavoriteRole>,
}

/// What reading the saved preferences found. A document whose version is known but whose
/// shape does not match that version is malformed.
#[derive(Debug, Clone, PartialEq, Eq)]
pub enum StoredPreferences {
    Missing,
    ReadFailed,
    Malformed,
    UnsupportedVersion,
    Version1(LayoutPreferencesV1),
    Version2(LayoutPreferencesV2),
    Version3(LayoutPreferencesDto),
    Version4(LayoutPreferencesDto, TerminalPreferencesDto),
}

pub open spec fn malformed_warning() -> Option<(Seq<char>, Seq<char>)> {
    Some(("malformed"@, "Explora's saved preferences were malformed and defaults were restored."@))
}

/// The preferences and warning that a stored document yields: defaults with a warning when
/// it cannot be used, older layouts migrated with defaults for what they lack.
pub open spec fn loaded(stored: StoredPreferences) -> (PreferencesView, Option<(Seq<char>, Seq<char>)>) {
    match stored {
        StoredPreferences::Missing => (default_preferences(), None),
        StoredPreferences::ReadFailed => (default_preferences(), Some(("readFailed"@,
            "Explora could not read saved preferences and used defaults instead."@))),
        StoredPreferences::Malformed => (default_preferences(), malformed_warning()),
        StoredPreferences::UnsupportedVersion => (default_preferences(), Some(("unsupportedVersion"@,
            "Explora could not use preferences saved by a different application version and restored defaults."@))),
        StoredPreferences::Version1(l) => (PreferencesView {
            layout: LayoutView {
                sidebar_collapsed: l.sidebar_collapsed,
                view_mode: l.view_mode,
                sort: l.sort,
                favorite_roles: default_favorites(),
                hidden_ssh_target_ids: Seq::empty(),
            },
            terminal: default_terminal(),
        }, None),
        StoredPreferences::Version2(l) => (PreferencesView {
            layout: LayoutView {
                sidebar_collapsed: l.sidebar_collapsed,
                view_mode: l.view_mode,
                sort: l.sort,
                favorite_roles: canonical_roles(l.favorite_roles@),
                hidden_ssh_target_ids: Seq::empty(),
            },
            terminal: default_terminal(),
        }, None),
        StoredPreferences::Version3(l) => if valid_hidden_ids(views(l.hidden_ssh_target_ids@)) {
            (PreferencesView {
                layout: LayoutView {
                    sidebar_collapsed: l.sidebar_collapsed,
                    view_mode: l.view_mode,
                    sort: l.sort,
                    favorite_roles: canonical_roles(l.favorite_roles@),
                    hidden_ssh_target_ids: canonical_ids(views(l.hidden_ssh_target_ids@)),
                },
                terminal: default_terminal(),
            }, None)
        } else {
            (default_preferences(), malformed_warning())
        },
        StoredPreferences::Version4(l, t) => if valid_hidden_ids(views(l.hidden_ssh_target_ids@)) && terminal_valid(t) {
            (PreferencesView {
                layout: LayoutView {
                    sidebar_collapsed: l.sidebar_collapsed,
                    view_mode: l.view_mode,
                    sort: l.sort,
                    favorite_roles: canonical_roles(l.favorite_roles@),
                    hidden_ssh_target_ids: canonical_ids(views(l.hidden_ssh_target_ids@)),
                },
                terminal: t,
            }, None)
        } else {
            (default_preferences(), malformed_warning())
        },
    }
}

/// Defaults, with a warning of the given code and message.
pub fn recovery(code: &str, message: &str) -> (r: (UserPreferencesDto, Option<PreferencesWarningDto>))
    ensures
        r.0@ == default_preferences(),
        warning_view(r.1) == Some((code@, message@)),
{
    (UserPreferencesDto::default(), Some(PreferencesWarningDto { code: code.to_owned(), message: message.to_owned() }))
}

pub fn malformed_recovery() -> (r: (UserPreferencesDto, Option<PreferencesWarningDto>))
    ensures
        r.0@ == default_preferences(),
        warning_view(r.1) == malformed_warning(),
{
    recovery("malformed", "Explora's saved preferences were malformed and defaults were restored.")
}

/// The preferences that a stored document yields, migrated to the current version.
pub fn load_preferences(stored: StoredPreferences) -> (r: (UserPreferencesDto, Option<PreferencesWarningDto>))
    ensures
        (r.0@, warning_view(r.1)) == loaded(stored),
        preferences_canonical(r.0@),
{
    let ghost s = stored;
    let r = match stored {
        StoredPreferences::Missing => (UserPreferencesDto::default(), None),
        StoredPreferences::ReadFailed => recovery(
            "readFailed",
            "Explora could not read saved preferences and used defaults instead.",
        ),
        StoredPreferences::Malformed => malformed_recovery(),
        StoredPreferences::UnsupportedVersion => recovery(
            "unsupportedVersion",
            "Explora could not use preferences saved by a different application version and restored defaults.",
        ),
        StoredPreferences::Version1(layout) => (UserPreferencesDto {
            layout: LayoutPreferencesDto {
                sidebar_collapsed: layout.sidebar_collapsed,
                view_mode: layout.view_mode,
                sort: layout.sort,
                favorite_roles: default_favorite_roles(),
                hidden_ssh_target_ids: Vec::new(),
            },
            terminal: TerminalPreferencesDto::default(),
        }, None),
        StoredPreferences::Version2(layout) => (UserPreferencesDto {
            layout: LayoutPreferencesDto {
                sidebar_collapsed: layout.sidebar_collapsed,
                view_mode: layout.view_mode,
                sort: layout.sort,
                favorite_roles: canonical_favorite_roles(&layout.favorite_roles),
                hidden_ssh_target_ids: Vec::new(),
            },
            terminal: TerminalPreferencesDto::default(),
        }, None),
        StoredPreferences::Version3(layout) => match canonical_hidden_ssh_target_ids(&layout.hidden_ssh_target_ids) {
            Ok(hidden_ssh_target_ids) => (UserPreferencesDto {
                layout: LayoutPreferencesDto {
                    sidebar_collapsed: layout.sidebar_collapsed,
                    view_mode: layout.view_mode,
                    sort: layout.sort,
                    favorite_roles: canonical_favorite_roles(&layout.favorite_roles),
                    hidden_ssh_target_ids,
                },
                terminal: TerminalPreferencesDto::default(),
            }, None),
            Err(_) => malformed_recovery(),
        },
        StoredPreferences::Version4(layout, terminal) => {
            let hidden = canonical_hidden_ssh_target_ids(&layout.hidden_ssh_target_ids);
            let valid_terminal = validate_terminal_preferences(&terminal);
            match (hidden, valid_terminal) {
                (Ok(hidden_ssh_target_ids), Ok(())) => (UserPreferencesDto {
                    layout: LayoutPreferencesDto {
                        sidebar_collapsed: layout.sidebar_collapsed,
                        view_mode: layout.view_mode,
                        sort: layout.sort,
                        favorite_roles: canonical_favorite_roles(&layout.favorite_roles),
                        hidden_ssh_target_ids,
                    },
                    terminal,
                }, None),
                _ => malformed_recovery(),
            }
        },
    };
    proof {
        lemma_loaded_is_canonical(s);
    }
    r
}


/// A migrated favorites list holds exactly the roles the document saved, in the canonical
/// order.
pub proof fn lemma_migrated_favorites(roles: Seq<FavoriteRole>, r: FavoriteRole)
    ensures
        canonical_roles(roles).contains(r) <==> roles.contains(r),
{
    let k: int = match r {
        FavoriteRole::Home => 0,
        FavoriteRole::Desktop => 1,
        FavoriteRole::Documents => 2,
        FavoriteRole::Downloads => 3,
        FavoriteRole::Pictures => 4,
        FavoriteRole::Music => 5,
        FavoriteRole::Videos => 6,
    };
    assert(default_favorites()[k] == r);
    if roles.contains(r) {
        default_favorites().lemma_filter_contains_rev(role_in(roles), r);
    }
    if canonical_roles(roles).contains(r) {
        let j = choose|j: int| 0 <= j < canonical_roles(roles).len() && canonical_roles(roles)[j] == r;
        default_favorites().lemma_filter_pred(role_in(roles), j);
    }
}

/// Migration keeps what an older document holds: the sidebar state, view mode and sort of
/// a version 1, 2 or 3 document (and of a version 4 one) come back as saved, with no
/// warning; a version 4 document also keeps its terminal settings. A version 3 or 4
/// document is used so only when its hidden ids (and terminal) are valid.
pub proof fn lemma_migration_keeps_saved_fields(stored: StoredPreferences)
    ensures
        stored matches StoredPreferences::Version1(l) ==> loaded(stored).0.layout.sidebar_collapsed == l.sidebar_collapsed
            && loaded(stored).0.layout.view_mode == l.view_mode && loaded(stored).0.layout.sort == l.sort
            && loaded(stored).1 is None,
        stored matches StoredPreferences::Version2(l) ==> loaded(stored).0.layout.sidebar_collapsed == l.sidebar_collapsed
            && loaded(stored).0.layout.view_mode == l.view_mode && loaded(stored).0.layout.sort == l.sort
            && loaded(stored).1 is None,
        stored matches StoredPreferences::Version3(l) ==> valid_hidden_ids(views(l.hidden_ssh_target_ids@))
            ==> loaded(stored).0.layout.sidebar_collapsed == l.sidebar_collapsed && loaded(stored).0.layout.view_mode
            == l.view_mode && loaded(stored).0.layout.sort == l.sort && loaded(stored).1 is None,
        stored matches StoredPreferences::Version4(l, t) ==> valid_hidden_ids(views(l.hidden_ssh_target_ids@)) && terminal_valid(t)
            ==> loaded(stored).0.layout.sidebar_collapsed == l.sidebar_collapsed && loaded(stored).0.layout.view_mode
            == l.view_mode && loaded(stored).0.layout.sort == l.sort && loaded(stored).0.terminal == t
            && loaded(stored).1 is None,
        stored matches StoredPreferences::Version1(_) ==> loaded(stored).0.layout.favorite_roles == default_favorites()
            && loaded(stored).0.layout.hidden_ssh_target_ids.len() == 0 && loaded(stored).0.terminal == default_terminal(),
        stored matches StoredPreferences::Version2(_) ==> loaded(stored).0.layout.hidden_ssh_target_ids.len() == 0
            && loaded(stored).0.terminal == default_terminal(),
{
}

/// Two role predicates that agree on every element of `s` select the same elements.
pub proof fn lemma_filter_congruent(s: Seq<FavoriteRole>, p: spec_fn(FavoriteRole) -> bool, q: spec_fn(FavoriteRole) -> bool)
    requires
        forall|i: int| 0 <= i < s.len() ==> p(#[trigger] s[i]) == q(s[i]),
    ensures
        s.filter(p) == s.filter(q),
    decreases s.len(),
{
    reveal(Seq::filter);
    if s.len() > 0 {
        lemma_filter_congruent(s.drop_last(), p, q);
    }
}

/// Canonicalizing the favorites twice is canonicalizing them once.
pub proof fn lemma_canonical_roles_idempotent(roles: Seq<FavoriteRole>)
    ensures
        canonical_roles(canonical_roles(roles)) == canonical_roles(roles),
{
    let c = canonical_roles(roles);
    assert forall|i: int| 0 <= i < default_favorites().len() implies role_in(c)(#[trigger] default_favorites()[i])
        == role_in(roles)(default_favorites()[i]) by {
        let x = default_favorites()[i];
        if roles.contains(x) {
            default_favorites().lemma_filter_contains_rev(role_in(roles), x);
        }
        if c.contains(x) {
            let k = choose|k: int| 0 <= k < c.len() && c[k] == x;
            default_favorites().lemma_filter_pred(role_in(roles), k);
        }
    }
    lemma_filter_congruent(default_favorites(), role_in(c), role_in(roles));
}

/// The default favorites are already canonical.
pub proof fn lemma_default_favorites_canonical()
    ensures
        canonical_roles(default_favorites()) == default_favorites(),
{
    assert forall|i: int| 0 <= i < default_favorites().len() implies role_in(default_favorites())(
        #[trigger] default_favorites()[i]) == (|r: FavoriteRole| true)(default_favorites()[i]) by {
        assert(default_favorites().contains(default_favorites()[i]));
    }
    lemma_filter_congruent(default_favorites(), role_in(default_favorites()), |r: FavoriteRole| true);
    reveal_with_fuel(Seq::filter, 8);
    assert(default_favorites().filter(|r: FavoriteRole| true) =~= default_favorites());
}

/// The canonical hidden ids of valid ids are sorted, repeat-free and valid.
pub proof fn lemma_canonical_ids_valid(ids: Seq<Seq<char>>)
    requires
        valid_hidden_ids(ids),
    ensures
        strictly_sorted(canonical_ids(ids)),
        canonical_ids(ids).to_set() == ids.to_set(),
        valid_hidden_ids(canonical_ids(ids)),
{
    let w = lemma_sorted_arrangement_exists(ids);
    lemma_canonical_ids(w, ids);
    let c = canonical_ids(ids);
    assert forall|i: int| 0 <= i < c.len() implies valid_hidden_id(#[trigger] c[i]) by {
        assert(c.to_set().contains(c[i]));
        let k = choose|k: int| 0 <= k < ids.len() && ids[k] == c[i];
        assert(valid_hidden_id(ids[k]));
    }
    // A repeat-free sequence is no longer than the one it was drawn from.
    assert(c.no_duplicates()) by {
        assert forall|i: int, j: int| 0 <= i < c.len() && 0 <= j < c.len() && i != j implies c[i] != c[j] by {
            if i < j {
                assert(crate::text::chars_lt(c[i], c[j]));
                crate::text::lemma_chars_lt_irreflexive(c[i]);
            } else {
                assert(crate::text::chars_lt(c[j], c[i]));
                crate::text::lemma_chars_lt_irreflexive(c[j]);
            }
        }
    }
    c.unique_seq_to_set();
    ids.lemma_cardinality_of_set();
}

/// Whatever was stored, the preferences it yields are canonical.
pub proof fn lemma_loaded_is_canonical(stored: StoredPreferences)
    ensures
        preferences_canonical(loaded(stored).0),
{
    lemma_default_favorites_canonical();
    assert(strictly_sorted(Seq::<Seq<char>>::empty()));
    match stored {
        StoredPreferences::Version2(l) => {
            lemma_canonical_roles_idempotent(l.favorite_roles@);
        },
        StoredPreferences::Version3(l) => {
            lemma_canonical_roles_idempotent(l.favorite_roles@);
            if valid_hidden_ids(views(l.hidden_ssh_target_ids@)) {
                lemma_canonical_ids_valid(views(l.hidden_ssh_target_ids@));
            }
        },
        StoredPreferences::Version4(l, t) => {
            lemma_canonical_roles_idempotent(l.favorite_roles@);
            if valid_hidden_ids(views(l.hidden_ssh_target_ids@)) {
                lemma_canonical_ids_valid(views(l.hidden_ssh_target_ids@));
            }
        },
        _ => {},
    }
}

/// Canonicalizing hidden ids twice is canonicalizing them once.
pub proof fn lemma_canonical_ids_idempotent(ids: Seq<Seq<char>>)
    requires
        valid_hidden_ids(ids),
    ensures
        canonical_ids(canonical_ids(ids)) == canonical_ids(ids),
{
    lemma_canonical_ids_valid(ids);
    lemma_canonical_ids(canonical_ids(ids), canonical_ids(ids));
}

/// Saved preferences read back as they were: loading the current-version document of
/// canonical preferences yields those preferences and no warning.
pub proof fn lemma_saved_preferences_reload(layout: LayoutPreferencesDto, terminal: TerminalPreferencesDto)
    requires
        preferences_canonical(PreferencesView { layout: layout@, terminal }),
    ensures
        loaded(StoredPreferences::Version4(layout, terminal)) == (PreferencesView { layout: layout@, terminal }, None::<(Seq<char>, Seq<char>)>),
{
    lemma_canonical_ids(layout@.hidden_ssh_target_ids, layout@.hidden_ssh_target_ids);
}

/// An accepted update, once saved, is what a reload gives back: the document holding the
/// patched preferences loads as them, with no warning.
pub proof fn lemma_saved_update_reloads(prefs: PreferencesView, patch: UserPreferencesPatchDto, saved: UserPreferencesDto)
    requires
        preferences_canonical(prefs),
        patch_accepted(prefs, patch),
        saved@ == patched(prefs, patch),
    ensures
        loaded(StoredPreferences::Version4(saved.layout, saved.terminal)) == (patched(prefs, patch), None::<(Seq<char>, Seq<char>)>),
{
    lemma_patched_is_canonical(prefs, patch);
    assert(PreferencesView { layout: saved.layout@, terminal: saved.terminal } == saved@);
    lemma_saved_preferences_reload(saved.layout, saved.terminal);
}

/// A patch that names no field changes nothing.
pub proof fn lemma_empty_patch_keeps_preferences(prefs: PreferencesView)
    ensures
        ({
            let empty = UserPreferencesPatchDto {
                layout: LayoutPreferencesPatchDto {
                    sidebar_collapsed: None,
                    view_mode: None,
                    sort: None,
                    favorite_roles: None,
                    hidden_ssh_target_ids: None,
                },
                terminal: None,
            };
            patch_accepted(prefs, empty) && patched(prefs, empty) == prefs
        }),
{
}

/// Accepted patches keep preferences canonical.
pub proof fn lemma_patched_is_canonical(prefs: PreferencesView, patch: UserPreferencesPatchDto)
    requires
        preferences_canonical(prefs),
        patch_accepted(prefs, patch),
    ensures
        preferences_canonical(patched(prefs, patch)),
{
    if let Some(roles) = patch.layout.favorite_roles {
        lemma_canonical_roles_idempotent(roles@);
    }
    if let Some(ids) = patch.layout.hidden_ssh_target_ids {
        lemma_canonical_ids_valid(views(ids@));
    }
}

/// Where accepted preferences are saved. Implementations replace the whole saved document
/// so that a later start reads either the old preferences or the new ones.
pub trait PreferencesStorage {
    fn persist(&self, preferences: &UserPreferencesDto) -> Result<(), ExplorerError>;
}

/// The preferences in use, the warning from loading them, and where they are saved.
pub struct PreferencesStore<S> {
    storage: S,
    preferences: UserPreferencesDto,
    load_warning: Option<PreferencesWarningDto>,
}

impl<S: PreferencesStorage> PreferencesStore<S> {
    pub closed spec fn preferences(&self) -> PreferencesView {
        self.preferences@
    }

    pub closed spec fn warning(&self) -> Option<(Seq<char>, Seq<char>)> {
        warning_view(self.load_warning)
    }

    /// The store always holds canonical preferences.
    pub open spec fn wf(&self) -> bool {
        preferences_canonical(self.preferences())
    }

    /// A store holding what `stored` yields.
    pub fn new(storage: S, stored: StoredPreferences) -> (r: Self)
        ensures
            (r.preferences(), r.warning()) == loaded(stored),
            r.wf(),
    {
        let (preferences, load_warning) = load_preferences(stored);
        PreferencesStore { storage, preferences, load_warning }
    }

    /// The preferences in use and the warning from loading them.
    pub fn snapshot(&self) -> (r: Result<PreferencesSnapshotDto, ExplorerError>)
        ensures
            r is Ok,
            r->Ok_0.preferences@ == self.preferences(),
            warning_view(r->Ok_0.warning) == self.warning(),
    {
        Ok(PreferencesSnapshotDto { preferences: copy_preferences(&self.preferences), warning: copy_warning(&self.load_warning) })
    }

    /// Applies `patch`, saves the result and then uses it. A refused patch or a failed save
    /// leaves the preferences and the warning as they were; a saved update clears the warning.
    pub fn update(&mut self, patch: UserPreferencesPatchDto) -> (r: Result<UserPreferencesDto, ExplorerError>)
        requires
            old(self).wf(),
        ensures
            final(self).wf(),
            !patch_accepted(old(self).preferences(), patch) ==> r is Err && patch_error(patch, r->Err_0),
            r is Ok ==> r->Ok_0@ == patched(old(self).preferences(), patch) && final(self).preferences() == r->Ok_0@
                && final(self).warning() is None,
            r is Err ==> final(self).preferences() == old(self).preferences() && final(self).warning() == old(self).warning(),
    {
        let updated = match self.prepare_update(&patch) {
            Ok(updated) => updated,
            Err(e) => {
                return Err(e);
            },
        };
        let saved = self.storage.persist(&updated);
        self.commit(updated, saved)
    }

    /// The document an update saves: the preferences in use with `patch` applied, or the
    /// patch's refusal. The host saves exactly this document and hands the outcome to
    /// `commit`.
    pub fn prepare_update(&self, patch: &UserPreferencesPatchDto) -> (r: Result<UserPreferencesDto, ExplorerError>)
        requires
            self.wf(),
        ensures
            r is Ok <==> patch_accepted(self.preferences(), *patch),
            r is Ok ==> r->Ok_0@ == patched(self.preferences(), *patch) && preferences_canonical(r->Ok_0@),
            r is Err ==> patch_error(*patch, r->Err_0),
    {
        let r = apply_preferences_patch(&self.preferences, patch);
        proof {
            if r is Ok {
                lemma_patched_is_canonical(self.preferences(), *patch);
            }
        }
        r
    }

    /// Takes the outcome of saving `updated`: a successful save puts `updated` in use and
    /// clears the warning; a failed save changes nothing and its error is the result.
    pub fn commit(&mut self, updated: UserPreferencesDto, saved: Result<(), ExplorerError>) -> (r: Result<UserPreferencesDto, ExplorerError>)
        requires
            old(self).wf(),
            preferences_canonical(updated@),
        ensures
            final(self).wf(),
            match saved {
                Ok(()) => r is Ok && r->Ok_0@ == updated@ && final(self).preferences() == updated@ && final(self).warning() is None,
                Err(e) => r == Err::<UserPreferencesDto, ExplorerError>(e) && final(self).preferences() == old(self).preferences()
                    && final(self).warning() == old(self).warning(),
            },
    {
        match saved {
            Ok(()) => {},
            Err(e) => {
                return Err(e);
            },
        }
        let result = copy_preferences(&updated);
        self.preferences = updated;
        self.load_warning = None;
        Ok(result)
    }
}

} // verus!
