//! The session state and its transitions. Every operation that the terminal
//! interface triggers is a method here; where a step must read or write a
//! file, the method returns an `Effect` that tells the caller what to do,
//! and a second method takes the outcome.
use crate::crypto::kdf::{derive_key, derived_key};
use crate::session::records::{
    decrypt_stored_entries, encrypt_entries, encrypt_fault, first_stored_fault, lemma_entries_roundtrip, read_back,
    opened_entry, sealed_entry, utf8, PasswordEntry, StoredEntry, VaultDiskFormat, VaultFile,
};
use crate::session::tech::{
    accepts, auth_kdf_params, auth_params, new_tech_file, password_fault, validate_initial_password,
    verify_tech_file, TechFile,
};
use crate::text::{
    blank, is_blank, trim, trimmed, contains, is_infix, occurs_at, lowercase_of, to_lowercase, decimal, digit_char, eq_ignore_ascii_case, same_ignoring_ascii_case, with_number, ascii_lower,
};
use vstd::prelude::*;
use vstd::set_lib::{lemma_int_range, lemma_len_subset, lemma_map_size, set_int_range};

verus! {

/// The screens of the interface.
#[derive(Debug, Clone, Copy, PartialEq, Eq, Structural)]
pub enum AppScreen {
    SetupPassword,
    LoginPassword,
    SecurityRisk,
    Menu,
    AddEntry,
    BackupVault,
    UploadBackup,
    ViewEntries,
    SelectEntry,
    ShowPassword,
}

/// The two questions asked when a service name is already taken.
#[derive(Debug, Clone, Copy, PartialEq, Eq, Structural)]
pub enum DuplicatePrompt {
    /// Overwrite the existing entry?
    Overwrite,
    /// Save the new one as a numbered copy?
    SaveCopy,
}

/// The two steps of editing an entry.
#[derive(Debug, Clone, Copy, PartialEq, Eq, Structural)]
pub enum EditPrompt {
    /// Re-enter the login password.
    Auth,
    /// Edit username and password.
    Edit,
}

/// What the caller must do after a transition.
#[derive(Debug)]
pub enum Effect {
    /// Nothing more.
    Nothing,
    /// Encrypt the entries and write the vault (`AppState::prepare_save`).
    Save,
    /// Write this login check to `tech.json`, then call
    /// `AppState::finish_setup` or `AppState::setup_failed`.
    WriteTechFile(TechFile),
    /// Read `tech.json` and call `AppState::login_initial_password`.
    Login,
    /// Read and parse the vault and call `AppState::load_vault`.
    LoadVault,
    /// Read `tech.json` and call `AppState::unlock_edit_prompt`.
    UnlockEdit,
    /// Write an empty vault without the log flag, then call
    /// `AppState::finish_destroy`.
    DestroyVault,
    /// Copy the vault to the backup directory (`AppState::backup_destination`).
    Backup,
    /// Restore a backup (`AppState::upload_source`).
    Upload,
    /// Leave the program.
    Exit,
}

/// The state of a session.
#[derive(Debug)]
pub struct AppState {
    pub screen: AppScreen,
    pub entries: Vec<PasswordEntry>,
    pub stored_entries: Vec<StoredEntry>,
    /// Service, username and password being typed.
    pub input_buffers: [String; 3],
    /// The field being typed into: 0 service, 1 username, 2 password.
    pub input_field: usize,
    pub selected_index: usize,
    pub search_query: String,
    pub search_field_active: bool,
    pub confirm_delete: bool,
    pub pending_delete_index: Option<usize>,
    pub edit_prompt: Option<EditPrompt>,
    pub edit_index: Option<usize>,
    pub edit_auth_buffer: String,
    /// Username and password being edited.
    pub edit_buffers: [String; 2],
    pub edit_field: usize,
    pub duplicate_prompt: Option<DuplicatePrompt>,
    pub duplicate_index: Option<usize>,
    pub master_password: Option<String>,
    pub master_salt: Option<[u8; 16]>,
    pub vault_path: String,
    pub tech_path: String,
    pub auth_buffer: String,
    pub auth_message: String,
    pub backup_dir_buffer: String,
    pub backup_message: String,
    pub upload_path_buffer: String,
    pub upload_message: String,
    pub show_auth_password: bool,
    pub status_ok: bool,
    pub status_message: String,
    /// The username and password on show.
    pub decrypted_current: Option<(String, String)>,
}

/// An entry's service matches `name`, ignoring ASCII case.
pub open spec fn names_match(e: PasswordEntry, name: Seq<char>) -> bool {
    same_ignoring_ascii_case(e.service@, name)
}

/// The first of the first `n` entries whose service matches `name`.
pub open spec fn first_match(entries: Seq<PasswordEntry>, name: Seq<char>, n: int) -> Option<usize>
    decreases n,
{
    if n <= 0 {
        None
    } else {
        match first_match(entries, name, n - 1) {
            Some(i) => Some(i),
            None => if names_match(entries[n - 1], name) {
                Some((n - 1) as usize)
            } else {
                None
            },
        }
    }
}

/// Some entry's service matches `name`.
pub open spec fn name_taken(entries: Seq<PasswordEntry>, name: Seq<char>) -> bool {
    exists|i: int| 0 <= i < entries.len() && #[trigger] names_match(entries[i], name)
}

/// The name of the `n`-th numbered copy of `base`.
pub open spec fn copy_name(base: Seq<char>, n: nat) -> Seq<char> {
    base + decimal(n)
}

/// Every string is empty.
pub open spec fn all_empty3(b: [String; 3]) -> bool {
    b[0]@.len() == 0 && b[1]@.len() == 0 && b[2]@.len() == 0
}

/// `new` is `old` after the add form was reset.
pub open spec fn input_reset(old: AppState, new: AppState) -> bool {
    &&& new == AppState {
        input_buffers: new.input_buffers,
        input_field: 0,
        duplicate_prompt: None,
        duplicate_index: None,
        ..old
    }
    &&& all_empty3(new.input_buffers)
}

/// `new` is `old` after the credential being typed was added under
/// `service`, the form reset and the menu shown.
pub open spec fn inserted(old: AppState, new: AppState, service: String) -> bool {
    &&& new.entries@ == old.entries@.push(
        PasswordEntry {
            service,
            username: old.input_buffers[1],
            password: old.input_buffers[2],
        },
    )
    &&& input_reset(AppState { entries: new.entries, screen: AppScreen::Menu, ..old }, new)
}

proof fn lemma_first_match(entries: Seq<PasswordEntry>, name: Seq<char>, n: int)
    requires
        0 <= n <= entries.len(),
        n <= usize::MAX,
    ensures
        first_match(entries, name, n) matches Some(i) ==> i < n && names_match(entries[i as int], name),
        first_match(entries, name, n) is None ==> forall|j: int| 0 <= j < n ==> !#[trigger] names_match(entries[j], name),
    decreases n,
{
    if n > 0 {
        lemma_first_match(entries, name, n - 1);
    }
}

proof fn lemma_decimal_len(n: nat)
    ensures
        decimal(n).len() >= 1,
        forall|i: int| 0 <= i < decimal(n).len() ==> ascii_lower(#[trigger] decimal(n)[i]) == decimal(n)[i],
    decreases n,
{
    if n >= 10 {
        lemma_decimal_len(n / 10);
    }
}

proof fn lemma_digit_injective(x: nat, y: nat)
    requires
        x < 10,
        y < 10,
        digit_char(x) == digit_char(y),
    ensures
        x == y,
{
}

proof fn lemma_decimal_injective(a: nat, b: nat)
    requires
        decimal(a) == decimal(b),
    ensures
        a == b,
    decreases a,
{
    lemma_decimal_len(a);
    lemma_decimal_len(b);
    if a >= 10 && b >= 10 {
        lemma_decimal_len(a / 10);
        lemma_decimal_len(b / 10);
        assert(decimal(a / 10) == decimal(a).drop_last());
        assert(decimal(b / 10) == decimal(b).drop_last());
        lemma_decimal_injective(a / 10, b / 10);
        assert(decimal(a) == decimal(a / 10).push(digit_char(a % 10)));
        assert(decimal(b) == decimal(b / 10).push(digit_char(b % 10)));
        assert(decimal(a).last() == digit_char(a % 10));
        assert(decimal(b).last() == digit_char(b % 10));
        lemma_digit_injective(a % 10, b % 10);
    } else if a < 10 && b < 10 {
        assert(decimal(a)[0] == digit_char(a));
        assert(decimal(b)[0] == digit_char(b));
        lemma_digit_injective(a, b);
    } else if a >= 10 {
        lemma_decimal_len(a / 10);
        assert(decimal(a).len() >= 2);
    } else if b >= 10 {
        lemma_decimal_len(b / 10);
        assert(decimal(b).len() >= 2);
    }
}

/// Two different numbered copies of a name never match each other.
proof fn lemma_copy_names_differ(base: Seq<char>, a: nat, b: nat)
    requires
        same_ignoring_ascii_case(copy_name(base, a), copy_name(base, b)),
    ensures
        a == b,
{
    lemma_decimal_len(a);
    lemma_decimal_len(b);
    let da = decimal(a);
    let db = decimal(b);
    assert(da.len() == db.len());
    assert forall|i: int| 0 <= i < da.len() implies da[i] == db[i] by {
        assert(ascii_lower(da[i]) == da[i]);
        assert(ascii_lower(db[i]) == db[i]);
        assert(copy_name(base, a)[base.len() + i] == da[i]);
        assert(copy_name(base, b)[base.len() + i] == db[i]);
        assert(ascii_lower(copy_name(base, a)[base.len() + i]) == ascii_lower(
            copy_name(base, b)[base.len() + i],
        ));
    }
    assert(da =~= db);
    lemma_decimal_injective(a, b);
}

/// Only as many numbered copies of a name as there are entries can be
/// taken.
proof fn lemma_copies_bounded(entries: Seq<PasswordEntry>, base: Seq<char>, k: nat)
    requires
        forall|m: nat| 1 <= m <= k ==> name_taken(entries, #[trigger] copy_name(base, m)),
    ensures
        k <= entries.len(),
{
    let f = |m: int| choose|i: int| 0 <= i < entries.len() && names_match(entries[i], copy_name(base, m as nat));
    let x = set_int_range(1, k as int + 1);
    lemma_int_range(1, k as int + 1);
    assert forall|m1: int, m2: int| x.contains(m1) && x.contains(m2) && #[trigger] f(m1) == #[trigger] f(m2) implies m1 == m2 by {
        assert(name_taken(entries, copy_name(base, m1 as nat)));
        assert(name_taken(entries, copy_name(base, m2 as nat)));
        let i = f(m1);
        let s = entries[i].service@;
        let c1 = copy_name(base, m1 as nat);
        let c2 = copy_name(base, m2 as nat);
        assert(names_match(entries[i], c1));
        assert(names_match(entries[i], c2));
        assert forall|j: int| 0 <= j < c1.len() implies #[trigger] ascii_lower(c1[j]) == ascii_lower(c2[j]) by {
            assert(ascii_lower(s[j]) == ascii_lower(c1[j]));
            assert(ascii_lower(s[j]) == ascii_lower(c2[j]));
        }
        lemma_copy_names_differ(base, m1 as nat, m2 as nat);
    }
    let y = x.map(f);
    lemma_map_size(x, y, f);
    lemma_int_range(0, entries.len() as int);
    assert forall|i: int| y.contains(i) implies set_int_range(0, entries.len() as int).contains(i) by {
        let m = choose|m: int| x.contains(m) && f(m) == i;
        assert(name_taken(entries, copy_name(base, m as nat)));
    }
    lemma_len_subset(y, set_int_range(0, entries.len() as int));
}

impl AppState {
    /// A session as the program starts: the setup screen, no entries,
    /// empty buffers, `vault.json` and `tech.json` as the vault and check
    /// files, and status `OK`.
    pub fn new() -> (s: Self)
        ensures
            s.screen == AppScreen::SetupPassword,
            s.entries@.len() == 0,
            s.stored_entries@.len() == 0,
            all_empty3(s.input_buffers),
            s.input_field == 0,
            s.selected_index == 0,
            s.search_query@.len() == 0,
            s.search_field_active,
            !s.confirm_delete,
            s.pending_delete_index is None,
            s.edit_prompt is None,
            s.edit_index is None,
            s.edit_auth_buffer@.len() == 0,
            s.edit_buffers[0]@.len() == 0 && s.edit_buffers[1]@.len() == 0,
            s.edit_field == 0,
            s.duplicate_prompt is None,
            s.duplicate_index is None,
            s.master_password is None,
            s.master_salt is None,
            s.vault_path@ == "vault.json"@,
            s.tech_path@ == "tech.json"@,
            s.auth_buffer@.len() == 0,
            s.auth_message@.len() == 0,
            s.backup_dir_buffer@.len() == 0,
            s.backup_message@.len() == 0,
            s.upload_path_buffer@.len() == 0,
            s.upload_message@.len() == 0,
            !s.show_auth_password,
            s.status_ok,
            s.status_message@ == "OK"@,
            s.decrypted_current is None,
    {
        AppState {
            screen: AppScreen::SetupPassword,
            entries: Vec::new(),
            stored_entries: Vec::new(),
            input_buffers: [String::new(), String::new(), String::new()],
            input_field: 0,
            selected_index: 0,
            search_query: String::new(),
            search_field_active: true,
            confirm_delete: false,
            pending_delete_index: None,
            edit_prompt: None,
            edit_index: None,
            edit_auth_buffer: String::new(),
            edit_buffers: [String::new(), String::new()],
            edit_field: 0,
            duplicate_prompt: None,
            duplicate_index: None,
            master_password: None,
            master_salt: None,
            vault_path: "vault.json".to_string(),
            tech_path: "tech.json".to_string(),
            auth_buffer: String::new(),
            auth_message: String::new(),
            backup_dir_buffer: String::new(),
            backup_message: String::new(),
            upload_path_buffer: String::new(),
            upload_message: String::new(),
            show_auth_password: false,
            status_ok: true,
            status_message: "OK".to_string(),
            decrypted_current: None,
        }
    }

    /// Sets the status bar to `OK`.
    pub fn set_status_ok(&mut self)
        ensures
            *final(self) == (AppState { status_ok: true, status_message: final(self).status_message, ..*old(self) }),
            final(self).status_message@ == "OK"@,
    {
        self.status_ok = true;
        self.status_message = "OK".to_string();
    }

    /// Sets the status bar to `ERROR` with a short reason.
    pub fn set_status_error(&mut self, message: &str)
        ensures
            *final(self) == (AppState { status_ok: false, status_message: final(self).status_message, ..*old(self) }),
            final(self).status_message@ == message@,
    {
        self.status_ok = false;
        self.status_message = message.to_string();
    }

    /// Clears the add form: empty fields, the service field selected, no
    /// duplicate question.
    pub fn reset_input(&mut self)
        ensures
            input_reset(*old(self), *final(self)),
    {
        self.input_buffers = [String::new(), String::new(), String::new()];
        self.input_field = 0;
        self.duplicate_prompt = None;
        self.duplicate_index = None;
    }

    /// The index of the first entry whose service equals `service`,
    /// ignoring ASCII case.
    pub fn find_service_index(&self, service: &str) -> (r: Option<usize>)
        ensures
            r == first_match(self.entries@, service@, self.entries@.len() as int),
    {
        let mut i: usize = 0;
        while i < self.entries.len()
            invariant
                0 <= i <= self.entries.len(),
                first_match(self.entries@, service@, i as int) is None,
            decreases self.entries.len() - i,
        {
            if eq_ignore_ascii_case(self.entries[i].service.as_str(), service) {
                proof {
                    lemma_first_match_stays(self.entries@, service@, i as int + 1, self.entries@.len() as int);
                }
                return Some(i);
            }
            i = i + 1;
        }
        None
    }

    /// Adds the credential being typed under `service`, resets the form and
    /// returns to the menu; the vault is then saved.
    pub fn insert_current_entry(&mut self, service: String) -> (e: Effect)
        ensures
            inserted(*old(self), *final(self), service),
            e is Save,
    {
        let entry = PasswordEntry {
            service,
            username: self.input_buffers[1].clone(),
            password: self.input_buffers[2].clone(),
        };
        self.entries.push(entry);
        self.reset_input();
        self.screen = AppScreen::Menu;
        Effect::Save
    }

    /// Confirms the add form. Nothing happens without a service name or
    /// before login; a service that is already taken (ignoring ASCII case)
    /// raises the overwrite question; otherwise the credential is added.
    pub fn add_entry(&mut self) -> (e: Effect)
        ensures
            old(self).adds_entry(*final(self), e),
    {
        if self.input_buffers[0].as_str().is_empty() || self.master_password.is_none() {
            return Effect::Nothing;
        }
        match self.find_service_index(self.input_buffers[0].as_str()) {
            Some(index) => {
                self.duplicate_index = Some(index);
                self.duplicate_prompt = Some(DuplicatePrompt::Overwrite);
                Effect::Nothing
            },
            None => {
                let service = self.input_buffers[0].clone();
                self.insert_current_entry(service)
            },
        }
    }

    /// Answers yes to the overwrite question: the matching entry takes the
    /// typed username and password, the form is reset and the menu shown;
    /// the vault is then saved.
    pub fn overwrite_duplicate_entry(&mut self) -> (e: Effect)
        ensures
            old(self).overwrites_duplicate(*final(self), e),
    {
        match self.duplicate_index {
            Some(index) => {
                if index < self.entries.len() {
                    let updated = PasswordEntry {
                        service: self.entries[index].service.clone(),
                        username: self.input_buffers[1].clone(),
                        password: self.input_buffers[2].clone(),
                    };
                    self.entries.set(index, updated);
                }
                self.reset_input();
                self.screen = AppScreen::Menu;
                Effect::Save
            },
            None => Effect::Nothing,
        }
    }

    /// The first numbered copy of `base` (`base1`, `base2`, ...) that no
    /// entry's service matches.
    pub fn next_duplicate_service_name(&self, base: &str) -> (r: String)
        ensures
            exists|n: nat| #![trigger copy_name(base@, n)]
                1 <= n && r@ == copy_name(base@, n) && !name_taken(self.entries@, copy_name(base@, n))
                && forall|m: nat| 1 <= m < n ==> name_taken(self.entries@, #[trigger] copy_name(base@, m)),
    {
        let mut copy_number: u128 = 1;
        let limit: u128 = self.entries.len() as u128 + 1;
        while copy_number <= limit
            invariant
                1 <= copy_number,
                limit == self.entries@.len() + 1,
                self.entries@.len() <= usize::MAX,
                forall|m: nat| 1 <= m < copy_number ==> name_taken(self.entries@, #[trigger] copy_name(base@, m)),
            decreases limit + 1 - copy_number,
        {
            let candidate = with_number(base, copy_number);
            if self.find_service_index(candidate.as_str()).is_none() {
                proof {
                    lemma_first_match(self.entries@, candidate@, self.entries@.len() as int);
                    assert(candidate@ == copy_name(base@, copy_number as nat));
                }
                return candidate;
            }
            proof {
                lemma_first_match(self.entries@, candidate@, self.entries@.len() as int);
                let i = first_match(self.entries@, candidate@, self.entries@.len() as int)->0;
                assert(names_match(self.entries@[i as int], copy_name(base@, copy_number as nat)));
                assert forall|m: nat| 1 <= m < copy_number + 1 implies name_taken(self.entries@, #[trigger] copy_name(base@, m)) by {
                    if m == copy_number {
                        assert(names_match(self.entries@[i as int], copy_name(base@, m)));
                    }
                }
                lemma_copies_bounded(self.entries@, base@, copy_number as nat);
            }
            copy_number = copy_number + 1;
        }
        proof {
            lemma_copies_bounded(self.entries@, base@, (copy_number - 1) as nat);
        }
        assert(false);
        String::new()
    }

    /// Answers yes to the numbered-copy question: the credential is added
    /// under the first free numbered copy of the typed service name.
    pub fn save_duplicate_copy(&mut self) -> (e: Effect)
        ensures
            old(self).saves_copy(*final(self), e),
    {
        let service = self.next_duplicate_service_name(self.input_buffers[0].as_str());
        self.insert_current_entry(service)
    }

    /// Prepares the backup form: an empty directory field and the prompt.
    pub fn reset_backup(&mut self)
        ensures
            old(self).backup_reset(*final(self)),
    {
        self.backup_dir_buffer = String::new();
        self.backup_message = "Enter destination directory for encrypted vault copy".to_string();
    }

    /// Prepares the restore form: an empty path field and the prompt.
    pub fn reset_upload_backup(&mut self)
        ensures
            old(self).upload_reset(*final(self)),
    {
        self.upload_path_buffer = String::new();
        self.upload_message = "Enter encrypted backup file path".to_string();
    }

    /// Closes the edit popup and clears its buffers.
    pub fn reset_edit_prompt(&mut self)
        ensures
            old(self).edit_reset(*final(self)),
    {
        self.edit_prompt = None;
        self.edit_index = None;
        self.edit_auth_buffer = String::new();
        self.edit_buffers = [String::new(), String::new()];
        self.edit_field = 0;
    }

    /// Starts a new search: empty query typed in the search field, cursor on
    /// the first result, no delete question and no edit popup.
    pub fn reset_search(&mut self)
        ensures
            old(self).search_reset(*final(self)),
    {
        self.search_query = String::new();
        self.search_field_active = true;
        self.selected_index = 0;
        self.confirm_delete = false;
        self.pending_delete_index = None;
        self.reset_edit_prompt();
    }

    /// The indices of the entries that the search lists.
    pub fn filtered_entry_indices(&self) -> (v: Vec<usize>)
        ensures
            v@ == self.visible_indices(),
            self.search_query@.len() == 0 ==> v@ == Seq::new(self.entries@.len(), |k: int| k as usize),
    {
        let query = to_lowercase(self.search_query.as_str());
        let mut v: Vec<usize> = Vec::new();
        let mut i: usize = 0;
        while i < self.entries.len()
            invariant
                0 <= i <= self.entries.len(),
                query@ == lowercase_of(self.search_query@),
                query@.len() == 0 <==> self.search_query@.len() == 0,
                v@ == visible(self.entries@, query@, i as int),
                self.search_query@.len() == 0 ==> v@ =~= Seq::new(i as nat, |k: int| k as usize),
            decreases self.entries.len() - i,
        {
            let listed = if query.as_str().is_empty() {
                true
            } else {
                let service = to_lowercase(self.entries[i].service.as_str());
                contains(service.as_str(), query.as_str())
            };
            if listed {
                v.push(i);
            }
            i = i + 1;
        }
        v
    }

    /// The index of the entry under the cursor, if the cursor is on a
    /// result.
    pub fn selected_entry_index(&self) -> (r: Option<usize>)
        ensures
            r == self.selected_entry(),
            r matches Some(i) ==> i < self.entries@.len(),
    {
        let visible = self.filtered_entry_indices();
        assert(self.entries@.len() == self.entries.len());
        proof {
            lemma_visible_bounds(self.entries@, lowercase_of(self.search_query@), self.entries@.len() as int);
        }
        if self.selected_index < visible.len() {
            Some(visible[self.selected_index])
        } else {
            None
        }
    }

    /// Moves the cursor back onto the results.
    pub fn clamp_selected_index(&mut self)
        ensures
            *final(self) == (AppState { selected_index: old(self).clamped_selection(), ..*old(self) }),
    {
        let visible_len = self.filtered_entry_indices().len();
        if visible_len == 0 {
            self.selected_index = 0;
        } else if self.selected_index >= visible_len {
            self.selected_index = visible_len - 1;
        }
    }

    /// Deletes the entry at `index` (if there is one), closes the delete
    /// question and the password view, moves the cursor back onto the
    /// results; the vault is then saved.
    pub fn delete_entry(&mut self, index: usize) -> (e: Effect)
        ensures
            old(self).deletes(*final(self), e, index),
    {
        if index < self.entries.len() {
            self.entries.remove(index);
            self.decrypted_current = None;
            self.confirm_delete = false;
            self.pending_delete_index = None;
            self.clamp_selected_index();
            Effect::Save
        } else {
            Effect::Nothing
        }
    }

    /// Opens the password popup that guards editing the entry under the
    /// cursor.
    pub fn start_edit_auth(&mut self)
        ensures
            old(self).starts_edit(*final(self)),
    {
        match self.selected_entry_index() {
            Some(index) => {
                self.edit_index = Some(index);
                self.edit_auth_buffer = String::new();
                self.edit_prompt = Some(EditPrompt::Auth);
            },
            None => {},
        }
    }

    /// The state that a passed edit check leaves: the entry being edited
    /// (if there is one) has its username and password loaded into the edit
    /// fields, the username field selected and the popup in its edit step;
    /// the typed password is cleared.
    pub open spec fn edit_unlocked(self, new: AppState) -> bool {
        match self.edit_index {
            Some(i) => if i < self.entries@.len() {
                &&& new == (AppState {
                    edit_buffers: new.edit_buffers,
                    edit_field: 0,
                    edit_prompt: Some(EditPrompt::Edit),
                    edit_auth_buffer: new.edit_auth_buffer,
                    ..self
                })
                &&& new.edit_auth_buffer@.len() == 0
                &&& new.edit_buffers[0] == self.entries@[i as int].username
                &&& new.edit_buffers[1] == self.entries@[i as int].password
            } else {
                new == self
            },
            None => new == self,
        }
    }

    /// The state that a failed edit check leaves: only the typed password
    /// is cleared.
    pub open spec fn edit_refused(self, new: AppState) -> bool {
        &&& new == (AppState { edit_auth_buffer: new.edit_auth_buffer, ..self })
        &&& new.edit_auth_buffer@.len() == 0
    }

    /// Settles the edit popup from the outcome `ok` of the password check:
    /// a pass unlocks editing of the entry, a failure only clears the typed
    /// password.
    pub fn finish_edit_unlock(&mut self, ok: bool)
        ensures
            ok ==> old(self).edit_unlocked(*final(self)),
            !ok ==> old(self).edit_refused(*final(self)),
    {
        if ok {
            match self.edit_index {
                Some(index) => {
                    if index < self.entries.len() {
                        self.edit_buffers = [
                            self.entries[index].username.clone(),
                            self.entries[index].password.clone(),
                        ];
                        self.edit_field = 0;
                        self.edit_auth_buffer = String::new();
                        self.edit_prompt = Some(EditPrompt::Edit);
                    }
                },
                None => {},
            }
        } else {
            self.edit_auth_buffer = String::new();
        }
    }

    /// Checks the password typed in the edit popup against the login check
    /// `tech` (the contents of `tech.json`, if it could be read) with
    /// `verify_tech_file`, then settles the popup with `finish_edit_unlock`
    /// on its answer. Editing unlocks only for a password that the check
    /// accepts; a missing check, a refused password or a failed key
    /// derivation leaves only the typed password cleared.
    pub fn unlock_edit_prompt(&mut self, tech: Option<&TechFile>)
        ensures
            old(self).edit_refused(*final(self)) || ((tech matches Some(t) && accepts(*t, old(self).edit_auth_buffer@))
                && old(self).edit_unlocked(*final(self))),
            !(tech matches Some(t) && accepts(*t, old(self).edit_auth_buffer@)) ==> old(self).edit_refused(*final(self)),
    {
        let ok = verify_tech_file(tech, self.edit_auth_buffer.as_str());
        self.finish_edit_unlock(ok);
    }

    /// Saves the edited username and password into the entry being edited
    /// (then the vault is saved) and closes the popup.
    pub fn save_edited_entry(&mut self) -> (e: Effect)
        ensures
            old(self).saves_edit(*final(self), e),
    {
        let mut effect = Effect::Nothing;
        match self.edit_index {
            Some(index) => {
                if index < self.entries.len() {
                    let updated = PasswordEntry {
                        service: self.entries[index].service.clone(),
                        username: self.edit_buffers[0].clone(),
                        password: self.edit_buffers[1].clone(),
                    };
                    self.entries.set(index, updated);
                    effect = Effect::Save;
                }
            },
            None => {},
        }
        self.reset_edit_prompt();
        effect
    }
}

/// An entry is listed for a lower-cased query: the query is empty or occurs
/// in the lower-cased service name.
pub open spec fn shown(e: PasswordEntry, q: Seq<char>) -> bool {
    q.len() == 0 || is_infix(q, lowercase_of(e.service@))
}

/// The indices, in order, of the first `n` entries listed for `q`.
pub open spec fn visible(entries: Seq<PasswordEntry>, q: Seq<char>, n: int) -> Seq<usize>
    decreases n,
{
    if n <= 0 {
        Seq::empty()
    } else if shown(entries[n - 1], q) {
        visible(entries, q, n - 1).push((n - 1) as usize)
    } else {
        visible(entries, q, n - 1)
    }
}

proof fn lemma_visible_bounds(entries: Seq<PasswordEntry>, q: Seq<char>, n: int)
    requires
        0 <= n <= entries.len(),
        n <= usize::MAX,
    ensures
        visible(entries, q, n).len() <= n,
        forall|k: int| 0 <= k < visible(entries, q, n).len() ==> #[trigger] visible(entries, q, n)[k] < n,
    decreases n,
{
    if n > 0 {
        lemma_visible_bounds(entries, q, n - 1);
    }
}

impl AppState {
    /// The indices of the entries that the search lists: those whose
    /// lower-cased service contains the lower-cased query (all of them for
    /// an empty query), in order.
    pub open spec fn visible_indices(self) -> Seq<usize> {
        visible(self.entries@, lowercase_of(self.search_query@), self.entries@.len() as int)
    }

    /// The entry under the cursor in the search results.
    pub open spec fn selected_entry(self) -> Option<usize> {
        if self.selected_index < self.visible_indices().len() {
            Some(self.visible_indices()[self.selected_index as int])
        } else {
            None
        }
    }

    /// The cursor moved back onto the results: the last one when it is past
    /// them, 0 when there are none.
    pub open spec fn clamped_selection(self) -> usize {
        let n = self.visible_indices().len();
        if n == 0 {
            0
        } else if self.selected_index >= n {
            (n - 1) as usize
        } else {
            self.selected_index
        }
    }

    /// The state that `reset_edit_prompt` leaves.
    pub open spec fn edit_reset(self, new: AppState) -> bool {
        &&& new == AppState {
            edit_prompt: None,
            edit_index: None,
            edit_field: 0,
            edit_auth_buffer: new.edit_auth_buffer,
            edit_buffers: new.edit_buffers,
            ..self
        }
        &&& new.edit_auth_buffer@.len() == 0
        &&& new.edit_buffers[0]@.len() == 0
        &&& new.edit_buffers[1]@.len() == 0
    }
}

/// The key that protects the vault of an unlocked session: derived from
/// the master password and salt with the login parameters.
pub open spec fn vault_key(s: AppState) -> Seq<u8> {
    derived_key(utf8(s.master_password->0@), s.master_salt->0@, auth_params())
}

/// `entries` is what `stored` holds under `key`: every stored entry opens,
/// and to the corresponding credential.
pub open spec fn opened_into(stored: Seq<StoredEntry>, key: Seq<u8>, entries: Seq<PasswordEntry>) -> bool {
    &&& first_stored_fault(stored, key, stored.len() as int) is None
    &&& entries.len() == stored.len()
    &&& forall|i: int| 0 <= i < stored.len() ==> #[trigger] entries[i]@ == opened_entry(stored[i], key)
}

/// `v` is a vault file that `prepare_save` may return for `s`: it carries
/// the log flag and holds every entry of `s`, in order, sealed under the
/// session's vault key.
pub open spec fn saved_as(s: AppState, v: VaultFile) -> bool {
    &&& s.master_password is Some
    &&& s.master_salt is Some
    &&& v.log
    &&& v.entries@.len() == s.entries@.len()
    &&& forall|i: int| 0 <= i < s.entries@.len() ==> #[trigger] sealed_entry(v.entries@[i], s.entries@[i], vault_key(s))
}

/// The legacy all-zero salt of vaults written before salts were random.
pub open spec fn legacy_salt() -> Seq<u8> {
    Seq::new(16, |i: int| 0u8)
}

/// Law: a vault that `prepare_save` wrote for a session opens, under the
/// same session's key, to exactly the session's entries.
pub proof fn lemma_save_load_roundtrip(s: AppState, v: VaultFile)
    requires
        saved_as(s, v),
    ensures
        opened_into(v.entries@, vault_key(s), s.entries@),
{
    lemma_entries_roundtrip(s.entries@, v.entries@, vault_key(s));
}

impl AppState {
    /// The outcome of `add_entry`: `new` (and the effect `e`) is what it leaves.
    pub open spec fn adds_entry(self, new: AppState, e: Effect) -> bool {
        &&& (if self.input_buffers[0]@.len() == 0 || self.master_password is None {
                new == self && e is Nothing
            } else {
                match first_match(self.entries@, self.input_buffers[0]@, self.entries@.len() as int) {
                    Some(i) => new == (AppState {
                        duplicate_index: Some(i),
                        duplicate_prompt: Some(DuplicatePrompt::Overwrite),
                        ..self
                    }) && e is Nothing,
                    None => inserted(self, new, self.input_buffers[0]) && e is Save,
                }
            })
    }

    /// The outcome of `overwrite_duplicate_entry`: `new` (and the effect `e`) is what it leaves.
    pub open spec fn overwrites_duplicate(self, new: AppState, e: Effect) -> bool {
        &&& (match self.duplicate_index {
                None => new == self && e is Nothing,
                Some(i) => {
                    &&& if i < self.entries@.len() {
                        new.entries@ == self.entries@.update(
                            i as int,
                            PasswordEntry {
                                service: self.entries@[i as int].service,
                                username: self.input_buffers[1],
                                password: self.input_buffers[2],
                            },
                        )
                    } else {
                        new.entries@ == self.entries@
                    }
                    &&& input_reset(
                        AppState { entries: new.entries, screen: AppScreen::Menu, ..self },
                        new,
                    )
                    &&& e is Save
                },
            })
    }

    /// The outcome of `save_duplicate_copy`: `new` (and the effect `e`) is what it leaves.
    pub open spec fn saves_copy(self, new: AppState, e: Effect) -> bool {
        &&& (exists|n: nat| #![trigger copy_name(self.input_buffers[0]@, n)]
                1 <= n && !name_taken(self.entries@, copy_name(self.input_buffers[0]@, n))
                && (forall|m: nat| 1 <= m < n ==> name_taken(self.entries@, #[trigger] copy_name(self.input_buffers[0]@, m)))
                && new.entries@.last().service@ == copy_name(self.input_buffers[0]@, n))
        &&& (new.entries@.len() == self.entries@.len() + 1)
        &&& (inserted(self, new, new.entries@.last().service))
        &&& (e is Save)
    }

    /// The outcome of `delete_entry`: `new` (and the effect `e`) is what it leaves.
    pub open spec fn deletes(self, new: AppState, e: Effect, index: usize) -> bool {
        &&& (if index < self.entries@.len() {
                let removed = AppState {
                    entries: new.entries,
                    decrypted_current: None,
                    confirm_delete: false,
                    pending_delete_index: None,
                    ..self
                };
                &&& new.entries@ == self.entries@.remove(index as int)
                &&& new == (AppState { selected_index: removed.clamped_selection(), ..removed })
                &&& e is Save
            } else {
                new == self && e is Nothing
            })
    }

    /// The outcome of `start_edit_auth`: `new` is what it leaves.
    pub open spec fn starts_edit(self, new: AppState) -> bool {
        &&& (match self.selected_entry() {
                Some(i) => new == (AppState {
                    edit_index: Some(i),
                    edit_auth_buffer: new.edit_auth_buffer,
                    edit_prompt: Some(EditPrompt::Auth),
                    ..self
                }) && new.edit_auth_buffer@.len() == 0,
                None => new == self,
            })
    }

    /// The outcome of `save_edited_entry`: `new` (and the effect `e`) is what it leaves.
    pub open spec fn saves_edit(self, new: AppState, e: Effect) -> bool {
        &&& (match self.edit_index {
                Some(i) => if i < self.entries@.len() {
                    &&& new.entries@ == self.entries@.update(
                        i as int,
                        PasswordEntry {
                            service: self.entries@[i as int].service,
                            username: self.edit_buffers[0],
                            password: self.edit_buffers[1],
                        },
                    )
                    &&& (AppState { entries: new.entries, ..self }).edit_reset(new)
                    &&& e is Save
                } else {
                    self.edit_reset(new) && e is Nothing
                },
                None => self.edit_reset(new) && e is Nothing,
            })
    }

    /// The outcome of `setup_initial_password`: `new` (and the effect `e`) is what it leaves.
    pub open spec fn sets_up(self, new: AppState, e: Effect) -> bool {
        &&& (match password_fault(self.auth_buffer@) {
                Some(m) => new == (AppState { auth_message: new.auth_message, ..self })
                    && new.auth_message@ == m && e is Nothing,
                None => (new == self && (e matches Effect::WriteTechFile(t) && accepts(
                    t,
                    self.auth_buffer@,
                ))) || (self.setup_failure(new) && e is Nothing),
            })
    }

    /// The outcome of `destroy_vault_after_security_risk`: `new` (and the effect `e`) is what it leaves.
    pub open spec fn destroys(self, new: AppState, e: Effect) -> bool {
        &&& (new == (AppState { entries: new.entries, stored_entries: new.stored_entries, ..self }))
        &&& (new.entries@.len() == 0)
        &&& (new.stored_entries@.len() == 0)
        &&& (e is DestroyVault)
    }

    /// The outcome of `reset_backup`: `new` is what it leaves.
    pub open spec fn backup_reset(self, new: AppState) -> bool {
        &&& (new == (AppState {
                backup_dir_buffer: new.backup_dir_buffer,
                backup_message: new.backup_message,
                ..self
            }))
        &&& (new.backup_dir_buffer@.len() == 0)
        &&& (new.backup_message@ == "Enter destination directory for encrypted vault copy"@)
    }

    /// The outcome of `reset_upload_backup`: `new` is what it leaves.
    pub open spec fn upload_reset(self, new: AppState) -> bool {
        &&& (new == (AppState {
                upload_path_buffer: new.upload_path_buffer,
                upload_message: new.upload_message,
                ..self
            }))
        &&& (new.upload_path_buffer@.len() == 0)
        &&& (new.upload_message@ == "Enter encrypted backup file path"@)
    }

    /// The outcome of `reset_search`: `new` is what it leaves.
    pub open spec fn search_reset(self, new: AppState) -> bool {
        &&& ((AppState {
                search_query: new.search_query,
                search_field_active: true,
                selected_index: 0,
                confirm_delete: false,
                pending_delete_index: None,
                ..self
            }).edit_reset(new))
        &&& (new.search_query@.len() == 0)
    }
}

/// Every listed index is an entry's.
pub proof fn lemma_visible_in_range(s: AppState)
    requires
        s.entries@.len() <= usize::MAX,
    ensures
        forall|k: int| 0 <= k < s.visible_indices().len() ==> #[trigger] s.visible_indices()[k] < s.entries@.len(),
{
    lemma_visible_bounds(s.entries@, lowercase_of(s.search_query@), s.entries@.len() as int);
}

proof fn lemma_first_match_stays(entries: Seq<PasswordEntry>, name: Seq<char>, i: int, n: int)
    requires
        0 < i <= n,
        first_match(entries, name, i) is Some,
    ensures
        first_match(entries, name, n) == first_match(entries, name, i),
    decreases n - i,
{
    if i < n {
        lemma_first_match_stays(entries, name, i, n - 1);
    }
}

impl AppState {
    /// Picks the first screen. A vault that carries the log flag without a
    /// login check means someone may be bypassing the password: the
    /// security-risk screen. Otherwise an existing check asks for the
    /// password, and no check asks to create one.
    pub fn initialize_security(&mut self, tech_exists: bool, vault_exists: bool, vault_log_enabled: bool)
        ensures
            *final(self) == (AppState { screen: final(self).screen, auth_message: final(self).auth_message, ..*old(self) }),
            if !tech_exists && vault_exists && vault_log_enabled {
                final(self).screen == AppScreen::SecurityRisk && final(self).auth_message@ == "secury recovery risk"@
            } else if tech_exists {
                final(self).screen == AppScreen::LoginPassword && final(self).auth_message@ == "Enter initial password"@
            } else {
                final(self).screen == AppScreen::SetupPassword && final(self).auth_message@
                    == "Create password: 8+ chars, 1 number, 1 special symbol"@
            },
    {
        if !tech_exists && vault_exists && vault_log_enabled {
            self.screen = AppScreen::SecurityRisk;
            self.auth_message = "secury recovery risk".to_string();
        } else if tech_exists {
            self.screen = AppScreen::LoginPassword;
            self.auth_message = "Enter initial password".to_string();
        } else {
            self.screen = AppScreen::SetupPassword;
            self.auth_message = "Create password: 8+ chars, 1 number, 1 special symbol".to_string();
        }
    }

    /// The state after the login check could not be created.
    pub open spec fn setup_failure(self, new: AppState) -> bool {
        &&& new == AppState {
            auth_message: new.auth_message,
            status_ok: false,
            status_message: new.status_message,
            ..self
        }
        &&& new.auth_message@ == "Could not create tech.json"@
        &&& new.status_message@ == "tech.json creation failed"@
    }

    /// Confirms the typed initial password. A password that breaks the
    /// rules shows the rule; otherwise the login check is made and must be
    /// written to `tech.json` (`WriteTechFile`), unless key derivation
    /// failed, which reports that the check could not be created.
    pub fn setup_initial_password(&mut self) -> (e: Effect)
        ensures
            old(self).sets_up(*final(self), e),
    {
        match validate_initial_password(self.auth_buffer.as_str()) {
            Ok(()) => match new_tech_file(self.auth_buffer.as_str()) {
                Ok(tech) => Effect::WriteTechFile(tech),
                Err(_) => {
                    self.setup_failed();
                    Effect::Nothing
                },
            },
            Err(message) => {
                self.auth_message = message;
                Effect::Nothing
            },
        }
    }

    /// Reports that the login check could not be created or written.
    pub fn setup_failed(&mut self)
        ensures
            old(self).setup_failure(*final(self)),
    {
        self.auth_message = "Could not create tech.json".to_string();
        self.set_status_error("tech.json creation failed");
    }

    /// Completes the setup once the login check is written: the typed
    /// password becomes the master password, `salt` (the check's salt, as
    /// read back) the master salt, the buffers are cleared, the vault starts
    /// empty and the menu is shown; the vault is then saved.
    pub fn finish_setup(&mut self, salt: Option<[u8; 16]>) -> (e: Effect)
        ensures
            *final(self) == (AppState {
                master_password: Some(old(self).auth_buffer),
                master_salt: salt,
                auth_buffer: final(self).auth_buffer,
                auth_message: final(self).auth_message,
                entries: final(self).entries,
                screen: AppScreen::Menu,
                ..*old(self)
            }),
            final(self).auth_buffer@.len() == 0,
            final(self).auth_message@.len() == 0,
            final(self).entries@.len() == 0,
            e is Save,
    {
        self.master_password = Some(self.auth_buffer.clone());
        self.master_salt = salt;
        self.auth_buffer = String::new();
        self.auth_message = String::new();
        self.entries = Vec::new();
        self.screen = AppScreen::Menu;
        Effect::Save
    }

    /// The state that an accepted login leaves: the typed password becomes
    /// the master password with `salt`, the buffers are cleared and the menu
    /// is shown.
    pub open spec fn login_admitted(self, new: AppState, salt: [u8; 16]) -> bool {
        &&& new == (AppState {
            master_password: Some(self.auth_buffer),
            master_salt: Some(salt),
            auth_buffer: new.auth_buffer,
            auth_message: new.auth_message,
            screen: AppScreen::Menu,
            ..self
        })
        &&& new.auth_buffer@.len() == 0
        &&& new.auth_message@.len() == 0
    }

    /// The state that a refused login leaves: the typed password is
    /// cleared, the prompt says it was invalid and the status reports it.
    pub open spec fn login_refused(self, new: AppState) -> bool {
        &&& new == (AppState {
            auth_buffer: new.auth_buffer,
            auth_message: new.auth_message,
            status_ok: false,
            status_message: new.status_message,
            ..self
        })
        &&& new.auth_buffer@.len() == 0
        &&& new.auth_message@ == "Invalid password"@
        &&& new.status_message@ == "invalid login password"@
    }

    /// Settles a login from the outcome `ok` of the password check against
    /// `tech`: a pass admits the typed password with the check's salt and
    /// asks for the vault to be loaded (`LoadVault`); a failure refuses it.
    pub fn finish_login(&mut self, tech: Option<&TechFile>, ok: bool) -> (e: Effect)
        requires
            ok ==> tech is Some,
        ensures
            ok ==> old(self).login_admitted(*final(self), tech->0.salt) && e is LoadVault,
            !ok ==> old(self).login_refused(*final(self)) && e is Nothing,
    {
        if ok {
            let t = tech.unwrap();
            self.master_password = Some(self.auth_buffer.clone());
            self.master_salt = Some(t.salt);
            self.auth_buffer = String::new();
            self.auth_message = String::new();
            self.screen = AppScreen::Menu;
            Effect::LoadVault
        } else {
            self.auth_buffer = String::new();
            self.auth_message = "Invalid password".to_string();
            self.set_status_error("invalid login password");
            Effect::Nothing
        }
    }

    /// Checks the typed password against the login check `tech` (the
    /// contents of `tech.json`, if it could be read) with `verify_tech_file`,
    /// then settles the login with `finish_login` on its answer. Only a
    /// password that the check accepts is admitted; a missing check, a
    /// refused password or a failed key derivation refuses the login.
    pub fn login_initial_password(&mut self, tech: Option<&TechFile>) -> (e: Effect)
        ensures
            (old(self).login_refused(*final(self)) && e is Nothing) || ((tech matches Some(t) && accepts(
                *t,
                old(self).auth_buffer@,
            )) && old(self).login_admitted(*final(self), tech->0.salt) && e is LoadVault),
            !(tech matches Some(t) && accepts(*t, old(self).auth_buffer@)) ==> old(self).login_refused(*final(self))
                && e is Nothing,
    {
        let ok = verify_tech_file(tech, self.auth_buffer.as_str());
        self.finish_login(tech, ok)
    }

    /// Answers "destroy" on the security-risk screen: the entries are
    /// forgotten and an empty vault without the log flag must be written
    /// (`DestroyVault`).
    pub fn destroy_vault_after_security_risk(&mut self) -> (e: Effect)
        ensures
            old(self).destroys(*final(self), e),
    {
        self.entries = Vec::new();
        self.stored_entries = Vec::new();
        Effect::DestroyVault
    }

    /// Completes the destruction. `written` tells what became of the empty
    /// vault: `Some(true)` written, `Some(false)` not written, `None` not
    /// even serialized. A failed write is reported and the screen stays.
    /// Otherwise the status is `OK` (or reports the serialization failure)
    /// and the setup screen asks for a new initial password.
    pub fn finish_destroy(&mut self, written: Option<bool>)
        ensures
            written == Some(false) ==> *final(self) == (AppState {
                status_ok: false,
                status_message: final(self).status_message,
                ..*old(self)
            }) && final(self).status_message@ == "vault destroy write failed"@,
            written != Some(false) ==> {
                &&& *final(self) == (AppState {
                    status_ok: written == Some(true),
                    status_message: final(self).status_message,
                    auth_buffer: final(self).auth_buffer,
                    auth_message: final(self).auth_message,
                    screen: AppScreen::SetupPassword,
                    ..*old(self)
                })
                &&& final(self).status_message@ == if written == Some(true) {
                    "OK"@
                } else {
                    "vault destroy serialization failed"@
                }
                &&& final(self).auth_buffer@.len() == 0
                &&& final(self).auth_message@ == "Passwords destroyed. Create a new initial password to continue."@
            },
    {
        match written {
            Some(true) => self.set_status_ok(),
            Some(false) => {
                self.set_status_error("vault destroy write failed");
                return ;
            },
            None => self.set_status_error("vault destroy serialization failed"),
        }
        self.auth_buffer = String::new();
        self.auth_message = "Passwords destroyed. Create a new initial password to continue.".to_string();
        self.screen = AppScreen::SetupPassword;
    }

    /// Whether a master password and salt are known.
    pub fn is_unlocked(&self) -> (b: bool)
        ensures
            b == (self.master_password is Some && self.master_salt is Some),
    {
        self.master_password.is_some() && self.master_salt.is_some()
    }

    /// Encrypts the entries for saving. Before login there is nothing to
    /// save. Otherwise the vault key is derived from the master password and
    /// salt and every entry is sealed under it; the vault file returned
    /// carries the log flag and must be written. A failed key derivation,
    /// or a field too large to encrypt, is reported in the status instead.
    pub fn prepare_save(&mut self) -> (r: Option<VaultFile>)
        ensures
            !(old(self).master_password is Some && old(self).master_salt is Some) ==> *final(self) == *old(self) && r is None,
            r matches Some(v) ==> *final(self) == *old(self) && saved_as(*old(self), v),
            (old(self).master_password is Some && old(self).master_salt is Some && r is None) ==> {
                &&& *final(self) == (AppState { status_ok: false, status_message: final(self).status_message, ..*old(self) })
                &&& (final(self).status_message@ == "key derivation failed"@ || encrypt_fault(
                    old(self).entries@,
                    old(self).entries@.len() as int,
                ) == Some(final(self).status_message@))
            },
    {
        if !self.is_unlocked() {
            return None;
        }
        let params = auth_kdf_params();
        let salt = self.master_salt.unwrap();
        let key = match derive_key(self.master_password.as_ref().unwrap().as_str().as_bytes(), &salt, &params) {
            Ok(k) => k,
            Err(_) => {
                self.set_status_error("key derivation failed");
                return None;
            },
        };
        match encrypt_entries(self.entries.as_slice(), &key) {
            Ok(stored) => Some(VaultFile { log: true, entries: stored }),
            Err(message) => {
                self.set_status_error(message);
                None
            },
        }
    }

    /// Completes a save once the vault file from `prepare_save` was handed
    /// to the disk. `written` tells what became of it: `Some(true)` written,
    /// `Some(false)` not written, `None` not even serialized. Only the status
    /// changes: `OK` after a write, otherwise the reason.
    pub fn finish_save(&mut self, written: Option<bool>)
        ensures
            *final(self) == (AppState {
                status_ok: written == Some(true),
                status_message: final(self).status_message,
                ..*old(self)
            }),
            final(self).status_message@ == match written {
                Some(true) => "OK"@,
                Some(false) => "vault write failed"@,
                None => "vault serialization failed"@,
            },
    {
        match written {
            Some(true) => self.set_status_ok(),
            Some(false) => self.set_status_error("vault write failed"),
            None => self.set_status_error("vault serialization failed"),
        }
    }
}

/// The stored entries of a vault file, whichever its shape.
pub open spec fn disk_entries(disk: VaultDiskFormat) -> Vec<StoredEntry> {
    match disk {
        VaultDiskFormat::Current(f) => f.entries,
        VaultDiskFormat::Legacy(v) => v,
    }
}

impl AppState {
    /// The outcome of `settle_load`: `new` (and the effect `e`) is what the
    /// read-back under the current salt (`current`) and, where that failed,
    /// under the legacy salt (`legacy`) leave.
    pub open spec fn settles(
        self,
        new: AppState,
        current: Result<Vec<PasswordEntry>, &str>,
        legacy: Option<Result<Vec<PasswordEntry>, &str>>,
        e: Effect,
    ) -> bool {
        match current {
            Ok(v) => new == (AppState { entries: v, status_ok: true, status_message: new.status_message, ..self })
                && new.status_message@ == "OK"@ && e is Nothing,
            Err(_) => match legacy {
                Some(Ok(v)) => new == (AppState {
                    entries: v,
                    status_ok: true,
                    status_message: new.status_message,
                    ..self
                }) && new.status_message@ == "OK"@ && e is Save,
                Some(Err(m)) => new == (AppState { status_ok: false, status_message: new.status_message, ..self })
                    && new.status_message@ == m@ && e is Nothing,
                None => false,
            },
        }
    }

    /// `settles` for the state once `stored` was kept as its stored entries.
    pub open spec fn settles_with(
        self,
        stored: Vec<StoredEntry>,
        new: AppState,
        current: Result<Vec<PasswordEntry>, &str>,
        legacy: Option<Result<Vec<PasswordEntry>, &str>>,
        e: Effect,
    ) -> bool {
        (AppState { stored_entries: stored, ..self }).settles(new, current, legacy, e)
    }

    /// `current` and `legacy` are outcomes that reading back `stored` may
    /// give: first under the current salt, and only where that failed,
    /// under the legacy all-zero salt.
    pub open spec fn read_backs(
        self,
        stored: Vec<StoredEntry>,
        current: Result<Vec<PasswordEntry>, &str>,
        legacy: Option<Result<Vec<PasswordEntry>, &str>>,
    ) -> bool {
        let pw = utf8(self.master_password->0@);
        &&& read_back(stored@, pw, self.master_salt->0@, auth_params(), current)
        &&& current is Ok ==> legacy is None
        &&& current is Err ==> (legacy matches Some(l) && read_back(stored@, pw, legacy_salt(), auth_params(), l))
    }

    /// The outcome of `load_vault` on an unlocked session: the stored
    /// entries of `disk` are kept, and the rest is what `settle_load` makes
    /// of the read-backs, first under the current salt, then, only if that
    /// failed, under the legacy salt.
    pub open spec fn loads(self, disk: VaultDiskFormat, new: AppState, e: Effect) -> bool {
        &&& new.stored_entries == disk_entries(disk)
        &&& exists|current: Result<Vec<PasswordEntry>, &str>, legacy: Option<Result<Vec<PasswordEntry>, &str>>|
            #![trigger self.settles_with(disk_entries(disk), new, current, legacy, e)]
            self.read_backs(disk_entries(disk), current, legacy) && self.settles_with(
                disk_entries(disk),
                new,
                current,
                legacy,
                e,
            )
    }

    /// Settles a vault load from its read-backs. `current` is the read-back
    /// under the current salt; `legacy`, needed only when that failed, the
    /// one under the legacy all-zero salt. A vault that opens under the
    /// current salt is taken as it is; one that opens only under the legacy
    /// salt is taken and must be saved again (`Save`), which moves it to the
    /// current salt; otherwise the entries stay and the status reports the
    /// legacy read-back's failure.
    pub fn settle_load(
        &mut self,
        current: Result<Vec<PasswordEntry>, &'static str>,
        legacy: Option<Result<Vec<PasswordEntry>, &'static str>>,
    ) -> (e: Effect)
        requires
            current is Err ==> legacy is Some,
        ensures
            old(self).settles(*final(self), current, legacy, e),
    {
        match current {
            Ok(v) => {
                self.entries = v;
                self.set_status_ok();
                Effect::Nothing
            },
            Err(_) => match legacy {
                Some(Ok(v)) => {
                    self.entries = v;
                    self.set_status_ok();
                    Effect::Save
                },
                Some(Err(m)) => {
                    self.set_status_error(m);
                    Effect::Nothing
                },
                None => Effect::Nothing,
            },
        }
    }

    /// Takes the parsed vault file after login or a restore. Before login
    /// nothing happens. Otherwise the stored entries are kept and read back
    /// under the vault key; only if that fails are they read back under the
    /// legacy all-zero salt; `settle_load` decides from the two outcomes.
    pub fn load_vault(&mut self, disk: VaultDiskFormat) -> (e: Effect)
        ensures
            !(old(self).master_password is Some && old(self).master_salt is Some) ==> *final(self) == *old(self) && e is Nothing,
            (old(self).master_password is Some && old(self).master_salt is Some) ==> old(self).loads(disk, *final(self), e),
    {
        if !self.is_unlocked() {
            return Effect::Nothing;
        }
        let ghost old_self = *self;
        let ghost stored_g = disk_entries(disk);
        self.stored_entries = disk.into_entries();
        let params = auth_kdf_params();
        let salt = self.master_salt.unwrap();
        let current = decrypt_stored_entries(
            self.stored_entries.as_slice(),
            self.master_password.as_ref().unwrap().as_str(),
            &salt,
            &params,
        );
        let legacy = if current.is_ok() {
            None
        } else {
            let zero: [u8; 16] = [0u8; 16];
            assert(zero@ =~= legacy_salt());
            Some(
                decrypt_stored_entries(
                    self.stored_entries.as_slice(),
                    self.master_password.as_ref().unwrap().as_str(),
                    &zero,
                    &params,
                ),
            )
        };
        let ghost current_g = current;
        let ghost legacy_g = legacy;
        let e = self.settle_load(current, legacy);
        assert(old_self.read_backs(stored_g, current_g, legacy_g));
        assert(old_self.settles_with(stored_g, *self, current_g, legacy_g, e));
        e
    }

    /// The backup directory that was typed, without surrounding whitespace.
    pub fn backup_destination(&self) -> (d: String)
        ensures
            d@ == trimmed(self.backup_dir_buffer@),
    {
        trim(self.backup_dir_buffer.as_str())
    }

    /// Checks the backup request before anything is copied: a directory
    /// must be typed, it must be a directory (`dest_is_dir`) and the vault
    /// must exist (`vault_exists`). Returns whether to copy; on a refusal
    /// the message and status say why.
    pub fn backup_precheck(&mut self, dest_is_dir: bool, vault_exists: bool) -> (go: bool)
        ensures
            go == (!is_blank(old(self).backup_dir_buffer@) && dest_is_dir && vault_exists),
            go ==> *final(self) == *old(self),
            !go ==> *final(self) == (AppState {
                backup_message: final(self).backup_message,
                status_ok: false,
                status_message: final(self).status_message,
                ..*old(self)
            }),
            is_blank(old(self).backup_dir_buffer@) ==> final(self).backup_message@ == "Destination directory is required"@
                && final(self).status_message@ == "backup destination missing"@,
            !is_blank(old(self).backup_dir_buffer@) && !dest_is_dir ==> final(self).backup_message@
                == "Destination is not a valid directory"@ && final(self).status_message@ == "backup directory invalid"@,
            !is_blank(old(self).backup_dir_buffer@) && dest_is_dir && !vault_exists ==> final(self).backup_message@
                == "vault.json does not exist yet"@ && final(self).status_message@ == "vault file missing"@,
    {
        if blank(self.backup_dir_buffer.as_str()) {
            self.backup_message = "Destination directory is required".to_string();
            self.set_status_error("backup destination missing");
            return false;
        }
        if !dest_is_dir {
            self.backup_message = "Destination is not a valid directory".to_string();
            self.set_status_error("backup directory invalid");
            return false;
        }
        if !vault_exists {
            self.backup_message = "vault.json does not exist yet".to_string();
            self.set_status_error("vault file missing");
            return false;
        }
        true
    }

    /// Reports the backup copies: `vault_copied` for the vault,
    /// `tech_copied` for the login check (true when there was none to copy),
    /// `destination` the path of the vault copy as displayed.
    pub fn backup_finish(&mut self, vault_copied: bool, tech_copied: bool, destination: &str)
        ensures
            *final(self) == (AppState {
                backup_message: final(self).backup_message,
                status_ok: vault_copied,
                status_message: final(self).status_message,
                ..*old(self)
            }),
            vault_copied ==> final(self).status_message@ == "OK"@,
            !vault_copied ==> final(self).status_message@ == "vault backup failed"@,
            final(self).backup_message@ == if vault_copied && tech_copied {
                "Backup copied to "@ + destination@
            } else if vault_copied {
                "Vault backup copied to "@ + destination@ + " (tech.json missing)"@
            } else {
                "Could not copy vault.json"@
            },
    {
        if vault_copied && tech_copied {
            self.backup_message = "Backup copied to ".to_string().concat(destination);
            self.set_status_ok();
        } else if vault_copied {
            self.backup_message = "Vault backup copied to ".to_string().concat(destination).concat(" (tech.json missing)");
            self.set_status_ok();
        } else {
            self.backup_message = "Could not copy vault.json".to_string();
            self.set_status_error("vault backup failed");
        }
    }

    /// The backup file path that was typed, without surrounding whitespace.
    pub fn upload_source(&self) -> (p: String)
        ensures
            p@ == trimmed(self.upload_path_buffer@),
    {
        trim(self.upload_path_buffer.as_str())
    }

    /// Checks the restore request before anything is copied: a path must be
    /// typed and name a file (`is_file`). Returns whether to go on; on a
    /// refusal the message and status say why.
    pub fn upload_precheck(&mut self, is_file: bool) -> (go: bool)
        ensures
            go == (!is_blank(old(self).upload_path_buffer@) && is_file),
            go ==> *final(self) == *old(self),
            !go ==> *final(self) == (AppState {
                upload_message: final(self).upload_message,
                status_ok: false,
                status_message: final(self).status_message,
                ..*old(self)
            }),
            is_blank(old(self).upload_path_buffer@) ==> final(self).upload_message@ == "Backup file path is required"@
                && final(self).status_message@ == "backup path missing"@,
            !is_blank(old(self).upload_path_buffer@) && !is_file ==> final(self).upload_message@
                == "Backup file does not exist"@ && final(self).status_message@ == "backup file missing"@,
    {
        if blank(self.upload_path_buffer.as_str()) {
            self.upload_message = "Backup file path is required".to_string();
            self.set_status_error("backup path missing");
            return false;
        }
        if !is_file {
            self.upload_message = "Backup file does not exist".to_string();
            self.set_status_error("backup file missing");
            return false;
        }
        true
    }

    /// The backup was copied into the vault: if the login check was restored
    /// too, its salt (`restored_salt`, as read back) becomes the master
    /// salt; the entries are forgotten and the vault must be loaded
    /// (`LoadVault`), then `upload_report` called.
    pub fn upload_copied(&mut self, tech_restored: bool, restored_salt: Option<[u8; 16]>) -> (e: Effect)
        ensures
            *final(self) == (AppState {
                master_salt: if tech_restored { restored_salt } else { old(self).master_salt },
                entries: final(self).entries,
                stored_entries: final(self).stored_entries,
                ..*old(self)
            }),
            final(self).entries@.len() == 0,
            final(self).stored_entries@.len() == 0,
            e is LoadVault,
    {
        if tech_restored {
            self.master_salt = restored_salt;
        }
        self.entries = Vec::new();
        self.stored_entries = Vec::new();
        Effect::LoadVault
    }

    /// Reports a restore once the vault was loaded: whether it could be read
    /// with the current login, and whether the login check was restored.
    pub fn upload_report(&mut self, tech_restored: bool)
        ensures
            *final(self) == (AppState { upload_message: final(self).upload_message, ..*old(self) }),
            final(self).upload_message@ == if old(self).status_ok {
                if tech_restored {
                    "Encrypted backup restored into vault.json"@ + " and tech.json restored"@
                } else {
                    "Encrypted backup restored into vault.json"@
                }
            } else {
                "Backup copied, but it could not be decrypted with current login"@
            },
    {
        if self.status_ok {
            let mut message = "Encrypted backup restored into vault.json".to_string();
            if tech_restored {
                message = message.concat(" and tech.json restored");
            }
            self.upload_message = message;
        } else {
            self.upload_message = "Backup copied, but it could not be decrypted with current login".to_string();
        }
    }

    /// Reports that the backup could not be copied into the vault.
    pub fn upload_failed(&mut self)
        ensures
            *final(self) == (AppState {
                upload_message: final(self).upload_message,
                status_ok: false,
                status_message: final(self).status_message,
                ..*old(self)
            }),
            final(self).upload_message@ == "Could not copy backup into vault.json"@,
            final(self).status_message@ == "backup upload failed"@,
    {
        self.upload_message = "Could not copy backup into vault.json".to_string();
        self.set_status_error("backup upload failed");
    }
}

impl VaultFile {
    /// The vault written when the saved passwords are destroyed: no entries
    /// and no log flag.
    pub fn destroyed() -> (v: VaultFile)
        ensures
            !v.log,
            v.entries@.len() == 0,
    {
        VaultFile { log: false, entries: Vec::new() }
    }
}

/// Law: loading back what `prepare_save` wrote for a session, under the
/// same master password and salt, restores exactly the session's entries
/// with status `OK` and nothing more to do. The read-back under the current
/// salt can fail only in key derivation.
pub proof fn lemma_reload_restores(
    s: AppState,
    v: VaultFile,
    t: AppState,
    new: AppState,
    current: Result<Vec<PasswordEntry>, &str>,
    legacy: Option<Result<Vec<PasswordEntry>, &str>>,
    e: Effect,
)
    requires
        saved_as(s, v),
        t.master_password == s.master_password,
        t.master_salt == s.master_salt,
        t.read_backs(v.entries, current, legacy),
        t.settles_with(v.entries, new, current, legacy, e),
    ensures
        current matches Err(m) ==> m@ == "key derivation failed"@,
        current is Ok ==> {
            &&& new.status_ok && new.status_message@ == "OK"@ && e is Nothing
            &&& new.entries@.len() == s.entries@.len()
            &&& forall|i: int| 0 <= i < s.entries@.len() ==> #[trigger] new.entries@[i]@ == s.entries@[i]@
        },
{
    lemma_entries_roundtrip(s.entries@, v.entries@, vault_key(s));
}

/// Law: a load that asks for the vault to be saved again (`Save`) took
/// entries that do not open under the current salt (or whose key could not
/// be derived) but open under the legacy all-zero salt; saving them then
/// writes a vault that opens under the current salt to those same entries.
pub proof fn lemma_legacy_migration(
    t: AppState,
    stored: Vec<StoredEntry>,
    new: AppState,
    current: Result<Vec<PasswordEntry>, &str>,
    legacy: Option<Result<Vec<PasswordEntry>, &str>>,
    v: VaultFile,
)
    requires
        t.master_password is Some,
        t.master_salt is Some,
        t.read_backs(stored, current, legacy),
        t.settles_with(stored, new, current, legacy, Effect::Save),
        saved_as(new, v),
    ensures
        current matches Err(m) && (m@ == "key derivation failed"@ || first_stored_fault(
            stored@,
            vault_key(t),
            stored@.len() as int,
        ) is Some),
        new.status_ok,
        opened_into(stored@, derived_key(utf8(t.master_password->0@), legacy_salt(), auth_params()), new.entries@),
        opened_into(v.entries@, vault_key(t), new.entries@),
{
    lemma_save_load_roundtrip(new, v);
}

/// Law: adding a credential under `service` appends exactly one entry,
/// made of `service`, the text typed in the username field and the text
/// typed in the password field, and leaves every earlier entry in place.
pub proof fn lemma_insert_keeps_typed_fields(old: AppState, new: AppState, service: String)
    requires
        inserted(old, new, service),
    ensures
        new.entries@.len() == old.entries@.len() + 1,
        forall|j: int| 0 <= j < old.entries@.len() ==> #[trigger] new.entries@[j] == old.entries@[j],
        new.entries@.last().service == service,
        new.entries@.last().username == old.input_buffers[1],
        new.entries@.last().password == old.input_buffers[2],
{
}

/// Law: confirming the add form on an unlocked session with a service name
/// that no entry has (ignoring ASCII case) appends the entry
/// (service, username, password) exactly as typed in the three fields and
/// asks for a save.
pub proof fn lemma_add_new_service(old: AppState, new: AppState, e: Effect)
    requires
        old.adds_entry(new, e),
        old.input_buffers[0]@.len() > 0,
        old.master_password is Some,
        forall|j: int| 0 <= j < old.entries@.len() ==> !same_ignoring_ascii_case(
            #[trigger] old.entries@[j].service@,
            old.input_buffers[0]@,
        ),
    ensures
        new.entries@.len() == old.entries@.len() + 1,
        forall|j: int| 0 <= j < old.entries@.len() ==> #[trigger] new.entries@[j] == old.entries@[j],
        new.entries@.last().service == old.input_buffers[0],
        new.entries@.last().username == old.input_buffers[1],
        new.entries@.last().password == old.input_buffers[2],
        e is Save,
{
    lemma_no_first_match(old.entries@, old.input_buffers[0]@, old.entries@.len() as int);
}

proof fn lemma_no_first_match(entries: Seq<PasswordEntry>, name: Seq<char>, n: int)
    requires
        0 <= n <= entries.len(),
        forall|j: int| 0 <= j < entries.len() ==> !same_ignoring_ascii_case(#[trigger] entries[j].service@, name),
    ensures
        first_match(entries, name, n) is None,
    decreases n,
{
    if n > 0 {
        lemma_no_first_match(entries, name, n - 1);
        assert(!same_ignoring_ascii_case(entries[n - 1].service@, name));
    }
}

/// Law: deleting the entry at an existing `index` removes exactly that
/// entry: the entries before it stay where they were, the ones after it
/// move up by one, and a save follows.
pub proof fn lemma_delete_removes_that_entry(old: AppState, new: AppState, e: Effect, index: usize)
    requires
        old.deletes(new, e, index),
        index < old.entries@.len(),
    ensures
        new.entries@.len() == old.entries@.len() - 1,
        forall|j: int| 0 <= j < index ==> #[trigger] new.entries@[j] == old.entries@[j],
        forall|j: int| index <= j < new.entries@.len() ==> #[trigger] new.entries@[j] == old.entries@[j + 1],
        e is Save,
{
}

proof fn lemma_visible_members(entries: Seq<PasswordEntry>, q: Seq<char>, n: int)
    requires
        0 <= n <= entries.len(),
        n <= usize::MAX,
    ensures
        forall|k: int| 0 <= k < n ==> (visible(entries, q, n).contains(k as usize) <==> shown(#[trigger] entries[k], q)),
        forall|a: int, b: int| 0 <= a < b < visible(entries, q, n).len() ==> #[trigger] visible(entries, q, n)[a]
            < #[trigger] visible(entries, q, n)[b],
        forall|a: int| 0 <= a < visible(entries, q, n).len() ==> #[trigger] visible(entries, q, n)[a] < n,
    decreases n,
{
    if n > 0 {
        lemma_visible_members(entries, q, n - 1);
        let prev = visible(entries, q, n - 1);
        let cur = visible(entries, q, n);
        assert forall|k: int| 0 <= k < n implies (cur.contains(k as usize) <==> shown(#[trigger] entries[k], q)) by {
            if k < n - 1 {
                if cur.contains(k as usize) {
                    let a = choose|a: int| 0 <= a < cur.len() && cur[a] == k as usize;
                    if a < prev.len() {
                        assert(prev[a] == cur[a]);
                        assert(prev.contains(k as usize));
                    }
                }
                if prev.contains(k as usize) {
                    let a = choose|a: int| 0 <= a < prev.len() && prev[a] == k as usize;
                    assert(cur[a] == prev[a]);
                }
            } else {
                if shown(entries[n - 1], q) {
                    assert(cur[cur.len() - 1] == (n - 1) as usize);
                } else if cur.contains(k as usize) {
                    let a = choose|a: int| 0 <= a < cur.len() && cur[a] == k as usize;
                    assert(prev[a] < n - 1);
                }
            }
        }
    }
}

proof fn lemma_infix_split(q: Seq<char>, h: Seq<char>)
    ensures
        is_infix(q, h) <==> exists|x: Seq<char>, y: Seq<char>| h == x + q + y,
{
    if is_infix(q, h) {
        let i = choose|i: int| occurs_at(h, q, i);
        let x = h.subrange(0, i);
        let y = h.subrange(i + q.len(), h.len() as int);
        assert(h =~= x + q + y);
    }
    if exists|x: Seq<char>, y: Seq<char>| h == x + q + y {
        let (x, y) = choose|x: Seq<char>, y: Seq<char>| h == x + q + y;
        assert(h.subrange(x.len() as int, (x.len() + q.len()) as int) =~= q);
        assert(occurs_at(h, q, x.len() as int));
    }
}

/// Law: the search lists entry `i` exactly when the lower-cased query is
/// empty or occurs anywhere in the entry's lower-cased service name
/// (`x + query + y` for some `x` and `y`); the listed indices are in
/// increasing order.
pub proof fn lemma_search_lists(s: AppState, i: int)
    requires
        0 <= i < s.entries@.len(),
        s.entries@.len() <= usize::MAX,
    ensures
        s.visible_indices().contains(i as usize) <==> (lowercase_of(s.search_query@).len() == 0 || exists|
            x: Seq<char>,
            y: Seq<char>,
        | lowercase_of(s.entries@[i].service@) == x + lowercase_of(s.search_query@) + y),
        forall|a: int, b: int| 0 <= a < b < s.visible_indices().len() ==> #[trigger] s.visible_indices()[a]
            < #[trigger] s.visible_indices()[b],
{
    let q = lowercase_of(s.search_query@);
    lemma_visible_members(s.entries@, q, s.entries@.len() as int);
    assert(s.visible_indices().contains(i as usize) <==> shown(s.entries@[i], q));
    lemma_infix_split(q, lowercase_of(s.entries@[i].service@));
}

} // verus!
