//! Key handling: for each screen, how a key press changes the session and
//! what the caller must do next.
use crate::session::state::{input_reset, AppScreen, AppState, DuplicatePrompt, EditPrompt, Effect};
use crate::text::{pop_char, push_char};
use vstd::prelude::*;

verus! {

/// A key press, as the interface reports it.
#[derive(Debug, Clone, Copy, PartialEq, Eq, Structural)]
pub enum Key {
    Char(char),
    Tab,
    Enter,
    Backspace,
    Esc,
    Other,
}

/// A text field after a key press: a character is appended, Backspace
/// removes the last one; other keys leave it.
pub open spec fn edited(s: Seq<char>, k: Key) -> Seq<char> {
    match k {
        Key::Char(c) => s.push(c),
        Key::Backspace => if s.len() > 0 {
            s.drop_last()
        } else {
            s
        },
        _ => s,
    }
}

/// The key is the character `a` or `b`.
pub open spec fn is_one_of(k: Key, a: char, b: char) -> bool {
    k matches Key::Char(c) && (c == a || c == b)
}

/// The key edits a text field.
pub open spec fn is_typing(k: Key) -> bool {
    k is Char || k is Backspace
}

fn type_into(s: &mut String, k: Key)
    requires
        k is Char || k is Backspace,
    ensures
        final(s)@ == edited(old(s)@, k),
{
    match k {
        Key::Char(c) => push_char(s, c),
        _ => {
            pop_char(s);
        },
    }
}

fn typing(k: Key) -> (r: bool)
    ensures
        r == is_typing(k),
{
    match k {
        Key::Char(_) | Key::Backspace => true,
        _ => false,
    }
}

fn is_key(k: Key, a: char, b: char) -> (r: bool)
    ensures
        r == is_one_of(k, a, b),
{
    match k {
        Key::Char(c) => c == a || c == b,
        _ => false,
    }
}

impl AppState {
    /// The add form's field index and the edit popup's field index are in
    /// range.
    pub open spec fn wf(self) -> bool {
        self.input_field < 3 && self.edit_field < 2
    }

    /// The main menu: `A` add, `S` search, `B` backup, `U` restore, `V` list,
    /// `Q` or Esc quit.
    pub open spec fn menu_step(self, new: AppState, k: Key, e: Effect) -> bool {
        if is_one_of(k, 'a', 'A') {
            input_reset(AppState { screen: AppScreen::AddEntry, ..self }, new) && e is Nothing
        } else if is_one_of(k, 'b', 'B') {
            (AppState { screen: AppScreen::BackupVault, ..self }).backup_reset(new) && e is Nothing
        } else if is_one_of(k, 'u', 'U') {
            (AppState { screen: AppScreen::UploadBackup, ..self }).upload_reset(new) && e is Nothing
        } else if is_one_of(k, 'v', 'V') {
            new == (AppState { screen: AppScreen::ViewEntries, ..self }) && e is Nothing
        } else if is_one_of(k, 's', 'S') {
            (AppState { screen: AppScreen::SelectEntry, ..self }).search_reset(new) && e is Nothing
        } else if is_one_of(k, 'q', 'Q') || k is Esc {
            new == self && e is Exit
        } else {
            new == self && e is Nothing
        }
    }

    /// The backup screen: typing edits the directory, Enter asks for the
    /// backup, Esc clears the field and returns to the menu.
    pub open spec fn backup_step(self, new: AppState, k: Key, e: Effect) -> bool {
        if is_typing(k) {
            new == (AppState { backup_dir_buffer: new.backup_dir_buffer, ..self })
                && new.backup_dir_buffer@ == edited(self.backup_dir_buffer@, k) && e is Nothing
        } else if k is Enter {
            new == self && e is Backup
        } else if k is Esc {
            new == (AppState { backup_dir_buffer: new.backup_dir_buffer, screen: AppScreen::Menu, ..self })
                && new.backup_dir_buffer@.len() == 0 && e is Nothing
        } else {
            new == self && e is Nothing
        }
    }

    /// The restore screen: typing edits the path, Enter asks for the
    /// restore, Esc clears the field and returns to the menu.
    pub open spec fn upload_step(self, new: AppState, k: Key, e: Effect) -> bool {
        if is_typing(k) {
            new == (AppState { upload_path_buffer: new.upload_path_buffer, ..self })
                && new.upload_path_buffer@ == edited(self.upload_path_buffer@, k) && e is Nothing
        } else if k is Enter {
            new == self && e is Upload
        } else if k is Esc {
            new == (AppState { upload_path_buffer: new.upload_path_buffer, screen: AppScreen::Menu, ..self })
                && new.upload_path_buffer@.len() == 0 && e is Nothing
        } else {
            new == self && e is Nothing
        }
    }

    /// The setup screen: Tab shows or hides the password, typing edits it,
    /// Enter confirms it, Esc quits.
    pub open spec fn setup_step(self, new: AppState, k: Key, e: Effect) -> bool {
        if k is Tab {
            new == (AppState { show_auth_password: !self.show_auth_password, ..self }) && e is Nothing
        } else if is_typing(k) {
            new == (AppState { auth_buffer: new.auth_buffer, ..self }) && new.auth_buffer@ == edited(
                self.auth_buffer@,
                k,
            ) && e is Nothing
        } else if k is Enter {
            self.sets_up(new, e)
        } else if k is Esc {
            new == self && e is Exit
        } else {
            new == self && e is Nothing
        }
    }

    /// The login screen: Tab shows or hides the password, typing edits it,
    /// Enter asks for the login check, Esc quits.
    pub open spec fn login_step(self, new: AppState, k: Key, e: Effect) -> bool {
        if k is Tab {
            new == (AppState { show_auth_password: !self.show_auth_password, ..self }) && e is Nothing
        } else if is_typing(k) {
            new == (AppState { auth_buffer: new.auth_buffer, ..self }) && new.auth_buffer@ == edited(
                self.auth_buffer@,
                k,
            ) && e is Nothing
        } else if k is Enter {
            new == self && e is Login
        } else if k is Esc {
            new == self && e is Exit
        } else {
            new == self && e is Nothing
        }
    }

    /// The security-risk screen: `1` or Esc quits, `2` destroys the saved
    /// passwords.
    pub open spec fn risk_step(self, new: AppState, k: Key, e: Effect) -> bool {
        if k == Key::Char('1') || k is Esc {
            new == self && e is Exit
        } else if k == Key::Char('2') {
            self.destroys(new, e)
        } else {
            new == self && e is Nothing
        }
    }

    /// The list screen: `Q`, Esc or Backspace returns to the menu.
    pub open spec fn view_step(self, new: AppState, k: Key, e: Effect) -> bool {
        &&& e is Nothing
        &&& if is_one_of(k, 'q', 'Q') || k is Esc || k is Backspace {
            new == (AppState { screen: AppScreen::Menu, ..self })
        } else {
            new == self
        }
    }

    /// The password screen: Esc or Backspace returns to the results, `Q` to
    /// the menu; either hides the password.
    pub open spec fn show_step(self, new: AppState, k: Key, e: Effect) -> bool {
        &&& e is Nothing
        &&& if k is Esc || k is Backspace {
            new == (AppState { decrypted_current: None, screen: AppScreen::SelectEntry, ..self })
        } else if is_one_of(k, 'q', 'Q') {
            new == (AppState { decrypted_current: None, screen: AppScreen::Menu, ..self })
        } else {
            new == self
        }
    }

    /// The add screen. While a duplicate question is open, `Y` and `N`
    /// answer it (Esc also declines the numbered copy). Otherwise typing
    /// edits the current field, Tab moves to the next field, Enter moves on
    /// or, on the password field, adds the entry, and Esc clears the form
    /// and returns to the menu.
    pub open spec fn add_step(self, new: AppState, k: Key, e: Effect) -> bool {
        match self.duplicate_prompt {
            Some(DuplicatePrompt::Overwrite) => if is_one_of(k, 'y', 'Y') {
                self.overwrites_duplicate(new, e)
            } else if is_one_of(k, 'n', 'N') {
                new == (AppState { duplicate_prompt: Some(DuplicatePrompt::SaveCopy), ..self }) && e is Nothing
            } else {
                new == self && e is Nothing
            },
            Some(DuplicatePrompt::SaveCopy) => if is_one_of(k, 'y', 'Y') {
                self.saves_copy(new, e)
            } else if is_one_of(k, 'n', 'N') || k is Esc {
                new == (AppState { duplicate_prompt: None, duplicate_index: None, ..self }) && e is Nothing
            } else {
                new == self && e is Nothing
            },
            None => if is_typing(k) {
                &&& new == (AppState { input_buffers: new.input_buffers, ..self })
                &&& new.input_buffers@ == self.input_buffers@.update(
                    self.input_field as int,
                    new.input_buffers[self.input_field as int],
                )
                &&& new.input_buffers[self.input_field as int]@ == edited(
                    self.input_buffers[self.input_field as int]@,
                    k,
                )
                &&& e is Nothing
            } else if k is Tab {
                new == (AppState { input_field: ((self.input_field + 1) % 3) as usize, ..self }) && e is Nothing
            } else if k is Enter {
                if self.input_field == 2 {
                    self.adds_entry(new, e)
                } else {
                    new == (AppState { input_field: (self.input_field + 1) as usize, ..self }) && e is Nothing
                }
            } else if k is Esc {
                input_reset(AppState { screen: AppScreen::Menu, ..self }, new) && e is Nothing
            } else {
                new == self && e is Nothing
            },
        }
    }

    /// The search screen. An open edit popup takes the keys first: while
    /// it asks for the password, typing edits it, Enter asks for the check
    /// and Esc closes it; while editing, typing edits the current field,
    /// Tab switches fields, Enter saves and Esc closes. Then an open delete
    /// question: `Y` deletes, `N`, Esc or Backspace declines. Otherwise Tab
    /// moves between query and results; in the query, typing edits it and
    /// the cursor stays on the results; in the results `W`/`S` move the
    /// cursor, `C` asks to delete, `E` opens the edit popup, `Q` returns to
    /// the menu and Backspace too; Enter leaves the query, or in the results
    /// shows the selected password; Esc returns to the menu.
    pub open spec fn select_step(self, new: AppState, k: Key, e: Effect) -> bool {
        match self.edit_prompt {
            Some(EditPrompt::Auth) => if is_typing(k) {
                new == (AppState { edit_auth_buffer: new.edit_auth_buffer, ..self })
                    && new.edit_auth_buffer@ == edited(self.edit_auth_buffer@, k) && e is Nothing
            } else if k is Enter {
                new == self && e is UnlockEdit
            } else if k is Esc {
                self.edit_reset(new) && e is Nothing
            } else {
                new == self && e is Nothing
            },
            Some(EditPrompt::Edit) => if is_typing(k) {
                &&& new == (AppState { edit_buffers: new.edit_buffers, ..self })
                &&& new.edit_buffers@ == self.edit_buffers@.update(
                    self.edit_field as int,
                    new.edit_buffers[self.edit_field as int],
                )
                &&& new.edit_buffers[self.edit_field as int]@ == edited(
                    self.edit_buffers[self.edit_field as int]@,
                    k,
                )
                &&& e is Nothing
            } else if k is Tab {
                new == (AppState { edit_field: ((self.edit_field + 1) % 2) as usize, ..self }) && e is Nothing
            } else if k is Enter {
                self.saves_edit(new, e)
            } else if k is Esc {
                self.edit_reset(new) && e is Nothing
            } else {
                new == self && e is Nothing
            },
            None => if self.confirm_delete {
                if is_one_of(k, 'y', 'Y') {
                    match self.pending_delete_index {
                        Some(i) => self.deletes(new, e, i),
                        None => new == self && e is Nothing,
                    }
                } else if is_one_of(k, 'n', 'N') || k is Esc || k is Backspace {
                    new == (AppState { confirm_delete: false, pending_delete_index: None, ..self }) && e is Nothing
                } else {
                    new == self && e is Nothing
                }
            } else {
                self.browse_step(new, k, e)
            },
        }
    }

    /// The search screen without popup or question.
    pub open spec fn browse_step(self, new: AppState, k: Key, e: Effect) -> bool {
        if k is Tab {
            new == (AppState { search_field_active: !self.search_field_active, ..self }) && e is Nothing
        } else if is_typing(k) && self.search_field_active {
            let typed = AppState { search_query: new.search_query, ..self };
            &&& new == (AppState { selected_index: typed.clamped_selection(), ..typed })
            &&& new.search_query@ == edited(self.search_query@, k)
            &&& e is Nothing
        } else if is_one_of(k, 'w', 'W') {
            new == (AppState {
                selected_index: if self.selected_index > 0 {
                    (self.selected_index - 1) as usize
                } else {
                    0
                },
                ..self
            }) && e is Nothing
        } else if is_one_of(k, 's', 'S') {
            new == (AppState {
                selected_index: if self.selected_index + 1 < self.visible_indices().len() {
                    (self.selected_index + 1) as usize
                } else {
                    self.selected_index
                },
                ..self
            }) && e is Nothing
        } else if is_one_of(k, 'c', 'C') {
            &&& e is Nothing
            &&& match self.selected_entry() {
                Some(i) => new == (AppState { confirm_delete: true, pending_delete_index: Some(i), ..self }),
                None => new == self,
            }
        } else if is_one_of(k, 'e', 'E') {
            self.starts_edit(new) && e is Nothing
        } else if k is Enter {
            &&& e is Nothing
            &&& if self.search_field_active {
                new == (AppState { search_field_active: false, ..self })
            } else {
                match self.selected_entry() {
                    Some(i) => new == (AppState {
                        decrypted_current: Some((self.entries@[i as int].username, self.entries@[i as int].password)),
                        screen: AppScreen::ShowPassword,
                        ..self
                    }),
                    None => new == self,
                }
            }
        } else if is_one_of(k, 'q', 'Q') || k is Esc {
            new == (AppState { confirm_delete: false, pending_delete_index: None, screen: AppScreen::Menu, ..self })
                && e is Nothing
        } else if k is Backspace {
            new == (AppState { screen: AppScreen::Menu, ..self }) && e is Nothing
        } else {
            new == self && e is Nothing
        }
    }

    /// What a key press does on the current screen.
    pub open spec fn key_step(self, new: AppState, k: Key, e: Effect) -> bool {
        match self.screen {
            AppScreen::SetupPassword => self.setup_step(new, k, e),
            AppScreen::LoginPassword => self.login_step(new, k, e),
            AppScreen::SecurityRisk => self.risk_step(new, k, e),
            AppScreen::Menu => self.menu_step(new, k, e),
            AppScreen::AddEntry => self.add_step(new, k, e),
            AppScreen::BackupVault => self.backup_step(new, k, e),
            AppScreen::UploadBackup => self.upload_step(new, k, e),
            AppScreen::ViewEntries => self.view_step(new, k, e),
            AppScreen::SelectEntry => self.select_step(new, k, e),
            AppScreen::ShowPassword => self.show_step(new, k, e),
        }
    }

    /// Handles a key press on the current screen.
    pub fn handle_key(&mut self, key: Key) -> (e: Effect)
        requires
            old(self).wf(),
        ensures
            final(self).wf(),
            old(self).key_step(*final(self), key, e),
    {
        match self.screen {
            AppScreen::SetupPassword => self.handle_setup_password_input(key),
            AppScreen::LoginPassword => self.handle_login_password_input(key),
            AppScreen::SecurityRisk => self.handle_security_risk_input(key),
            AppScreen::Menu => self.handle_menu_input(key),
            AppScreen::AddEntry => self.handle_add_entry_input(key),
            AppScreen::BackupVault => self.handle_backup_vault_input(key),
            AppScreen::UploadBackup => self.handle_upload_backup_input(key),
            AppScreen::ViewEntries => self.handle_view_entries_input(key),
            AppScreen::SelectEntry => self.handle_select_entry_input(key),
            AppScreen::ShowPassword => self.handle_show_password_input(key),
        }
    }

    /// A key on the main menu.
    pub fn handle_menu_input(&mut self, key: Key) -> (e: Effect)
        requires
            old(self).wf(),
        ensures
            final(self).wf(),
            old(self).menu_step(*final(self), key, e),
    {
        if is_key(key, 'a', 'A') {
            self.screen = AppScreen::AddEntry;
            self.reset_input();
        } else if is_key(key, 'b', 'B') {
            self.reset_backup();
            self.screen = AppScreen::BackupVault;
        } else if is_key(key, 'u', 'U') {
            self.reset_upload_backup();
            self.screen = AppScreen::UploadBackup;
        } else if is_key(key, 'v', 'V') {
            self.screen = AppScreen::ViewEntries;
        } else if is_key(key, 's', 'S') {
            self.reset_search();
            self.screen = AppScreen::SelectEntry;
        } else if is_key(key, 'q', 'Q') || key == Key::Esc {
            return Effect::Exit;
        }
        Effect::Nothing
    }

    /// A key on the backup screen.
    pub fn handle_backup_vault_input(&mut self, key: Key) -> (e: Effect)
        requires
            old(self).wf(),
        ensures
            final(self).wf(),
            old(self).backup_step(*final(self), key, e),
    {
        match key {
            Key::Char(_) | Key::Backspace => {
                type_into(&mut self.backup_dir_buffer, key);
                Effect::Nothing
            },
            Key::Enter => Effect::Backup,
            Key::Esc => {
                self.backup_dir_buffer = String::new();
                self.screen = AppScreen::Menu;
                Effect::Nothing
            },
            _ => Effect::Nothing,
        }
    }

    /// A key on the restore screen.
    pub fn handle_upload_backup_input(&mut self, key: Key) -> (e: Effect)
        requires
            old(self).wf(),
        ensures
            final(self).wf(),
            old(self).upload_step(*final(self), key, e),
    {
        match key {
            Key::Char(_) | Key::Backspace => {
                type_into(&mut self.upload_path_buffer, key);
                Effect::Nothing
            },
            Key::Enter => Effect::Upload,
            Key::Esc => {
                self.upload_path_buffer = String::new();
                self.screen = AppScreen::Menu;
                Effect::Nothing
            },
            _ => Effect::Nothing,
        }
    }

    /// A key on the setup screen.
    pub fn handle_setup_password_input(&mut self, key: Key) -> (e: Effect)
        requires
            old(self).wf(),
        ensures
            final(self).wf(),
            old(self).setup_step(*final(self), key, e),
    {
        match key {
            Key::Tab => {
                self.show_auth_password = !self.show_auth_password;
                Effect::Nothing
            },
            Key::Char(_) | Key::Backspace => {
                type_into(&mut self.auth_buffer, key);
                Effect::Nothing
            },
            Key::Enter => self.setup_initial_password(),
            Key::Esc => Effect::Exit,
            _ => Effect::Nothing,
        }
    }

    /// A key on the login screen.
    pub fn handle_login_password_input(&mut self, key: Key) -> (e: Effect)
        requires
            old(self).wf(),
        ensures
            final(self).wf(),
            old(self).login_step(*final(self), key, e),
    {
        match key {
            Key::Tab => {
                self.show_auth_password = !self.show_auth_password;
                Effect::Nothing
            },
            Key::Char(_) | Key::Backspace => {
                type_into(&mut self.auth_buffer, key);
                Effect::Nothing
            },
            Key::Enter => Effect::Login,
            Key::Esc => Effect::Exit,
            _ => Effect::Nothing,
        }
    }

    /// A key on the security-risk screen.
    pub fn handle_security_risk_input(&mut self, key: Key) -> (e: Effect)
        requires
            old(self).wf(),
        ensures
            final(self).wf(),
            old(self).risk_step(*final(self), key, e),
    {
        match key {
            Key::Char('1') | Key::Esc => Effect::Exit,
            Key::Char('2') => self.destroy_vault_after_security_risk(),
            _ => Effect::Nothing,
        }
    }

    /// A key on the list screen.
    pub fn handle_view_entries_input(&mut self, key: Key) -> (e: Effect)
        requires
            old(self).wf(),
        ensures
            final(self).wf(),
            old(self).view_step(*final(self), key, e),
    {
        if is_key(key, 'q', 'Q') || key == Key::Esc || key == Key::Backspace {
            self.screen = AppScreen::Menu;
        }
        Effect::Nothing
    }

    /// A key on the password screen.
    pub fn handle_show_password_input(&mut self, key: Key) -> (e: Effect)
        requires
            old(self).wf(),
        ensures
            final(self).wf(),
            old(self).show_step(*final(self), key, e),
    {
        if key == Key::Esc || key == Key::Backspace {
            self.decrypted_current = None;
            self.screen = AppScreen::SelectEntry;
        } else if is_key(key, 'q', 'Q') {
            self.decrypted_current = None;
            self.screen = AppScreen::Menu;
        }
        Effect::Nothing
    }

    /// A key on the add screen.
    pub fn handle_add_entry_input(&mut self, key: Key) -> (e: Effect)
        requires
            old(self).wf(),
        ensures
            final(self).wf(),
            old(self).add_step(*final(self), key, e),
    {
        match self.duplicate_prompt {
            Some(DuplicatePrompt::Overwrite) => {
                if is_key(key, 'y', 'Y') {
                    return self.overwrite_duplicate_entry();
                } else if is_key(key, 'n', 'N') {
                    self.duplicate_prompt = Some(DuplicatePrompt::SaveCopy);
                }
                return Effect::Nothing;
            },
            Some(DuplicatePrompt::SaveCopy) => {
                if is_key(key, 'y', 'Y') {
                    return self.save_duplicate_copy();
                } else if is_key(key, 'n', 'N') || key == Key::Esc {
                    self.duplicate_prompt = None;
                    self.duplicate_index = None;
                }
                return Effect::Nothing;
            },
            None => {},
        }
        match key {
            Key::Char(_) | Key::Backspace => {
                let field = self.input_field;
                let mut buffer = self.input_buffers[field].clone();
                type_into(&mut buffer, key);
                self.input_buffers[field] = buffer;
                Effect::Nothing
            },
            Key::Tab => {
                self.input_field = (self.input_field + 1) % 3;
                Effect::Nothing
            },
            Key::Enter => {
                if self.input_field == 2 {
                    self.add_entry()
                } else {
                    self.input_field = self.input_field + 1;
                    Effect::Nothing
                }
            },
            Key::Esc => {
                self.reset_input();
                self.screen = AppScreen::Menu;
                Effect::Nothing
            },
            _ => Effect::Nothing,
        }
    }

    /// A key on the search screen.
    pub fn handle_select_entry_input(&mut self, key: Key) -> (e: Effect)
        requires
            old(self).wf(),
        ensures
            final(self).wf(),
            old(self).select_step(*final(self), key, e),
    {
        match self.edit_prompt {
            Some(EditPrompt::Auth) => {
                return match key {
                    Key::Char(_) | Key::Backspace => {
                        type_into(&mut self.edit_auth_buffer, key);
                        Effect::Nothing
                    },
                    Key::Enter => Effect::UnlockEdit,
                    Key::Esc => {
                        self.reset_edit_prompt();
                        Effect::Nothing
                    },
                    _ => Effect::Nothing,
                };
            },
            Some(EditPrompt::Edit) => {
                return match key {
                    Key::Char(_) | Key::Backspace => {
                        let field = self.edit_field;
                        let mut buffer = self.edit_buffers[field].clone();
                        type_into(&mut buffer, key);
                        self.edit_buffers[field] = buffer;
                        Effect::Nothing
                    },
                    Key::Tab => {
                        self.edit_field = (self.edit_field + 1) % 2;
                        Effect::Nothing
                    },
                    Key::Enter => self.save_edited_entry(),
                    Key::Esc => {
                        self.reset_edit_prompt();
                        Effect::Nothing
                    },
                    _ => Effect::Nothing,
                };
            },
            None => {},
        }
        if self.confirm_delete {
            if is_key(key, 'y', 'Y') {
                return match self.pending_delete_index {
                    Some(index) => self.delete_entry(index),
                    None => Effect::Nothing,
                };
            } else if is_key(key, 'n', 'N') || key == Key::Esc || key == Key::Backspace {
                self.confirm_delete = false;
                self.pending_delete_index = None;
            }
            return Effect::Nothing;
        }
        self.browse(key)
    }

    fn browse(&mut self, key: Key) -> (e: Effect)
        requires
            old(self).wf(),
            old(self).edit_prompt is None,
            !old(self).confirm_delete,
        ensures
            final(self).wf(),
            old(self).browse_step(*final(self), key, e),
    {
        if key == Key::Tab {
            self.search_field_active = !self.search_field_active;
        } else if typing(key) && self.search_field_active {
            type_into(&mut self.search_query, key);
            self.clamp_selected_index();
        } else if is_key(key, 'w', 'W') {
            if self.selected_index > 0 {
                self.selected_index = self.selected_index - 1;
            }
        } else if is_key(key, 's', 'S') {
            let visible_len = self.filtered_entry_indices().len();
            if self.selected_index < visible_len && visible_len - self.selected_index > 1 {
                self.selected_index = self.selected_index + 1;
            }
        } else if is_key(key, 'c', 'C') {
            match self.selected_entry_index() {
                Some(index) => {
                    self.confirm_delete = true;
                    self.pending_delete_index = Some(index);
                },
                None => {},
            }
        } else if is_key(key, 'e', 'E') {
            self.start_edit_auth();
        } else if key == Key::Enter {
            if self.search_field_active {
                self.search_field_active = false;
            } else {
                match self.selected_entry_index() {
                    Some(index) => {
                        let username = self.entries[index].username.clone();
                        let password = self.entries[index].password.clone();
                        self.decrypted_current = Some((username, password));
                        self.screen = AppScreen::ShowPassword;
                    },
                    None => {},
                }
            }
        } else if is_key(key, 'q', 'Q') || key == Key::Esc {
            self.confirm_delete = false;
            self.pending_delete_index = None;
            self.screen = AppScreen::Menu;
        } else if key == Key::Backspace {
            self.screen = AppScreen::Menu;
        }
        Effect::Nothing
    }
}

} // verus!
