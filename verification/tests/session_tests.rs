use passm3nage::crypto::kdf::derive_key;
use passm3nage::session::input::Key;
use passm3nage::session::records::{
    decrypt_entries_with_key, decrypt_stored_entries, encrypt_entries, PasswordEntry, VaultDiskFormat,
    VaultFile,
};
use passm3nage::session::state::{AppScreen, AppState, DuplicatePrompt, EditPrompt, Effect};
use passm3nage::session::tech::{
    auth_kdf_params, check_opens, new_tech_file, validate_initial_password, verify_tech_file,
};
use passm3nage::crypto::key::SecretKey;

fn entry(service: &str, username: &str, password: &str) -> PasswordEntry {
    PasswordEntry {
        service: service.to_string(),
        username: username.to_string(),
        password: password.to_string(),
    }
}

fn unlocked_state() -> AppState {
    let mut s = AppState::new();
    s.master_password = Some("Passw0rd!".to_string());
    s.master_salt = Some([5u8; 16]);
    s.screen = AppScreen::Menu;
    s
}

fn type_text(s: &mut AppState, text: &str) {
    for c in text.chars() {
        s.handle_key(Key::Char(c));
    }
}

#[test]
fn initial_password_rules() {
    assert_eq!(
        validate_initial_password("short1!").unwrap_err(),
        "Password must have at least 8 characters"
    );
    assert_eq!(
        validate_initial_password("longpassword!").unwrap_err(),
        "Password must include at least one number"
    );
    assert_eq!(
        validate_initial_password("longpassword1").unwrap_err(),
        "Password must include at least one special symbol"
    );
    assert!(validate_initial_password("longpass1!").is_ok());
    assert!(validate_initial_password("pässwört1").is_ok());
}

#[test]
fn tech_check_accepts_its_password() {
    let tech = new_tech_file("Passw0rd!").unwrap();
    assert!(verify_tech_file(Some(&tech), "Passw0rd!"));
    assert!(!verify_tech_file(Some(&tech), "Passw0rd?"));
    assert!(!verify_tech_file(None, "Passw0rd!"));
    let other = new_tech_file("Passw0rd!").unwrap();
    assert_ne!(tech.salt, other.salt);
}

#[test]
fn stored_entries_round_trip() {
    let entries = vec![entry("github", "alice", "s3cret"), entry("mail", "bob", "pässword")];
    let key = derive_key(b"master", &[9u8; 16], &auth_kdf_params()).unwrap();
    let stored = encrypt_entries(&entries, &key).unwrap();
    assert_eq!(stored.len(), 2);
    assert_eq!(stored[0].service, "github");
    assert_eq!(stored[0].username_ciphertext.len(), 5 + 16);
    let back = decrypt_entries_with_key(&stored, &key).unwrap();
    assert_eq!(back[1].username, "bob");
    assert_eq!(back[1].password, "pässword");
    let back = decrypt_stored_entries(&stored, "master", &[9u8; 16], &auth_kdf_params()).unwrap();
    assert_eq!(back[0].password, "s3cret");
    assert_eq!(
        decrypt_stored_entries(&stored, "wrong", &[9u8; 16], &auth_kdf_params()).unwrap_err(),
        "username decrypt failed"
    );
    let mut tampered = stored.clone();
    tampered[1].password_ciphertext[0] ^= 1;
    assert_eq!(
        decrypt_entries_with_key(&tampered, &key).unwrap_err(),
        "password decrypt failed"
    );
    let mut moved = stored.clone();
    moved[0].service = "gitlab".to_string();
    assert_eq!(decrypt_entries_with_key(&moved, &key).unwrap_err(), "username decrypt failed");
}

#[test]
fn add_duplicate_and_copy() {
    let mut s = unlocked_state();
    s.entries.push(entry("GitHub", "a", "b"));
    assert!(matches!(s.handle_key(Key::Char('a')), Effect::Nothing));
    assert_eq!(s.screen, AppScreen::AddEntry);
    type_text(&mut s, "github");
    s.handle_key(Key::Enter);
    type_text(&mut s, "carol");
    s.handle_key(Key::Tab);
    type_text(&mut s, "pw");
    assert_eq!(s.input_field, 2);
    assert!(matches!(s.handle_key(Key::Enter), Effect::Nothing));
    assert_eq!(s.duplicate_prompt, Some(DuplicatePrompt::Overwrite));
    assert_eq!(s.duplicate_index, Some(0));
    assert!(s.duplicate_prompt_text().unwrap().starts_with("Service 'github' already exists."));
    s.handle_key(Key::Char('n'));
    assert_eq!(s.duplicate_prompt, Some(DuplicatePrompt::SaveCopy));
    assert!(s.duplicate_prompt_text().unwrap().contains("Save this entry as 'github1'?"));
    assert!(matches!(s.handle_key(Key::Char('y')), Effect::Save));
    assert_eq!(s.entries.len(), 2);
    assert_eq!(s.entries[1].service, "github1");
    assert_eq!(s.entries[1].username, "carol");
    assert_eq!(s.screen, AppScreen::Menu);
    assert_eq!(s.next_duplicate_service_name("github"), "github2");
    assert_eq!(s.next_duplicate_service_name("lua"), "lua1");
}

#[test]
fn overwrite_existing() {
    let mut s = unlocked_state();
    s.entries.push(entry("lua", "old", "old"));
    s.screen = AppScreen::AddEntry;
    s.input_buffers = ["LUA".to_string(), "new".to_string(), "pw".to_string()];
    s.input_field = 2;
    s.handle_key(Key::Enter);
    assert!(matches!(s.handle_key(Key::Char('Y')), Effect::Save));
    assert_eq!(s.entries.len(), 1);
    assert_eq!(s.entries[0].service, "lua");
    assert_eq!(s.entries[0].username, "new");
    assert_eq!(s.input_buffers[0], "");
}

#[test]
fn add_before_login_does_nothing() {
    let mut s = AppState::new();
    s.screen = AppScreen::AddEntry;
    s.input_buffers[0] = "svc".to_string();
    s.input_field = 2;
    assert!(matches!(s.handle_key(Key::Enter), Effect::Nothing));
    assert!(s.entries.is_empty());
}

#[test]
fn search_filter_select_delete() {
    let mut s = unlocked_state();
    s.entries.push(entry("GitHub", "a", "1"));
    s.entries.push(entry("Mail", "b", "2"));
    s.entries.push(entry("gitlab", "c", "3"));
    s.handle_key(Key::Char('s'));
    assert_eq!(s.screen, AppScreen::SelectEntry);
    assert_eq!(s.filtered_entry_indices(), vec![0, 1, 2]);
    type_text(&mut s, "GIT");
    assert_eq!(s.filtered_entry_indices(), vec![0, 2]);
    assert_eq!(s.result_rows(), vec!["> GitHub".to_string(), "  gitlab".to_string()]);
    s.handle_key(Key::Tab);
    s.handle_key(Key::Char('s'));
    assert_eq!(s.selected_index, 1);
    s.handle_key(Key::Char('s'));
    assert_eq!(s.selected_index, 1);
    assert_eq!(s.selected_entry_index(), Some(2));
    s.handle_key(Key::Enter);
    assert_eq!(s.screen, AppScreen::ShowPassword);
    let (svc, user, pass) = s.shown_credentials();
    assert_eq!((svc.as_str(), user.as_str(), pass.as_str()), ("gitlab", "c", "3"));
    s.handle_key(Key::Esc);
    assert_eq!(s.screen, AppScreen::SelectEntry);
    assert!(s.decrypted_current.is_none());
    s.handle_key(Key::Char('c'));
    assert!(s.confirm_delete);
    assert_eq!(s.pending_delete_index, Some(2));
    assert_eq!(s.delete_prompt_text(), "Delete 'gitlab'?\n\nY: confirm    N/Esc: cancel");
    assert!(matches!(s.handle_key(Key::Char('y')), Effect::Save));
    assert_eq!(s.entries.len(), 2);
    assert_eq!(s.selected_index, 0);
    assert!(!s.confirm_delete);
    s.handle_key(Key::Char('w'));
    assert_eq!(s.selected_index, 0);
    s.handle_key(Key::Tab);
    type_text(&mut s, "zzz");
    assert_eq!(s.result_rows(), vec!["No matching services".to_string()]);
    assert_eq!(s.selected_entry_index(), None);
}

#[test]
fn edit_needs_the_login_password() {
    let tech = new_tech_file("Passw0rd!").unwrap();
    let mut s = unlocked_state();
    s.entries.push(entry("svc", "u", "p"));
    s.handle_key(Key::Char('s'));
    s.handle_key(Key::Tab);
    s.handle_key(Key::Char('e'));
    assert_eq!(s.edit_prompt, Some(EditPrompt::Auth));
    type_text(&mut s, "wrong");
    assert!(matches!(s.handle_key(Key::Enter), Effect::UnlockEdit));
    s.unlock_edit_prompt(Some(&tech));
    assert_eq!(s.edit_prompt, Some(EditPrompt::Auth));
    assert_eq!(s.edit_auth_buffer, "");
    type_text(&mut s, "Passw0rd!");
    assert!(s.edit_popup_text().unwrap().contains("Password: *********"));
    s.unlock_edit_prompt(Some(&tech));
    assert_eq!(s.edit_prompt, Some(EditPrompt::Edit));
    assert_eq!(s.edit_buffers, ["u".to_string(), "p".to_string()]);
    s.handle_key(Key::Char('2'));
    s.handle_key(Key::Tab);
    s.handle_key(Key::Backspace);
    s.handle_key(Key::Char('q'));
    assert!(matches!(s.handle_key(Key::Enter), Effect::Save));
    assert_eq!(s.entries[0].username, "u2");
    assert_eq!(s.entries[0].password, "q");
    assert_eq!(s.edit_prompt, None);
}

#[test]
fn setup_login_save_load() {
    let mut s = AppState::new();
    s.initialize_security(false, false, false);
    assert_eq!(s.screen, AppScreen::SetupPassword);
    type_text(&mut s, "weak");
    assert!(matches!(s.handle_key(Key::Enter), Effect::Nothing));
    assert_eq!(s.auth_message, "Password must have at least 8 characters");
    s.auth_buffer = String::new();
    type_text(&mut s, "Passw0rd!");
    let tech = match s.handle_key(Key::Enter) {
        Effect::WriteTechFile(t) => t,
        other => panic!("unexpected {:?}", other),
    };
    assert!(matches!(s.finish_setup(Some(tech.salt)), Effect::Save));
    assert_eq!(s.screen, AppScreen::Menu);
    assert_eq!(s.master_password.as_deref(), Some("Passw0rd!"));
    s.entries.push(entry("svc", "user", "pw"));
    let saved = s.prepare_save().unwrap();
    assert!(saved.log);
    assert_eq!(saved.entries.len(), 1);

    let mut t = AppState::new();
    t.initialize_security(true, true, true);
    assert_eq!(t.screen, AppScreen::LoginPassword);
    type_text(&mut t, "Passw0rd?");
    assert!(matches!(t.handle_key(Key::Enter), Effect::Login));
    assert!(matches!(t.login_initial_password(Some(&tech)), Effect::Nothing));
    assert_eq!(t.auth_message, "Invalid password");
    assert!(!t.status_ok);
    type_text(&mut t, "Passw0rd!");
    assert!(matches!(t.login_initial_password(Some(&tech)), Effect::LoadVault));
    assert_eq!(t.screen, AppScreen::Menu);
    assert!(matches!(t.load_vault(VaultDiskFormat::Current(saved)), Effect::Nothing));
    assert!(t.status_ok);
    assert_eq!(t.entries.len(), 1);
    assert_eq!(t.entries[0].password, "pw");
    assert_eq!(t.status_line(), "Passwords saved: 1 | Program status: OK | OK");
}

#[test]
fn legacy_salt_vault_is_migrated() {
    let key = derive_key(b"Passw0rd!", &[0u8; 16], &auth_kdf_params()).unwrap();
    let stored = encrypt_entries(&[entry("old", "u", "p")], &key).unwrap();
    let mut s = unlocked_state();
    s.master_password = Some("Passw0rd!".to_string());
    assert!(matches!(s.load_vault(VaultDiskFormat::Legacy(stored)), Effect::Save));
    assert_eq!(s.entries[0].service, "old");
    assert!(s.status_ok);
    let mut u = unlocked_state();
    let garbage = encrypt_entries(&[entry("x", "u", "p")], &passm3nage::crypto::key::SecretKey::new([1; 32])).unwrap();
    assert!(matches!(u.load_vault(VaultDiskFormat::Legacy(garbage)), Effect::Nothing));
    assert!(!u.status_ok);
    assert_eq!(u.status_message, "username decrypt failed");
}

#[test]
fn security_risk_and_destroy() {
    let mut s = AppState::new();
    s.initialize_security(false, true, true);
    assert_eq!(s.screen, AppScreen::SecurityRisk);
    assert_eq!(s.auth_message, "secury recovery risk");
    assert!(s.security_risk_text().starts_with("secury recovery risk\n\nvault.json has log=true"));
    assert!(matches!(s.handle_key(Key::Char('2')), Effect::DestroyVault));
    let v = VaultFile::destroyed();
    assert!(!v.log && v.entries.is_empty());
    s.finish_destroy(Some(true));
    assert_eq!(s.screen, AppScreen::SetupPassword);
    assert_eq!(
        s.auth_message,
        "Passwords destroyed. Create a new initial password to continue."
    );
    let mut r = AppState::new();
    r.initialize_security(false, true, false);
    assert_eq!(r.screen, AppScreen::SetupPassword);
    assert!(matches!(r.handle_key(Key::Esc), Effect::Exit));
}

#[test]
fn backup_and_restore_reports() {
    let mut s = unlocked_state();
    s.handle_key(Key::Char('b'));
    assert_eq!(s.screen, AppScreen::BackupVault);
    assert!(s.backup_help_text().starts_with("Enter destination directory for encrypted vault copy\n"));
    assert!(matches!(s.handle_key(Key::Enter), Effect::Backup));
    assert!(!s.backup_precheck(false, true));
    assert_eq!(s.backup_message, "Destination directory is required");
    assert_eq!(s.status_message, "backup destination missing");
    type_text(&mut s, " /tmp/x ");
    assert_eq!(s.backup_destination(), "/tmp/x");
    assert!(!s.backup_precheck(false, true));
    assert_eq!(s.backup_message, "Destination is not a valid directory");
    assert!(!s.backup_precheck(true, false));
    assert_eq!(s.backup_message, "vault.json does not exist yet");
    assert!(s.backup_precheck(true, true));
    s.backup_finish(true, false, "/tmp/x/vault.backup.json");
    assert_eq!(s.backup_message, "Vault backup copied to /tmp/x/vault.backup.json (tech.json missing)");
    assert!(s.status_ok);
    s.backup_finish(false, true, "/tmp/x/vault.backup.json");
    assert_eq!(s.backup_message, "Could not copy vault.json");
    assert_eq!(s.status_message, "vault backup failed");
    s.handle_key(Key::Esc);
    assert_eq!(s.screen, AppScreen::Menu);

    s.handle_key(Key::Char('U'));
    assert_eq!(s.screen, AppScreen::UploadBackup);
    assert!(!s.upload_precheck(true));
    assert_eq!(s.upload_message, "Backup file path is required");
    type_text(&mut s, "b.json");
    assert!(!s.upload_precheck(false));
    assert_eq!(s.upload_message, "Backup file does not exist");
    assert!(s.upload_precheck(true));
    s.entries.push(entry("a", "b", "c"));
    assert!(matches!(s.upload_copied(true, Some([7u8; 16])), Effect::LoadVault));
    assert_eq!(s.master_salt, Some([7u8; 16]));
    assert!(s.entries.is_empty());
    s.set_status_ok();
    s.upload_report(true);
    assert_eq!(s.upload_message, "Encrypted backup restored into vault.json and tech.json restored");
    s.set_status_error("x");
    s.upload_report(false);
    assert_eq!(s.upload_message, "Backup copied, but it could not be decrypted with current login");
    s.upload_failed();
    assert_eq!(s.status_message, "backup upload failed");
}

#[test]
fn entry_list_text() {
    let mut s = unlocked_state();
    assert_eq!(s.entries_text(), "No entries yet. Add one from the menu!");
    s.entries.push(entry("a", "u1", "pw"));
    s.entries.push(entry("b", "u2", "é"));
    assert_eq!(s.entries_text(), "1. a | User: u1 | Pass: **\n2. b | User: u2 | Pass: **");
    s.show_auth_password = false;
    s.auth_buffer = "abc".to_string();
    assert_eq!(s.auth_password_text(), "***");
    s.show_auth_password = true;
    assert_eq!(s.auth_password_text(), "abc");
    s.handle_key(Key::Char('v'));
    assert_eq!(s.screen, AppScreen::ViewEntries);
    s.handle_key(Key::Char('x'));
    assert_eq!(s.screen, AppScreen::ViewEntries);
    s.handle_key(Key::Backspace);
    assert_eq!(s.screen, AppScreen::Menu);
    assert!(matches!(s.handle_key(Key::Char('q')), Effect::Exit));
}

#[test]
fn login_check_opens_only_under_its_key() {
    let tech = new_tech_file("Passw0rd!").unwrap();
    let key = derive_key("Passw0rd!".as_bytes(), &tech.salt, &auth_kdf_params()).unwrap();
    assert!(check_opens(&tech, &key));
    let wrong = derive_key("Passw0rd?".as_bytes(), &tech.salt, &auth_kdf_params()).unwrap();
    assert!(!check_opens(&tech, &wrong));
    assert!(!check_opens(&tech, &SecretKey::new([0u8; 32])));
}

#[test]
fn save_status_follows_the_write() {
    let mut s = unlocked_state();
    s.finish_save(Some(true));
    assert!(s.status_ok);
    assert_eq!(s.status_message, "OK");
    s.finish_save(Some(false));
    assert!(!s.status_ok);
    assert_eq!(s.status_message, "vault write failed");
    s.finish_save(None);
    assert!(!s.status_ok);
    assert_eq!(s.status_message, "vault serialization failed");
}

#[test]
fn load_settles_from_both_read_backs() {
    let mut s = unlocked_state();
    let before = s.entries.len();
    let e = s.settle_load(Ok(vec![entry("a", "u", "p")]), None);
    assert!(matches!(e, Effect::Nothing));
    assert_eq!(s.entries.len(), 1);
    assert!(s.status_ok);

    let mut s = unlocked_state();
    let e = s.settle_load(Err("username decrypt failed"), Some(Ok(vec![entry("b", "u", "p")])));
    assert!(matches!(e, Effect::Save));
    assert_eq!(s.entries[0].service, "b");
    assert_eq!(s.status_message, "OK");

    let mut s = unlocked_state();
    let e = s.settle_load(Err("username decrypt failed"), Some(Err("password decrypt failed")));
    assert!(matches!(e, Effect::Nothing));
    assert_eq!(s.entries.len(), before);
    assert!(!s.status_ok);
    assert_eq!(s.status_message, "password decrypt failed");
}

#[test]
fn empty_search_lists_every_entry() {
    let mut s = unlocked_state();
    s.entries = vec![entry("a", "u", "p"), entry("B", "u", "p"), entry("c", "u", "p")];
    s.search_query = String::new();
    assert_eq!(s.filtered_entry_indices(), vec![0, 1, 2]);
}

#[test]
fn login_settles_from_the_check() {
    let tech = new_tech_file("Passw0rd!").unwrap();
    let mut s = AppState::new();
    s.auth_buffer = "Passw0rd!".to_string();
    let e = s.finish_login(Some(&tech), true);
    assert!(matches!(e, Effect::LoadVault));
    assert_eq!(s.master_password.as_deref(), Some("Passw0rd!"));
    assert_eq!(s.master_salt, Some(tech.salt));
    assert_eq!(s.screen, AppScreen::Menu);
    assert!(s.auth_buffer.is_empty());

    let mut s = AppState::new();
    s.auth_buffer = "nope".to_string();
    let e = s.finish_login(Some(&tech), false);
    assert!(matches!(e, Effect::Nothing));
    assert!(s.master_password.is_none());
    assert!(s.auth_buffer.is_empty());
    assert_eq!(s.auth_message, "Invalid password");
    assert_eq!(s.status_message, "invalid login password");
    assert!(!s.status_ok);
}

#[test]
fn edit_unlock_settles_from_the_check() {
    let mut s = unlocked_state();
    s.entries = vec![entry("github", "alice", "pw1")];
    s.edit_index = Some(0);
    s.edit_prompt = Some(EditPrompt::Auth);
    s.edit_auth_buffer = "typed".to_string();
    s.finish_edit_unlock(true);
    assert_eq!(s.edit_prompt, Some(EditPrompt::Edit));
    assert_eq!(s.edit_buffers[0], "alice");
    assert_eq!(s.edit_buffers[1], "pw1");
    assert_eq!(s.edit_field, 0);
    assert!(s.edit_auth_buffer.is_empty());

    let mut s = unlocked_state();
    s.entries = vec![entry("github", "alice", "pw1")];
    s.edit_index = Some(0);
    s.edit_prompt = Some(EditPrompt::Auth);
    s.edit_auth_buffer = "typed".to_string();
    s.finish_edit_unlock(false);
    assert_eq!(s.edit_prompt, Some(EditPrompt::Auth));
    assert!(s.edit_buffers[0].is_empty());
    assert!(s.edit_auth_buffer.is_empty());
}
