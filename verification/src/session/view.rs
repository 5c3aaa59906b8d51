//! What the screens show: the texts that the terminal interface draws,
//! computed from the session state.
use crate::session::records::PasswordEntry;
use crate::session::state::{copy_name, name_taken, AppState, DuplicatePrompt, EditPrompt};
use crate::text::{decimal, push_char, with_number};
use crate::vault::entry::byte_len;
use vstd::prelude::*;

verus! {

/// `n` stars.
pub open spec fn stars(n: nat) -> Seq<char> {
    Seq::new(n, |i: int| '*')
}

/// A string of `n` stars, as `"*".repeat(n)` gives.
pub fn star_string(n: usize) -> (s: String)
    ensures
        s@ == stars(n as nat),
{
    let mut s = String::new();
    let mut i: usize = 0;
    while i < n
        invariant
            0 <= i <= n,
            s@ == stars(i as nat),
        decreases n - i,
    {
        push_char(&mut s, '*');
        i = i + 1;
        assert(s@ =~= stars(i as nat));
    }
    s
}

/// One line of the entry list: number, service, username and one star per
/// byte of the password.
pub open spec fn entry_line(i: int, e: PasswordEntry) -> Seq<char> {
    decimal((i + 1) as nat) + ". "@ + e.service@ + " | User: "@ + e.username@ + " | Pass: "@ + stars(
        byte_len(e.password@),
    )
}

/// The first `n` lines of the entry list, separated by newlines.
pub open spec fn entry_lines(entries: Seq<PasswordEntry>, n: int) -> Seq<char>
    decreases n,
{
    if n <= 0 {
        Seq::empty()
    } else if n == 1 {
        entry_line(0, entries[0])
    } else {
        entry_lines(entries, n - 1) + "\n"@ + entry_line(n - 1, entries[n - 1])
    }
}

/// The marker in front of a search result: `> ` on the cursor.
pub open spec fn marker(on: bool) -> Seq<char> {
    if on {
        "> "@
    } else {
        "  "@
    }
}

impl AppState {
    /// The status bar: the number of saved passwords, `OK` or `ERROR`, and
    /// the status message.
    pub fn status_line(&self) -> (s: String)
        ensures
            s@ == "Passwords saved: "@ + decimal(self.entries@.len()) + " | Program status: "@ + (if self.status_ok {
                "OK"@
            } else {
                "ERROR"@
            }) + " | "@ + self.status_message@,
    {
        let label = if self.status_ok {
            "OK"
        } else {
            "ERROR"
        };
        with_number("Passwords saved: ", self.entries.len() as u128).concat(" | Program status: ").concat(
            label,
        ).concat(" | ").concat(self.status_message.as_str())
    }

    /// The password field of the login and setup screens: the password when
    /// shown, else one star per character.
    pub fn auth_password_text(&self) -> (s: String)
        ensures
            s@ == if self.show_auth_password {
                self.auth_buffer@
            } else {
                stars(self.auth_buffer@.len())
            },
    {
        if self.show_auth_password {
            self.auth_buffer.clone()
        } else {
            star_string(crate::text::chars_of(self.auth_buffer.as_str()).len())
        }
    }

    /// The help box of the login and setup screens.
    pub fn auth_help_text(&self) -> (s: String)
        ensures
            s@ == self.auth_message@ + "\nTab: show/hide password | Enter: confirm | Backspace: delete | Esc: exit"@,
    {
        self.auth_message.clone().concat(
            "\nTab: show/hide password | Enter: confirm | Backspace: delete | Esc: exit",
        )
    }

    /// The warning of the security-risk screen.
    pub fn security_risk_text(&self) -> (s: String)
        ensures
            s@ == self.auth_message@
                + "\n\nvault.json has log=true but tech.json is missing.\nSomeone may be trying to bypass the initial password.\n\n1: exit\n2: destroy all saved passwords"@,
    {
        self.auth_message.clone().concat(
            "\n\nvault.json has log=true but tech.json is missing.\nSomeone may be trying to bypass the initial password.\n\n1: exit\n2: destroy all saved passwords",
        )
    }

    /// The help box of the backup screen.
    pub fn backup_help_text(&self) -> (s: String)
        ensures
            s@ == self.backup_message@ + "\nEnter: copy vault.backup.json and tech.backup.json | Esc: menu"@,
    {
        self.backup_message.clone().concat("\nEnter: copy vault.backup.json and tech.backup.json | Esc: menu")
    }

    /// The help box of the restore screen.
    pub fn upload_help_text(&self) -> (s: String)
        ensures
            s@ == self.upload_message@
                + "\nEnter: restore vault.backup.json (tech.backup.json will also be restored if present) | Esc: menu"@,
    {
        self.upload_message.clone().concat(
            "\nEnter: restore vault.backup.json (tech.backup.json will also be restored if present) | Esc: menu",
        )
    }

    /// The entry list: one numbered line per entry, or a hint when there
    /// are none.
    pub fn entries_text(&self) -> (s: String)
        ensures
            s@ == if self.entries@.len() == 0 {
                "No entries yet. Add one from the menu!"@
            } else {
                entry_lines(self.entries@, self.entries@.len() as int)
            },
    {
        if self.entries.len() == 0 {
            return "No entries yet. Add one from the menu!".to_string();
        }
        let mut s = String::new();
        let mut i: usize = 0;
        while i < self.entries.len()
            invariant
                0 <= i <= self.entries.len(),
                s@ == entry_lines(self.entries@, i as int),
            decreases self.entries.len() - i,
        {
            let e = &self.entries[i];
            proof {
                reveal_strlit("");
            }
            let line = with_number("", i as u128 + 1).concat(". ").concat(e.service.as_str()).concat(
                " | User: ",
            ).concat(e.username.as_str()).concat(" | Pass: ").concat(
                star_string(e.password.as_str().as_bytes().len()).as_str(),
            );
            assert(line@ =~= entry_line(i as int, *e));
            if i == 0 {
                s = line;
            } else {
                s = s.concat("\n").concat(line.as_str());
            }
            i = i + 1;
        }
        s
    }

    /// The rows of the search results: the listed services, each behind its
    /// marker, or a hint when there are no entries or no matches.
    pub fn result_rows(&self) -> (rows: Vec<String>)
        ensures
            self.entries@.len() == 0 ==> rows@.len() == 1 && rows@[0]@ == "No entries saved"@,
            self.entries@.len() != 0 && self.visible_indices().len() == 0 ==> rows@.len() == 1
                && rows@[0]@ == "No matching services"@,
            self.entries@.len() != 0 && self.visible_indices().len() != 0 ==> {
                &&& rows@.len() == self.visible_indices().len()
                &&& forall|k: int| 0 <= k < rows@.len() ==> #[trigger] rows@[k]@ == marker(k == self.selected_index)
                    + self.entries@[self.visible_indices()[k] as int].service@
            },
    {
        let mut rows: Vec<String> = Vec::new();
        if self.entries.len() == 0 {
            rows.push("No entries saved".to_string());
            return rows;
        }
        let visible = self.filtered_entry_indices();
        if visible.len() == 0 {
            rows.push("No matching services".to_string());
            return rows;
        }
        proof {
            crate::session::state::lemma_visible_in_range(*self);
        }
        let mut k: usize = 0;
        while k < visible.len()
            invariant
                visible@ == self.visible_indices(),
                forall|j: int| 0 <= j < visible@.len() ==> #[trigger] visible@[j] < self.entries@.len(),
                0 <= k <= visible.len(),
                rows@.len() == k,
                forall|j: int| 0 <= j < k ==> #[trigger] rows@[j]@ == marker(j == self.selected_index)
                    + self.entries@[self.visible_indices()[j] as int].service@,
            decreases visible.len() - k,
        {
            let m = if k == self.selected_index {
                "> "
            } else {
                "  "
            };
            let row = m.to_string().concat(self.entries[visible[k]].service.as_str());
            rows.push(row);
            k = k + 1;
        }
        rows
    }

    /// The delete question: the service of the entry to delete, or
    /// "selected entry" when there is none.
    pub fn delete_prompt_text(&self) -> (s: String)
        ensures
            s@ == "Delete '"@ + (match self.pending_delete_index {
                Some(i) => if i < self.entries@.len() {
                    self.entries@[i as int].service@
                } else {
                    "selected entry"@
                },
                None => "selected entry"@,
            }) + "'?\n\nY: confirm    N/Esc: cancel"@,
    {
        let service = match self.pending_delete_index {
            Some(i) => if i < self.entries.len() {
                self.entries[i].service.as_str()
            } else {
                "selected entry"
            },
            None => "selected entry",
        };
        "Delete '".to_string().concat(service).concat("'?\n\nY: confirm    N/Esc: cancel")
    }

    /// The edit popup: the masked password while it asks for it, the
    /// username and password being edited (with the current field marked)
    /// while editing.
    pub fn edit_popup_text(&self) -> (s: Option<String>)
        ensures
            match self.edit_prompt {
                None => s is None,
                Some(EditPrompt::Auth) => s matches Some(t) && t@ == "Re-enter login password to edit.\n\nPassword: "@
                    + stars(self.edit_auth_buffer@.len()) + "\n\nEnter: confirm    Esc: cancel"@,
                Some(EditPrompt::Edit) => s matches Some(t) && t@ == marker(self.edit_field == 0) + "Username: "@
                    + self.edit_buffers[0]@ + "\n"@ + marker(self.edit_field == 1) + "Password: "@
                    + self.edit_buffers[1]@ + "\n\nTab: field | Enter: save | Esc: cancel"@,
            },
    {
        match self.edit_prompt {
            None => None,
            Some(EditPrompt::Auth) => {
                let masked = star_string(crate::text::chars_of(self.edit_auth_buffer.as_str()).len());
                Some(
                    "Re-enter login password to edit.\n\nPassword: ".to_string().concat(masked.as_str()).concat(
                        "\n\nEnter: confirm    Esc: cancel",
                    ),
                )
            },
            Some(EditPrompt::Edit) => {
                let username_marker = if self.edit_field == 0 {
                    "> "
                } else {
                    "  "
                };
                let password_marker = if self.edit_field == 1 {
                    "> "
                } else {
                    "  "
                };
                Some(
                    username_marker.to_string().concat("Username: ").concat(self.edit_buffers[0].as_str()).concat(
                        "\n",
                    ).concat(password_marker).concat("Password: ").concat(self.edit_buffers[1].as_str()).concat(
                        "\n\nTab: field | Enter: save | Esc: cancel",
                    ),
                )
            },
        }
    }

    /// The duplicate-service question: whether to overwrite, or whether to
    /// save under the first free numbered copy of the name.
    pub fn duplicate_prompt_text(&self) -> (s: Option<String>)
        ensures
            match self.duplicate_prompt {
                None => s is None,
                Some(DuplicatePrompt::Overwrite) => s matches Some(t) && t@ == "Service '"@ + self.input_buffers[0]@
                    + "' already exists.\n\nOverwrite existing data?\n\nY: overwrite    N: no"@,
                Some(DuplicatePrompt::SaveCopy) => s matches Some(t) && exists|n: nat| #![trigger copy_name(self.input_buffers[0]@, n)]
                    1 <= n && !name_taken(self.entries@, copy_name(self.input_buffers[0]@, n))
                    && (forall|m: nat| 1 <= m < n ==> name_taken(self.entries@, #[trigger] copy_name(self.input_buffers[0]@, m)))
                    && t@ == "Keep the existing service unchanged?\n\nSave this entry as '"@ + copy_name(self.input_buffers[0]@, n)
                    + "'?\n\nY: save copy    N/Esc: cancel"@,
            },
    {
        match self.duplicate_prompt {
            None => None,
            Some(DuplicatePrompt::Overwrite) => Some(
                "Service '".to_string().concat(self.input_buffers[0].as_str()).concat(
                    "' already exists.\n\nOverwrite existing data?\n\nY: overwrite    N: no",
                ),
            ),
            Some(DuplicatePrompt::SaveCopy) => {
                let copy = self.next_duplicate_service_name(self.input_buffers[0].as_str());
                Some(
                    "Keep the existing service unchanged?\n\nSave this entry as '".to_string().concat(copy.as_str()).concat(
                        "'?\n\nY: save copy    N/Esc: cancel",
                    ),
                )
            },
        }
    }

    /// The password screen: the selected entry's service (or "No entry
    /// selected"), and the username and password on show (empty when none).
    pub fn shown_credentials(&self) -> (r: (String, String, String))
        ensures
            r.0@ == match self.selected_entry() {
                Some(i) => self.entries@[i as int].service@,
                None => "No entry selected"@,
            },
            r.1@ == match self.decrypted_current {
                Some(c) => c.0@,
                None => Seq::<char>::empty(),
            },
            r.2@ == match self.decrypted_current {
                Some(c) => c.1@,
                None => Seq::<char>::empty(),
            },
    {
        let service = match self.selected_entry_index() {
            Some(i) => self.entries[i].service.clone(),
            None => "No entry selected".to_string(),
        };
        match &self.decrypted_current {
            Some((u, p)) => (service, u.clone(), p.clone()),
            None => (service, String::new(), String::new()),
        }
    }
}

} // verus!
