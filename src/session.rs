//! The interactive front end's decisions: which menu action a line asks
//! for, and what the session shows after each action. Reading input and
//! drawing the interface are left to the program around the library.

use vstd::prelude::*;
use vstd::string::{StrSliceExecFns, StringExecFns};
use crate::identity::{IdentityError, IdentityManager};
use crate::primitives::{base64_text, ed25519_public};

verus! {

/// An action of the terminal menu.
#[derive(Debug, Clone, Copy, PartialEq, Eq, Structural)]
pub enum MenuChoice {
    Generate,
    Export,
    Import,
    Exit,
    Invalid,
}

/// The action that a trimmed input line selects.
pub open spec fn choice_of(line: Seq<char>) -> MenuChoice {
    if line.len() != 1 {
        MenuChoice::Invalid
    } else if line[0] == '1' {
        MenuChoice::Generate
    } else if line[0] == '2' {
        MenuChoice::Export
    } else if line[0] == '3' {
        MenuChoice::Import
    } else if line[0] == '4' {
        MenuChoice::Exit
    } else {
        MenuChoice::Invalid
    }
}

/// Reads a trimmed input line as a menu action.
pub fn parse_choice(line: &str) -> (r: MenuChoice)
    ensures
        r == choice_of(line@),
{
    if line.unicode_len() != 1 {
        return MenuChoice::Invalid;
    }
    let c = line.get_char(0);
    if c == '1' {
        MenuChoice::Generate
    } else if c == '2' {
        MenuChoice::Export
    } else if c == '3' {
        MenuChoice::Import
    } else if c == '4' {
        MenuChoice::Exit
    } else {
        MenuChoice::Invalid
    }
}

/// A label as entered: none when the field is empty.
pub fn optional_name(input: &str) -> (r: Option<String>)
    ensures
        r is None <==> input@.len() == 0,
        r matches Some(n) ==> n@ == input@,
{
    if input.unicode_len() == 0 {
        None
    } else {
        Some(input.to_owned())
    }
}

/// Text that tells a user what an identity error means.
pub open spec fn description(e: IdentityError) -> Seq<char> {
    match e {
        IdentityError::KeyGenerationError => "Failed to generate key pair"@,
        IdentityError::NoIdentityLoaded => "No identity loaded"@,
        IdentityError::InvalidRecoveryKey => "Failed to decode recovery key"@,
        IdentityError::KeyDecodingError => "Failed to create key pair from recovery key"@,
        IdentityError::PersistenceError => "Failed to save identity"@,
    }
}

/// How the message of a failed menu action begins.
pub open spec fn failure_prefix(action: MenuChoice) -> Seq<char> {
    match action {
        MenuChoice::Generate => "Error generating identity: "@,
        MenuChoice::Export => "Error exporting recovery key: "@,
        MenuChoice::Import => "Error importing identity: "@,
        _ => "Error: "@,
    }
}

/// Message shown after a new identity was made.
pub open spec fn generated_message() -> Seq<char> {
    "New identity generated successfully!"@
}

/// Message shown after a recovery key was imported.
pub open spec fn imported_message() -> Seq<char> {
    "Identity imported successfully!"@
}

/// How the message that shows a recovery key begins.
pub open spec fn recovery_prefix() -> Seq<char> {
    "Recovery key: "@
}

impl IdentityError {
    /// Text that tells a user what went wrong.
    pub fn describe(&self) -> (r: &'static str)
        ensures
            r@ == description(*self),
    {
        match self {
            IdentityError::KeyGenerationError => "Failed to generate key pair",
            IdentityError::NoIdentityLoaded => "No identity loaded",
            IdentityError::InvalidRecoveryKey => "Failed to decode recovery key",
            IdentityError::KeyDecodingError => "Failed to create key pair from recovery key",
            IdentityError::PersistenceError => "Failed to save identity",
        }
    }
}

fn prefix_text(action: MenuChoice) -> (r: &'static str)
    ensures
        r@ == failure_prefix(action),
{
    match action {
        MenuChoice::Generate => "Error generating identity: ",
        MenuChoice::Export => "Error exporting recovery key: ",
        MenuChoice::Import => "Error importing identity: ",
        _ => "Error: ",
    }
}

/// State of the node's interactive front end.
pub struct DodaApp {
    pub identity_manager: IdentityManager,
    pub name_input: String,
    pub recovery_key_input: String,
    pub status_message: String,
}

impl DodaApp {
    /// A front end with no identity, empty fields and no message.
    pub fn new() -> (r: Self)
        ensures
            r.identity_manager.active() is None,
            r.identity_manager.wf(),
            r.name_input@.len() == 0,
            r.recovery_key_input@.len() == 0,
            r.status_message@.len() == 0,
    {
        DodaApp {
            identity_manager: IdentityManager::new(),
            name_input: String::new(),
            recovery_key_input: String::new(),
            status_message: String::new(),
        }
    }

    /// Shows that a menu action failed, and why.
    pub fn report_failure(&mut self, action: MenuChoice, e: IdentityError)
        ensures
            final(self).status_message@ == failure_prefix(action) + description(e),
            final(self).identity_manager == old(self).identity_manager,
            final(self).name_input == old(self).name_input,
            final(self).recovery_key_input == old(self).recovery_key_input,
    {
        let mut msg = String::from_str(prefix_text(action));
        msg.append(e.describe());
        self.status_message = msg;
    }

    /// Makes a new identity labelled by the name field, if it holds text.
    pub fn generate_identity(&mut self) -> (r: Result<(), IdentityError>)
        requires
            old(self).identity_manager.wf(),
        ensures
            final(self).identity_manager.wf(),
            r is Ok ==> final(self).status_message@ == generated_message()
                && (final(self).identity_manager.active() matches Some(i)
                && (i.spec_name() is None <==> old(self).name_input@.len() == 0)
                && (i.spec_name() matches Some(n) ==> n@ == old(self).name_input@)),
            r matches Err(e) ==> e == IdentityError::KeyGenerationError
                && final(self).status_message@ == failure_prefix(MenuChoice::Generate) + description(e)
                && final(self).identity_manager == old(self).identity_manager,
    {
        let name = optional_name(self.name_input.as_str());
        match self.identity_manager.generate_new_identity(name) {
            Ok(()) => {
                self.status_message = String::from_str("New identity generated successfully!");
                Ok(())
            },
            Err(e) => {
                self.report_failure(MenuChoice::Generate, e);
                Err(e)
            },
        }
    }

    /// Shows the active identity's recovery key.
    pub fn export_key(&mut self) -> (r: Result<String, IdentityError>)
        ensures
            final(self).identity_manager == old(self).identity_manager,
            old(self).identity_manager.active() matches Some(i) ==> (r matches Ok(k)
                && k@ == base64_text(i.secret())
                && final(self).status_message@ == recovery_prefix() + k@),
            old(self).identity_manager.active() is None ==> r == Err::<String, IdentityError>(IdentityError::NoIdentityLoaded)
                && final(self).status_message@ == failure_prefix(MenuChoice::Export) + description(IdentityError::NoIdentityLoaded),
    {
        match self.identity_manager.export_recovery_key() {
            Ok(key) => {
                let mut msg = String::from_str("Recovery key: ");
                msg.append(key.as_str());
                self.status_message = msg;
                Ok(key)
            },
            Err(e) => {
                self.report_failure(MenuChoice::Export, e);
                Err(e)
            },
        }
    }

    /// Imports the identity that the recovery key field holds.
    pub fn import_key(&mut self) -> (r: Result<(), IdentityError>)
        requires
            old(self).identity_manager.wf(),
        ensures
            final(self).identity_manager.wf(),
            r == Err::<(), IdentityError>(IdentityError::InvalidRecoveryKey)
                <==> forall|b: Seq<u8>| #[trigger] base64_text(b) != old(self).recovery_key_input@,
            r == Err::<(), IdentityError>(IdentityError::KeyDecodingError)
                <==> exists|b: Seq<u8>| #[trigger] base64_text(b) == old(self).recovery_key_input@ && ed25519_public(b) is None,
            r is Ok ==> final(self).status_message@ == imported_message()
                && (final(self).identity_manager.active() matches Some(i)
                && base64_text(i.secret()) == old(self).recovery_key_input@
                && i.spec_name() is None && i.spec_known_peers().len() == 0),
            r is Err ==> r == Err::<(), IdentityError>(IdentityError::InvalidRecoveryKey)
                || r == Err::<(), IdentityError>(IdentityError::KeyDecodingError),
            r matches Err(e) ==> final(self).status_message@ == failure_prefix(MenuChoice::Import) + description(e)
                && final(self).identity_manager == old(self).identity_manager,
    {
        let key = self.recovery_key_input.clone();
        match self.identity_manager.import_identity(key.as_str()) {
            Ok(()) => {
                self.status_message = String::from_str("Identity imported successfully!");
                Ok(())
            },
            Err(e) => {
                self.report_failure(MenuChoice::Import, e);
                Err(e)
            },
        }
    }
}

} // verus!
