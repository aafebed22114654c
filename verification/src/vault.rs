//! Creating a vault: the form's rules and the audit entry.

use vstd::prelude::*;
use crate::validation::{FieldError, check_min_length, errors_view, min_length_errors};

verus! {

/// The new-vault form: its name, and its key encrypted for the creator, with the
/// creator's public key.
#[derive(Debug, PartialEq, Eq)]
pub struct NewVault {
    pub name: String,
    pub encrypted_vault_key: String,
    pub public_key: String,
}

/// The errors of the new-vault form, field by field in the order of the form.
pub open spec fn new_vault_errors(v: NewVault) -> Seq<(Seq<char>, Seq<char>)> {
    min_length_errors("name"@, v.name@, "The name is mandatory"@) + min_length_errors(
        "encrypted_vault_key"@,
        v.encrypted_vault_key@,
        "Where did the vault key go?"@,
    ) + min_length_errors("public_key"@, v.public_key@, "Where did the vault key go?"@)
}

impl NewVault {
    /// The form's rules: the name, the encrypted key and the public key are mandatory.
    pub fn validate(&self) -> (res: Result<(), Vec<FieldError>>)
        ensures
            res is Ok <==> (self.name@.len() >= 1 && self.encrypted_vault_key@.len() >= 1
                && self.public_key@.len() >= 1),
            res matches Err(errors) ==> errors_view(errors@) == new_vault_errors(*self),
    {
        let mut errors: Vec<FieldError> = Vec::new();
        proof {
            assert(errors_view(errors@) =~= seq![]);
        }
        check_min_length(&mut errors, "name", self.name.as_str(), "The name is mandatory");
        check_min_length(
            &mut errors,
            "encrypted_vault_key",
            self.encrypted_vault_key.as_str(),
            "Where did the vault key go?",
        );
        check_min_length(&mut errors, "public_key", self.public_key.as_str(), "Where did the vault key go?");
        proof {
            assert(errors_view(errors@) =~= new_vault_errors(*self));
        }
        if errors.len() == 0 {
            Ok(())
        } else {
            Err(errors)
        }
    }
}

/// The audit log entry of a new vault.
pub open spec fn vault_audit_spec(name: Seq<char>) -> Seq<char> {
    name + " vault created"@
}

/// Builds the audit log entry of a new vault.
pub fn vault_audit_description(name: &str) -> (res: String)
    ensures
        res@ == vault_audit_spec(name@),
{
    let mut s = String::from_str(name);
    s.append(" vault created");
    s
}

} // verus!
