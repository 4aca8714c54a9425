//! Decisions around registering and changing a shortcut binding: validate
//! first, refuse a chord that is already registered, then register, and
//! answer the change with a response.
use vstd::prelude::*;
use crate::chars::{append_str, from_chars, to_chars};
use crate::records::BindingResponse;
use crate::settings::ShortcutBinding;
use crate::text::{has_non_modifier, validate_shortcut_string};

verus! {

/// The first step of a binding change.
pub enum BindingChange {
    /// No binding has this id: answer with this response.
    NotFound(BindingResponse),
    /// The new shortcut is refused: fail with this message.
    Invalid(String),
    /// Unregister the old chord and register this updated binding.
    Register(ShortcutBinding),
}

/// Message for a binding id that is not configured.
pub open spec fn not_found_text(id: Seq<char>) -> Seq<char> {
    "Binding with id '"@ + id + "' not found"@
}

/// Decides the first step of changing binding `id` to the shortcut
/// `binding`, given the binding found under that id.
pub fn plan_binding_change(id: &str, existing: Option<ShortcutBinding>, binding: &str) -> (r:
    BindingChange)
    ensures
        match existing {
            None => r matches BindingChange::NotFound(resp) && !resp.success && resp.binding is None
                && (resp.error matches Some(e) && e@ == not_found_text(id@)),
            Some(b) => if has_non_modifier(binding@) {
                r matches BindingChange::Register(u) && u.id == b.id && u.name == b.name
                    && u.description == b.description && u.default_binding == b.default_binding
                    && u.current_binding@ == binding@
            } else {
                r matches BindingChange::Invalid(e) && e@
                    == "Shortcut must contain at least one non-modifier key"@
            },
        },
{
    match existing {
        None => {
            let mut out: Vec<char> = Vec::new();
            append_str(&mut out, "Binding with id '");
            append_str(&mut out, id);
            append_str(&mut out, "' not found");
            BindingChange::NotFound(BindingResponse::refused(from_chars(out.as_slice())))
        },
        Some(b) => match validate_shortcut_string(binding) {
            Err(e) => BindingChange::Invalid(e),
            Ok(()) => BindingChange::Register(
                ShortcutBinding {
                    id: b.id,
                    name: b.name,
                    description: b.description,
                    default_binding: b.default_binding,
                    current_binding: from_chars(to_chars(binding).as_slice()),
                },
            ),
        },
    }
}

/// The response to a binding change once registration was tried.
pub fn binding_change_outcome(updated: ShortcutBinding, registered: Result<(), String>) -> (r:
    BindingResponse)
    ensures
        match registered {
            Ok(()) => r.success && r.binding == Some(updated) && r.error is None,
            Err(e) => !r.success && r.binding is None && (r.error matches Some(m) && m@
                == "Failed to register shortcut: "@ + e@),
        },
{
    match registered {
        Ok(()) => BindingResponse::accepted(updated),
        Err(e) => {
            let mut out: Vec<char> = Vec::new();
            append_str(&mut out, "Failed to register shortcut: ");
            append_str(&mut out, e.as_str());
            BindingResponse::refused(from_chars(out.as_slice()))
        },
    }
}

/// Whether `binding` may be registered: it must name a non-modifier key,
/// parse as a chord (`parse_error` is the parser's message when it did
/// not), and not be registered already. The first failing check gives the
/// error.
pub fn check_registration(binding: &str, parse_error: Option<String>, already_registered: bool) -> (r:
    Result<(), String>)
    ensures
        !has_non_modifier(binding@) ==> (r matches Err(e) && e@
            == "Shortcut must contain at least one non-modifier key"@),
        has_non_modifier(binding@) ==> match parse_error {
            Some(p) => r matches Err(e) && e@ == "Failed to parse shortcut '"@ + binding@ + "': "@
                + p@,
            None => if already_registered {
                r matches Err(e) && e@ == "Shortcut '"@ + binding@ + "' is already in use"@
            } else {
                r is Ok
            },
        },
{
    if let Err(e) = validate_shortcut_string(binding) {
        return Err(e);
    }
    match parse_error {
        Some(p) => {
            let mut out: Vec<char> = Vec::new();
            append_str(&mut out, "Failed to parse shortcut '");
            append_str(&mut out, binding);
            append_str(&mut out, "': ");
            append_str(&mut out, p.as_str());
            Err(from_chars(out.as_slice()))
        },
        None => if already_registered {
            let mut out: Vec<char> = Vec::new();
            append_str(&mut out, "Shortcut '");
            append_str(&mut out, binding);
            append_str(&mut out, "' is already in use");
            Err(from_chars(out.as_slice()))
        } else {
            Ok(())
        },
    }
}

} // verus!
