//! Records the application stores and reports: rewriting profiles, tags, and
//! the answer to a change of shortcut binding.
use vstd::prelude::*;
use crate::settings::ShortcutBinding;

verus! {

/// A rewriting profile with its own instructions.
#[derive(Clone, Debug)]
pub struct Profile {
    pub id: i64,
    pub name: String,
    pub description: Option<String>,
    pub color: String,
    pub icon: String,
    pub custom_instructions: Option<String>,
    pub created_at: i64,
    pub updated_at: i64,
}

/// A label attached to transcriptions.
#[derive(Clone, Debug)]
pub struct Tag {
    pub id: i64,
    pub name: String,
    pub color: String,
    pub created_at: i64,
}

/// Outcome of changing a shortcut binding.
#[derive(Clone, Debug)]
pub struct BindingResponse {
    pub success: bool,
    pub binding: Option<ShortcutBinding>,
    pub error: Option<String>,
}

impl BindingResponse {
    /// The binding was changed.
    pub fn accepted(binding: ShortcutBinding) -> (r: Self)
        ensures
            r.success,
            r.binding == Some(binding),
            r.error is None,
    {
        BindingResponse { success: true, binding: Some(binding), error: None }
    }

    /// The binding was refused for the given reason.
    pub fn refused(error: String) -> (r: Self)
        ensures
            !r.success,
            r.binding is None,
            r.error == Some(error),
    {
        BindingResponse { success: false, binding: None, error: Some(error) }
    }
}

} // verus!
