//! Adjustments to the host system at startup.

use vstd::prelude::*;
use crate::text::contains_text;
use crate::text::lowercase_of;
use crate::text::occurs_in;
use crate::text::to_lowercase;

verus! {

/// A variable of the environment to set, with its value.
#[derive(Debug, PartialEq, Eq)]
pub struct EnvPatch {
    pub name: String,
    pub value: String,
}

/// Whether the session runs on the display and graphics stack whose
/// renderer must be adjusted: a Wayland session, by the session type in any
/// case of letters, on a machine with the NVIDIA kernel module.
pub fn is_dangerous_combo(session_type: Option<&str>, has_nvidia: bool) -> (r: bool)
    ensures
        r == (has_nvidia && match session_type {
            Some(kind) => occurs_in(lowercase_of(kind@), "wayland"@),
            None => false,
        }),
{
    let is_wayland = match session_type {
        Some(kind) => {
            let lowered = to_lowercase(kind);
            contains_text(lowered.as_str(), "wayland")
        },
        None => false,
    };
    is_wayland && has_nvidia
}

/// The adjustment to make on Linux at startup, if any: on Wayland with
/// NVIDIA the DMA-BUF renderer of the web view is switched off.
pub fn apply_linux_patches(session_type: Option<&str>, has_nvidia: bool) -> (r: Option<EnvPatch>)
    ensures
        r is Some <==> (has_nvidia && match session_type {
            Some(kind) => occurs_in(lowercase_of(kind@), "wayland"@),
            None => false,
        }),
        r matches Some(patch) ==> patch.name@ == "WEBKIT_DISABLE_DMABUF_RENDERER"@
            && patch.value@ == "1"@,
{
    if is_dangerous_combo(session_type, has_nvidia) {
        Some(
            EnvPatch {
                name: String::from_str("WEBKIT_DISABLE_DMABUF_RENDERER"),
                value: String::from_str("1"),
            },
        )
    } else {
        None
    }
}

} // verus!
