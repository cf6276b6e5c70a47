//! Desktop-integration logic: clipboard rules and hotkey labels. The
//! operating-system calls themselves live outside this crate; what is
//! decided or composed here is verified.

use vstd::prelude::*;

use crate::error::SystemError;

verus! {

/// Clipboard operations. The platform clipboard is stubbed; the
/// acceptance rules and placeholder values are fixed here.
pub struct ClipboardManager;

impl ClipboardManager {
    /// Accepts text for the clipboard: empty text is refused.
    pub fn copy_text(text: &str) -> (r: Result<(), SystemError>)
        ensures
            r is Ok <==> text@.len() > 0,
            r is Err ==> r->Err_0 is ClipboardAccessFailed,
    {
        if text.is_empty() {
            return Err(SystemError::ClipboardAccessFailed);
        }
        Ok(())
    }

    /// The clipboard's text; empty in this stubbed integration.
    pub fn get_text() -> (r: Result<String, SystemError>)
        ensures
            r is Ok,
            r->Ok_0@ == Seq::<char>::empty(),
    {
        Ok(String::new())
    }

    /// The active application's selection; a fixed placeholder in this
    /// stubbed integration.
    pub fn get_selected_text() -> (r: Result<String, SystemError>)
        ensures
            r is Ok,
            r->Ok_0@ == "Sample selected text for demo"@,
    {
        Ok(String::from_str("Sample selected text for demo"))
    }
}

/// The human-readable label of a key combination: the active modifiers
/// and the key, joined with `+`. The platform style decides how the meta
/// modifier is written.
pub open spec fn hotkey_label_spec(
    meta: bool,
    ctrl: bool,
    alt: bool,
    shift: bool,
    key: Seq<char>,
    macos: bool,
) -> Seq<char> {
    (if meta {
        (if macos {
            "Cmd"@
        } else {
            "Meta"@
        }) + "+"@
    } else {
        Seq::<char>::empty()
    }) + (if ctrl {
        "Ctrl+"@
    } else {
        Seq::<char>::empty()
    }) + (if alt {
        "Alt+"@
    } else {
        Seq::<char>::empty()
    }) + (if shift {
        "Shift+"@
    } else {
        Seq::<char>::empty()
    }) + key
}

/// Composes a key combination's label from its decoded modifiers and key
/// name.
pub fn hotkey_label(meta: bool, ctrl: bool, alt: bool, shift: bool, key: &str, macos: bool) -> (r:
    String)
    ensures
        r@ == hotkey_label_spec(meta, ctrl, alt, shift, key@, macos),
{
    let mut s = String::new();
    if meta {
        if macos {
            s.append("Cmd");
        } else {
            s.append("Meta");
        }
        s.append("+");
    }
    if ctrl {
        s.append("Ctrl+");
    }
    if alt {
        s.append("Alt+");
    }
    if shift {
        s.append("Shift+");
    }
    s.append(key);
    s
}

} // verus!
