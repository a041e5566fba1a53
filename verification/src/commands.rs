//! The checks that the user-interface commands make on their arguments.

use vstd::prelude::*;
use crate::text::{trim, trimmed};

verus! {

/// The working directory asked for, when it is not blank (it is used as
/// given, untrimmed); `None` means the process's current directory.
pub fn chosen_cwd(cwd: Option<String>) -> (r: Option<String>)
    ensures
        match cwd {
            Some(c) => if trimmed(c@).len() > 0 {
                r matches Some(d) && d@ == c@
            } else {
                r is None
            },
            None => r is None,
        },
{
    match cwd {
        Some(c) => {
            let t = trim(c.as_str());
            if t.as_str().is_empty() {
                None
            } else {
                Some(c)
            }
        },
        None => None,
    }
}

/// The error for sending a prompt that is blank.
pub open spec fn empty_prompt_text() -> Seq<char> {
    "消息不能为空"@
}

/// The text to send for a prompt: `text` trimmed, or the error for a blank
/// prompt.
pub fn prompt_text(text: &str) -> (r: Result<String, String>)
    ensures
        match r {
            Ok(t) => t@ == trimmed(text@) && t@.len() > 0,
            Err(e) => trimmed(text@).len() == 0 && e@ == empty_prompt_text(),
        },
{
    let t = trim(text);
    if t.as_str().is_empty() {
        Err("消息不能为空".to_owned())
    } else {
        Ok(t)
    }
}

/// The error for sending a prompt while no agent is connected.
pub fn not_connected_message() -> (r: String)
    ensures
        r@ == "尚未连接 Agent，请先点击连接"@,
{
    "尚未连接 Agent，请先点击连接".to_owned()
}

} // verus!
