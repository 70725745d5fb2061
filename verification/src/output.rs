//! The shape of what the client prints.

use vstd::prelude::*;

verus! {

/// Whether the result is printed inside the `{"ok": true, "data": ...}`
/// envelope: when `--json` is given, or when standard output is not a
/// terminal (so that programs reading it can rely on the envelope).
pub fn wants_envelope(json_flag: bool, stdout_is_terminal: bool) -> (r: bool)
    ensures
        r == (json_flag || !stdout_is_terminal),
{
    json_flag || !stdout_is_terminal
}

} // verus!
