//! The page a failed sign-in ends on.
use vstd::prelude::*;
use vstd::string::*;

use crate::text::str_eq;

verus! {

/// What the denied page says for the `reason` in its query.
pub fn auth_denied_message(reason: Option<&str>) -> (r: &'static str)
    ensures
        r@ == match reason {
            Some(x) => if x@ == "access_denied"@ {
                "Login was canceled before authorization completed."@
            } else if x@ == "login_failed"@ {
                "Prior could not complete login and establish a session."@
            } else {
                "Authentication did not complete. Try again, and check server logs if the failure repeats."@
            },
            None => "Authentication did not complete. Try again, and check server logs if the failure repeats."@,
        },
{
    match reason {
        Some(x) => if str_eq(x, "access_denied") {
            "Login was canceled before authorization completed."
        } else if str_eq(x, "login_failed") {
            "Prior could not complete login and establish a session."
        } else {
            "Authentication did not complete. Try again, and check server logs if the failure repeats."
        },
        None => "Authentication did not complete. Try again, and check server logs if the failure repeats.",
    }
}

} // verus!
