//! Who is using the web client.
use vstd::prelude::*;

use crate::text::copy_string;

verus! {

/// The signed-in user; `sub` is the identity passed to the Prior gate.
#[derive(Debug, Clone)]
pub struct CurrentUser {
    pub sub: String,
    pub display_name: Option<String>,
    pub email: Option<String>,
    pub avatar_url: Option<String>,
}

/// Whether a request comes from a signed-in user.
#[derive(Debug, Clone)]
pub enum AuthState {
    Anonymous,
    Authenticated(CurrentUser),
}

impl CurrentUser {
    /// The display name, else the email, else the subject.
    pub open spec fn label_spec(&self) -> Seq<char> {
        match self.display_name {
            Some(n) => n@,
            None => match self.email {
                Some(e) => e@,
                None => self.sub@,
            },
        }
    }

    pub fn label(&self) -> (r: String)
        ensures
            r@ == self.label_spec(),
    {
        match &self.display_name {
            Some(n) => copy_string(n),
            None => match &self.email {
                Some(e) => copy_string(e),
                None => copy_string(&self.sub),
            },
        }
    }

    /// A copy whose fields hold the same text.
    pub fn duplicate(&self) -> (r: CurrentUser)
        ensures
            r.sub@ == self.sub@,
            r.display_name == self.display_name,
            r.email == self.email,
            r.avatar_url == self.avatar_url,
    {
        CurrentUser {
            sub: copy_string(&self.sub),
            display_name: self.display_name.clone(),
            email: self.email.clone(),
            avatar_url: self.avatar_url.clone(),
        }
    }
}

} // verus!
