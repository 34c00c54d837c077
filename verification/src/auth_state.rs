//! Credentials held by one node session.

use vstd::prelude::*;

verus! {

/// The credentials a session has presented, if any.
///
/// A session is authenticated once both fields are set.
pub struct AuthState {
    pub id: Option<String>,
    pub password: Option<String>,
}

impl Default for AuthState {
    fn default() -> (state: Self)
        ensures
            state.id is None,
            state.password is None,
    {
        AuthState { id: None, password: None }
    }
}

impl AuthState {
    /// Both credentials are present.
    pub open spec fn authenticated(&self) -> bool {
        self.id is Some && self.password is Some
    }

    /// The state holds exactly the pair `(id, password)`, compared character
    /// by character.
    pub open spec fn matches(&self, id: Seq<char>, password: Seq<char>) -> bool {
        &&& self.id matches Some(a)
        &&& self.password matches Some(b)
        &&& a@ == id
        &&& b@ == password
    }

    /// The pair under which an authenticated state is known.
    pub open spec fn key(&self) -> (Seq<char>, Seq<char>)
        recommends
            self.authenticated(),
    {
        (self.id->0@, self.password->0@)
    }

    /// Records `id` and `password` as this session's credentials.
    pub fn authenticate(&mut self, id: String, password: String)
        ensures
            final(self).id == Some(id),
            final(self).password == Some(password),
    {
        self.id = Some(id);
        self.password = Some(password);
    }

    /// Whether both credentials are present.
    pub fn is_authenticated(&self) -> (b: bool)
        ensures
            b == self.authenticated(),
    {
        self.id.is_some() && self.password.is_some()
    }

    /// Whether the state is authenticated as exactly `(id, password)`.
    pub fn is_match(&self, id: &str, password: &str) -> (b: bool)
        ensures
            b == self.matches(id@, password@),
    {
        match (&self.id, &self.password) {
            (Some(a), Some(b)) => same_text(a.as_str(), id) && same_text(b.as_str(), password),
            _ => false,
        }
    }

    /// Drains the credentials: an authenticated state hands out its pair and
    /// becomes empty, any other state is left as it is.
    pub fn take_credentials(&mut self) -> (taken: Option<(String, String)>)
        ensures
            old(self).authenticated() ==> taken == Some((old(self).id->0, old(self).password->0))
                && final(self).id is None && final(self).password is None,
            !old(self).authenticated() ==> taken is None && *final(self) == *old(self),
    {
        if self.is_authenticated() {
            let id = self.id.take().unwrap();
            let password = self.password.take().unwrap();
            Some((id, password))
        } else {
            None
        }
    }
}

/// Whether two string slices hold the same characters.
pub fn same_text(a: &str, b: &str) -> (same: bool)
    ensures
        same == (a@ == b@),
{
    let left = a.to_owned();
    let right = b.to_owned();
    left == right
}

} // verus!
