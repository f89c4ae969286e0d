//! The configuration of one relay endpoint.

use vstd::prelude::*;

verus! {

/// One configured relay endpoint. It is identified by its `url`; `read` and
/// `write` say whether the endpoint is meant to push events and to accept
/// published messages.
#[derive(Debug, PartialEq, Eq)]
pub struct UserRelay {
    pub url: String,
    pub read: bool,
    pub write: bool,
}

/// The mathematical value of a [`UserRelay`].
pub struct UserRelayView {
    pub url: Seq<char>,
    pub read: bool,
    pub write: bool,
}

impl View for UserRelay {
    type V = UserRelayView;

    open spec fn view(&self) -> UserRelayView {
        UserRelayView { url: self.url@, read: self.read, write: self.write }
    }
}

impl Clone for UserRelay {
    fn clone(&self) -> (copy: Self)
        ensures
            copy@ == self@,
    {
        UserRelay { url: self.url.clone(), read: self.read, write: self.write }
    }
}

} // verus!
