//! Chat data and the rules of the chat room.

use vstd::prelude::*;

pub mod frame;
pub mod ids;
pub mod json;
pub mod message;
pub mod route;
pub mod server;
pub mod session;
pub mod text;

verus! {

/// A display name chosen by a chat user. A name is never empty.
#[derive(Debug)]
pub struct Name(String);

impl View for Name {
    type V = Seq<char>;

    closed spec fn view(&self) -> Seq<char> {
        self.0@
    }
}

impl Name {
    #[verifier::type_invariant]
    spec fn not_empty(self) -> bool {
        self.0@.len() > 0
    }

    /// Makes a name of `name`; there is none for the empty string.
    pub fn new(name: &str) -> (res: Option<Name>)
        ensures
            res is Some <==> name@.len() > 0,
            res matches Some(n) ==> n@ == name@,
    {
        if name.is_empty() {
            None
        } else {
            Some(Name(name.to_owned()))
        }
    }

    /// The text of the name.
    pub fn value(&self) -> (res: &str)
        ensures
            res@ == self@,
            res@.len() > 0,
    {
        proof {
            use_type_invariant(self);
        }
        self.0.as_str()
    }
}

impl Clone for Name {
    fn clone(&self) -> (res: Self)
        ensures
            res == *self,
    {
        proof {
            use_type_invariant(self);
        }
        Name(self.0.clone())
    }
}

} // verus!
