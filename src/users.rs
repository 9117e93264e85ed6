use vstd::prelude::*;

verus! {

/// The message that a user sends by default.
pub open spec fn user_message(name: Seq<char>, recipient: Seq<char>) -> Seq<char> {
    "User ["@ + name + "] send a message to "@ + recipient
}

/// The message that an administrator sends.
pub open spec fn admin_message(name: Seq<char>, recipient: Seq<char>) -> Seq<char> {
    "Admin ~["@ + name + "]~ send a message to "@ + recipient
}

/// A named participant that can address a message to another.
pub trait User: Sized {
    /// The name of the user.
    spec fn name_view(&self) -> Seq<char>;

    /// The message text that this user sends to `recipient`.
    spec fn message_view(&self, recipient: Seq<char>) -> Seq<char>;

    fn new(name: &'static str) -> (r: Self)
        ensures
            r.name_view() == name@,
    ;

    fn get_name(&self) -> (r: &'static str)
        ensures
            r@ == self.name_view(),
    ;

    fn message_to(&self, recipient: &str) -> (r: String)
        ensures
            r@ == self.message_view(recipient@),
    ;
}

/// A user with administrative rights.
#[derive(Debug)]
pub struct Admin {
    pub name: &'static str,
}

/// An ordinary user.
#[derive(Debug)]
pub struct Regular {
    pub name: &'static str,
}

impl User for Admin {
    open spec fn name_view(&self) -> Seq<char> {
        self.name@
    }

    open spec fn message_view(&self, recipient: Seq<char>) -> Seq<char> {
        admin_message(self.name@, recipient)
    }

    fn new(name: &'static str) -> (r: Admin) {
        Admin { name }
    }

    fn get_name(&self) -> (r: &'static str) {
        self.name
    }

    fn message_to(&self, recipient: &str) -> (r: String) {
        let mut s = String::from_str("Admin ~[");
        s.append(self.get_name());
        s.append("]~ send a message to ");
        s.append(recipient);
        s
    }
}

impl User for Regular {
    open spec fn name_view(&self) -> Seq<char> {
        self.name@
    }

    open spec fn message_view(&self, recipient: Seq<char>) -> Seq<char> {
        user_message(self.name@, recipient)
    }

    fn new(name: &'static str) -> (r: Regular) {
        Regular { name }
    }

    fn get_name(&self) -> (r: &'static str) {
        self.name
    }

    fn message_to(&self, recipient: &str) -> (r: String) {
        let mut s = String::from_str("User [");
        s.append(self.get_name());
        s.append("] send a message to ");
        s.append(recipient);
        s
    }
}

} // verus!
