use vstd::prelude::*;
use vstd::string::StringExecFns;

verus! {

/// Who spoke a turn of the conversation.
#[derive(Clone, Copy, Debug, PartialEq, Eq, Structural)]
pub enum Role {
    User,
    Assistant,
}

impl Role {
    /// The tag that names the role on the wire and at the UI boundary.
    pub open spec fn wire_name(self) -> Seq<char> {
        match self {
            Role::User => "user"@,
            Role::Assistant => "assistant"@,
        }
    }

    pub fn as_str(&self) -> (r: String)
        ensures
            r@ == self.wire_name(),
    {
        match self {
            Role::User => String::from_str("user"),
            Role::Assistant => String::from_str("assistant"),
        }
    }

    /// Reads a role back from its tag; any other text names no role.
    pub fn from_name(name: &str) -> (r: Option<Role>)
        ensures
            r matches Some(role) ==> role.wire_name() == name@,
            r is None ==> name@ != Role::User.wire_name() && name@ != Role::Assistant.wire_name(),
    {
        let given = String::from_str(name);
        if given == String::from_str("user") {
            Some(Role::User)
        } else if given == String::from_str("assistant") {
            Some(Role::Assistant)
        } else {
            None
        }
    }
}

/// What a message is, as a mathematical value.
pub struct Turn {
    pub role: Role,
    pub content: Seq<char>,
}

impl Turn {
    pub open spec fn user(content: Seq<char>) -> Turn {
        Turn { role: Role::User, content }
    }

    pub open spec fn assistant(content: Seq<char>) -> Turn {
        Turn { role: Role::Assistant, content }
    }
}

/// One turn of the conversation. Its fields are fixed once it is made.
#[derive(Debug)]
pub struct Message {
    role: Role,
    content: String,
}

impl View for Message {
    type V = Turn;

    closed spec fn view(&self) -> Turn {
        Turn { role: self.role, content: self.content@ }
    }
}

impl Message {
    pub fn new(role: Role, content: String) -> (r: Message)
        ensures
            r@ == (Turn { role, content: content@ }),
    {
        Message { role, content }
    }

    pub fn user(content: String) -> (r: Message)
        ensures
            r@ == Turn::user(content@),
    {
        Message { role: Role::User, content }
    }

    pub fn assistant(content: String) -> (r: Message)
        ensures
            r@ == Turn::assistant(content@),
    {
        Message { role: Role::Assistant, content }
    }

    pub fn role(&self) -> (r: Role)
        ensures
            r == self@.role,
    {
        self.role
    }

    pub fn content(&self) -> (r: &String)
        ensures
            r@ == self@.content,
    {
        &self.content
    }

    /// An independent copy holding the same turn.
    pub fn duplicate(&self) -> (r: Message)
        ensures
            r@ == self@,
    {
        Message { role: self.role, content: self.content.clone() }
    }
}

} // verus!
