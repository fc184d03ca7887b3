use vstd::prelude::*;

verus! {

/// Who spoke a turn.
#[derive(Clone, Copy, Debug, PartialEq, Eq, Structural)]
pub enum Role {
    User,
    Assistant,
}

/// What a stored turn is, as plain mathematical values.
pub struct TurnModel {
    pub user_id: Seq<char>,
    pub timestamp: u64,
    pub role: Role,
    pub content: Seq<char>,
}

/// One immutable message of a conversation. `timestamp` is the turn's creation
/// time in microseconds since the Unix epoch, the ordering key within a user.
#[derive(Clone, Debug)]
pub struct Turn {
    pub user_id: String,
    pub timestamp: u64,
    pub role: Role,
    pub content: String,
}

impl View for Turn {
    type V = TurnModel;

    open spec fn view(&self) -> TurnModel {
        TurnModel {
            user_id: self.user_id@,
            timestamp: self.timestamp,
            role: self.role,
            content: self.content@,
        }
    }
}

/// One entry of the context handed to the completion provider.
#[derive(Clone, Debug)]
pub struct Message {
    pub role: Role,
    pub content: String,
}

impl View for Message {
    type V = (Role, Seq<char>);

    open spec fn view(&self) -> (Role, Seq<char>) {
        (self.role, self.content@)
    }
}

/// The name under which a role is stored and sent to the provider.
pub open spec fn role_text(role: Role) -> Seq<char> {
    match role {
        Role::User => seq!['u', 's', 'e', 'r'],
        Role::Assistant => seq!['a', 's', 's', 'i', 's', 't', 'a', 'n', 't'],
    }
}

/// The role a stored record names. A record without a role attribute, or
/// naming anything but user or assistant, is malformed.
pub open spec fn role_from_text(text: Option<Seq<char>>) -> Option<Role> {
    match text {
        None => None,
        Some(t) => if t == role_text(Role::User) {
            Some(Role::User)
        } else if t == role_text(Role::Assistant) {
            Some(Role::Assistant)
        } else {
            None
        },
    }
}

impl Role {
    pub fn name(&self) -> (r: String)
        ensures
            r@ == role_text(*self),
    {
        match self {
            Role::User => {
                proof { reveal_strlit("user"); }
                String::from_str("user")
            },
            Role::Assistant => {
                proof { reveal_strlit("assistant"); }
                String::from_str("assistant")
            },
        }
    }

    /// Reads the role attribute of a stored record.
    pub fn parse(text: &Option<String>) -> (r: Option<Role>)
        ensures
            r == role_from_text(
                match text {
                    Some(t) => Some(t@),
                    None => None,
                },
            ),
    {
        match text {
            None => None,
            Some(t) => {
                let user = Role::User.name();
                let assistant = Role::Assistant.name();
                if *t == user {
                    Some(Role::User)
                } else if *t == assistant {
                    Some(Role::Assistant)
                } else {
                    None
                }
            },
        }
    }
}

/// The context entry of a turn: its role and content, nothing else.
pub open spec fn message_of(t: TurnModel) -> (Role, Seq<char>) {
    (t.role, t.content)
}

/// The context sent to the provider for a history, in the history's order.
pub open spec fn context_of(turns: Seq<TurnModel>) -> Seq<(Role, Seq<char>)> {
    turns.map_values(|t: TurnModel| message_of(t))
}

/// The models of a sequence of turns, in the same order.
pub open spec fn models(v: Seq<Turn>) -> Seq<TurnModel> {
    v.map_values(|t: Turn| t@)
}

impl Turn {
    pub fn new(user_id: String, timestamp: u64, role: Role, content: String) -> (r: Turn)
        ensures
            r@ == (TurnModel { user_id: user_id@, timestamp, role, content: content@ }),
    {
        Turn { user_id, timestamp, role, content }
    }

    /// A copy of the turn that keeps every field.
    pub fn duplicate(&self) -> (r: Turn)
        ensures
            r@ == self@,
    {
        Turn {
            user_id: self.user_id.clone(),
            timestamp: self.timestamp,
            role: self.role,
            content: self.content.clone(),
        }
    }

    pub fn message(&self) -> (r: Message)
        ensures
            r@ == message_of(self@),
    {
        Message { role: self.role, content: self.content.clone() }
    }
}

/// Projects a history onto the context of a completion request, keeping its
/// order.
pub fn project_context(turns: &Vec<Turn>) -> (r: Vec<Message>)
    ensures
        r@.map_values(|m: Message| m@) == context_of(turns@.map_values(|t: Turn| t@)),
{
    let mut r: Vec<Message> = Vec::new();
    let mut i: usize = 0;
    while i < turns.len()
        invariant
            i <= turns@.len(),
            r@.len() == i,
            forall|k: int| 0 <= k < i ==> #[trigger] r@[k]@ == message_of(turns@[k]@),
        decreases turns@.len() - i,
    {
        r.push(turns[i].message());
        i = i + 1;
    }
    assert(r@.map_values(|m: Message| m@) =~= context_of(turns@.map_values(|t: Turn| t@)));
    r
}

} // verus!
