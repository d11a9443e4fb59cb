use vstd::prelude::*;

verus! {

/// Who produced a turn. `Summary` is the synthetic role of compacted history.
#[derive(Debug, Clone, Copy, PartialEq, Eq, Structural)]
pub enum Role {
    System,
    User,
    Assistant,
    Summary,
}

/// The wire name of each role.
pub open spec fn role_name(r: Role) -> Seq<char> {
    match r {
        Role::System => "system"@,
        Role::User => "user"@,
        Role::Assistant => "assistant"@,
        Role::Summary => "summary"@,
    }
}

/// The role whose wire name is `s`, if any.
pub open spec fn role_of_name(s: Seq<char>) -> Option<Role> {
    if s == "system"@ {
        Some(Role::System)
    } else if s == "user"@ {
        Some(Role::User)
    } else if s == "assistant"@ {
        Some(Role::Assistant)
    } else if s == "summary"@ {
        Some(Role::Summary)
    } else {
        None
    }
}

/// Character-wise equality of two strings.
pub fn str_equals(a: &str, b: &str) -> (r: bool)
    ensures
        r == (a@ == b@),
{
    let n = a.unicode_len();
    if n != b.unicode_len() {
        return false;
    }
    let mut i: usize = 0;
    while i < n
        invariant
            n == a@.len(),
            n == b@.len(),
            i <= n,
            forall|j: int| 0 <= j < i ==> a@[j] == b@[j],
        decreases n - i,
    {
        if a.get_char(i) != b.get_char(i) {
            return false;
        }
        i = i + 1;
    }
    assert(a@ =~= b@);
    true
}

impl Role {
    /// The wire name of the role.
    pub fn name(&self) -> (r: &'static str)
        ensures
            r@ == role_name(*self),
    {
        match self {
            Role::System => "system",
            Role::User => "user",
            Role::Assistant => "assistant",
            Role::Summary => "summary",
        }
    }

    /// The role whose wire name is `name`, if any.
    pub fn from_name(name: &str) -> (r: Option<Role>)
        ensures
            r == role_of_name(name@),
    {
        if str_equals(name, "system") {
            Some(Role::System)
        } else if str_equals(name, "user") {
            Some(Role::User)
        } else if str_equals(name, "assistant") {
            Some(Role::Assistant)
        } else if str_equals(name, "summary") {
            Some(Role::Summary)
        } else {
            None
        }
    }
}

/// One role-tagged message of a session, stamped with its write time
/// in milliseconds since the Unix epoch.
#[derive(Debug, Clone)]
pub struct ChatMessage {
    pub session_id: String,
    pub role: Role,
    pub content: String,
    pub timestamp: i64,
}

/// The mathematical value of a turn.
pub struct TurnView {
    pub session_id: Seq<char>,
    pub role: Role,
    pub content: Seq<char>,
    pub timestamp: i64,
}

impl View for ChatMessage {
    type V = TurnView;

    open spec fn view(&self) -> TurnView {
        TurnView {
            session_id: self.session_id@,
            role: self.role,
            content: self.content@,
            timestamp: self.timestamp,
        }
    }
}

/// The values of a sequence of turns.
pub open spec fn turn_views(s: Seq<ChatMessage>) -> Seq<TurnView> {
    s.map_values(|m: ChatMessage| m@)
}

impl ChatMessage {
    /// A turn made of the given parts.
    pub fn new(session_id: String, role: Role, content: String, timestamp: i64) -> (r: ChatMessage)
        ensures
            r.session_id == session_id,
            r.role == role,
            r.content == content,
            r.timestamp == timestamp,
    {
        ChatMessage { session_id, role, content, timestamp }
    }

    /// A copy of the turn with the same value.
    pub fn duplicate(&self) -> (r: ChatMessage)
        ensures
            r@ == self@,
    {
        ChatMessage {
            session_id: self.session_id.clone(),
            role: self.role,
            content: self.content.clone(),
            timestamp: self.timestamp,
        }
    }
}

/// Copies of all turns of `v`, in the same order.
pub fn duplicate_all(v: &Vec<ChatMessage>) -> (r: Vec<ChatMessage>)
    ensures
        turn_views(r@) == turn_views(v@),
{
    let mut r: Vec<ChatMessage> = Vec::new();
    let mut i: usize = 0;
    while i < v.len()
        invariant
            i <= v@.len(),
            r@.len() == i,
            forall|j: int| 0 <= j < i ==> #[trigger] r@[j]@ == v@[j]@,
        decreases v@.len() - i,
    {
        r.push(v[i].duplicate());
        i = i + 1;
    }
    assert(turn_views(r@) =~= turn_views(v@));
    r
}

} // verus!
