//! Messages.

use crate::ids::DocId;
use crate::models::user::Role;
use crate::text::str_eq;
use vstd::prelude::*;

verus! {

/// To whom a message goes.
#[derive(Clone, Copy, Debug, PartialEq, Eq, Structural, Hash)]
pub enum MessageType {
    /// To the members that the sender names.
    Individual,
    /// To all members of a project.
    ProjectTeam,
    /// To all members.
    Broadcast,
}

/// The body of a request that sends a message.
#[derive(Debug, PartialEq, Eq)]
pub struct SendMessageRequest {
    /// The recipients of an individual message.
    pub recipient_ids: Option<Vec<String>>,
    /// The project of a message to a project's team.
    pub project_id: Option<String>,
    pub subject: String,
    pub content: String,
    /// "individual", "project_team" or "broadcast".
    pub message_type: String,
}

/// Why a message is not sent.
#[derive(Clone, Copy, Debug, PartialEq, Eq, Structural, Hash)]
pub enum MessageRefusal {
    /// Only administrators write to a project's team or to everyone.
    AdminsOnly,
    /// The kind of message is none of the three.
    InvalidType,
}

impl MessageRefusal {
    /// The sentence that tells the sender.
    pub open spec fn text_of(self) -> Seq<char> {
        match self {
            MessageRefusal::AdminsOnly => "Only admins can send project team or broadcast messages"@,
            MessageRefusal::InvalidType => "Invalid message type"@,
        }
    }

    /// The sentence that tells the sender.
    pub fn text(&self) -> (r: &'static str)
        ensures
            r@ == self.text_of(),
    {
        match self {
            MessageRefusal::AdminsOnly => "Only admins can send project team or broadcast messages",
            MessageRefusal::InvalidType => "Invalid message type",
        }
    }
}

/// The kind of message that a word names.
pub open spec fn message_type_named(word: Seq<char>) -> Option<MessageType> {
    if word == "individual"@ {
        Some(MessageType::Individual)
    } else if word == "project_team"@ {
        Some(MessageType::ProjectTeam)
    } else if word == "broadcast"@ {
        Some(MessageType::Broadcast)
    } else {
        None
    }
}

/// Whether a sender with a role may send a message of a kind: everyone may
/// write to members they name, administrators alone to a team or to all.
pub open spec fn delivery(word: Seq<char>, role: Role) -> Result<MessageType, MessageRefusal> {
    match message_type_named(word) {
        None => Err(MessageRefusal::InvalidType),
        Some(MessageType::Individual) => Ok(MessageType::Individual),
        Some(kind) => if role == Role::Admin {
            Ok(kind)
        } else {
            Err(MessageRefusal::AdminsOnly)
        },
    }
}

/// Decides whether a sender may send the message of a request, and as what.
pub fn message_delivery(payload: &SendMessageRequest, role: Role) -> (r: Result<
    MessageType,
    MessageRefusal,
>)
    ensures
        r == delivery(payload.message_type@, role),
{
    let word = payload.message_type.as_str();
    let kind = if str_eq(word, "individual") {
        MessageType::Individual
    } else if str_eq(word, "project_team") {
        MessageType::ProjectTeam
    } else if str_eq(word, "broadcast") {
        MessageType::Broadcast
    } else {
        return Err(MessageRefusal::InvalidType);
    };
    match kind {
        MessageType::Individual => Ok(kind),
        _ => if role.is_admin() {
            Ok(kind)
        } else {
            Err(MessageRefusal::AdminsOnly)
        },
    }
}

/// The recipients among the identifiers of a request: those that read as
/// identifiers, in order.
pub open spec fn readable_ids(texts: Seq<Seq<char>>) -> Seq<DocId>
    decreases texts.len(),
{
    if texts.len() == 0 {
        Seq::empty()
    } else {
        let before = readable_ids(texts.drop_last());
        match DocId::parsed(texts.last()) {
            Some(id) => before.push(id),
            None => before,
        }
    }
}

/// Reads the recipients of an individual message. What does not read as an
/// identifier is passed over.
pub fn individual_recipients(texts: &Vec<String>) -> (r: Vec<DocId>)
    ensures
        r@ == readable_ids(texts@.map_values(|t: String| t@)),
{
    let ghost all = texts@.map_values(|t: String| t@);
    let mut out: Vec<DocId> = Vec::new();
    let mut i: usize = 0;
    assert(all.take(0) =~= Seq::empty());
    while i < texts.len()
        invariant
            i <= texts@.len(),
            all == texts@.map_values(|t: String| t@),
            out@ == readable_ids(all.take(i as int)),
        decreases texts@.len() - i,
    {
        proof {
            assert(all.take(i + 1).drop_last() =~= all.take(i as int));
            assert(all.take(i + 1).last() == texts@[i as int]@);
        }
        match DocId::parse_str(texts[i].as_str()) {
            Some(id) => {
                out.push(id);
            },
            None => {},
        }
        i += 1;
    }
    assert(all.take(texts@.len() as int) =~= all);
    out
}

} // verus!
