//! Events.

use crate::ids::DocId;
use crate::text::text_view;
use vstd::string::StringExecFns;
use crate::text::{lowercase_of, str_eq, to_lowercase};
use vstd::prelude::*;

verus! {

/// What kind of event it is.
#[derive(Clone, Copy, Debug, PartialEq, Eq, Structural, Hash)]
pub enum EventType {
    Workshop,
    Competition,
    Hackathon,
    Meetup,
    Other,
}

/// Where an event stands.
#[derive(Clone, Copy, Debug, PartialEq, Eq, Structural, Hash)]
pub enum EventStatus {
    Upcoming,
    Ongoing,
    Completed,
}

/// Someone who speaks at an event.
#[derive(Debug, PartialEq, Eq)]
pub struct EventSpeaker {
    pub name: String,
    pub role: String,
    pub avatar: Option<String>,
}

/// A speaker as a request gives it.
#[derive(Debug, PartialEq, Eq)]
pub struct SpeakerInput {
    pub name: String,
    pub role: String,
    pub avatar: Option<String>,
}

/// The body of a request that announces an event.
#[derive(Debug, PartialEq, Eq)]
pub struct CreateEventRequest {
    pub title: String,
    pub date: String,
    pub time: String,
    pub end_date: Option<String>,
    pub location: String,
    /// "Workshop", "Competition", "Hackathon", "Meetup" or "Other".
    pub event_type: String,
    /// "Upcoming", "Ongoing" or "Completed".
    pub status: String,
    pub description: String,
    pub image: Option<String>,
    pub featured: Option<bool>,
    pub register_link: Option<String>,
    pub recap_link: Option<String>,
    pub speakers: Option<Vec<SpeakerInput>>,
}

/// The body of a request in which a member proposes an event.
#[derive(Debug, PartialEq, Eq)]
pub struct ProposeEventRequest {
    pub title: String,
    pub event_type: String,
    pub description: String,
    pub preferred_date: Option<String>,
}

/// An event as the store holds it.
#[derive(Debug, PartialEq, Eq)]
pub struct Event {
    /// Absent until the store has assigned one.
    pub id: Option<DocId>,
    pub title: String,
    pub date: String,
    pub time: String,
    pub end_date: Option<String>,
    pub location: String,
    pub event_type: EventType,
    pub status: EventStatus,
    pub description: String,
    pub image: Option<String>,
    pub featured: bool,
    pub register_link: Option<String>,
    pub recap_link: Option<String>,
    pub speakers: Option<Vec<EventSpeaker>>,
    /// The administrator who announced the event.
    pub created_by: DocId,
    pub created_at: String,
    pub updated_at: String,
}

/// The kind of event that a lower-case word names; `Other` for every word
/// that names none.
pub open spec fn event_type_named(word: Seq<char>) -> EventType {
    if word == "workshop"@ {
        EventType::Workshop
    } else if word == "competition"@ {
        EventType::Competition
    } else if word == "hackathon"@ {
        EventType::Hackathon
    } else if word == "meetup"@ {
        EventType::Meetup
    } else {
        EventType::Other
    }
}

/// Reads the kind of an event, whatever the case it is written in.
pub fn parse_event_type(s: &str) -> (r: EventType)
    ensures
        r == event_type_named(lowercase_of(s@)),
{
    let lower = to_lowercase(s);
    event_type_for(lower.as_str())
}

/// The kind of event that a lower-case word names.
pub fn event_type_for(word: &str) -> (r: EventType)
    ensures
        r == event_type_named(word@),
{
    if str_eq(word, "workshop") {
        EventType::Workshop
    } else if str_eq(word, "competition") {
        EventType::Competition
    } else if str_eq(word, "hackathon") {
        EventType::Hackathon
    } else if str_eq(word, "meetup") {
        EventType::Meetup
    } else {
        EventType::Other
    }
}

/// The status that a lower-case word names; `Upcoming` for every word that
/// names none.
pub open spec fn event_status_named(word: Seq<char>) -> EventStatus {
    if word == "ongoing"@ {
        EventStatus::Ongoing
    } else if word == "completed"@ {
        EventStatus::Completed
    } else {
        EventStatus::Upcoming
    }
}

/// Reads the status of an event, whatever the case it is written in.
pub fn parse_event_status(s: &str) -> (r: EventStatus)
    ensures
        r == event_status_named(lowercase_of(s@)),
{
    let lower = to_lowercase(s);
    event_status_for(lower.as_str())
}

/// The status that a lower-case word names.
pub fn event_status_for(word: &str) -> (r: EventStatus)
    ensures
        r == event_status_named(word@),
{
    if str_eq(word, "ongoing") {
        EventStatus::Ongoing
    } else if str_eq(word, "completed") {
        EventStatus::Completed
    } else {
        EventStatus::Upcoming
    }
}

/// The mathematical content of a speaker, as given or as stored.
pub struct SpeakerView {
    pub name: Seq<char>,
    pub role: Seq<char>,
    pub avatar: Option<Seq<char>>,
}

impl View for SpeakerInput {
    type V = SpeakerView;

    open spec fn view(&self) -> SpeakerView {
        SpeakerView {
            name: self.name@,
            role: self.role@,
            avatar: match self.avatar {
                Some(a) => Some(a@),
                None => None,
            },
        }
    }
}

impl View for EventSpeaker {
    type V = SpeakerView;

    open spec fn view(&self) -> SpeakerView {
        SpeakerView {
            name: self.name@,
            role: self.role@,
            avatar: match self.avatar {
                Some(a) => Some(a@),
                None => None,
            },
        }
    }
}

/// The views of a list of speakers that may be absent, as given.
pub open spec fn inputs_view(speakers: Option<Vec<SpeakerInput>>) -> Option<Seq<SpeakerView>> {
    match speakers {
        Some(list) => Some(list@.map_values(|s: SpeakerInput| s@)),
        None => None,
    }
}

/// The views of a list of speakers that may be absent, as stored.
pub open spec fn speakers_view(speakers: Option<Vec<EventSpeaker>>) -> Option<Seq<SpeakerView>> {
    match speakers {
        Some(list) => Some(list@.map_values(|s: EventSpeaker| s@)),
        None => None,
    }
}

/// Takes the speakers of a request as they are stored: the same speakers in
/// the same order, and no list where none was given.
pub fn convert_speakers(speakers: Option<Vec<SpeakerInput>>) -> (r: Option<Vec<EventSpeaker>>)
    ensures
        speakers_view(r) == inputs_view(speakers),
{
    match speakers {
        Some(list) => {
            let ghost given = list@.map_values(|s: SpeakerInput| s@);
            let mut list = list;
            let mut out: Vec<EventSpeaker> = Vec::new();
            let ghost total = list@.len();
            while list.len() > 0
                invariant
                    out@.len() + list@.len() == total,
                    given.len() == total,
                    out@.map_values(|s: EventSpeaker| s@) + list@.map_values(|s: SpeakerInput| s@)
                        =~= given,
                decreases list@.len(),
            {
                let ghost before_out = out@;
                let ghost before_list = list@;
                let s = list.remove(0);
                out.push(EventSpeaker { name: s.name, role: s.role, avatar: s.avatar });
                proof {
                    assert(out@.map_values(|s: EventSpeaker| s@) =~= before_out.map_values(
                        |s: EventSpeaker| s@,
                    ).push(before_list[0]@));
                    assert(list@.map_values(|s: SpeakerInput| s@) =~= before_list.map_values(
                        |s: SpeakerInput| s@,
                    ).drop_first());
                }
            }
            assert(out@.map_values(|s: EventSpeaker| s@) =~= given);
            Some(out)
        },
        None => None,
    }
}

/// Makes the event that a request to announce one describes, for the
/// administrator who announces it. An event is featured only where the
/// request says so.
pub fn new_event(payload: CreateEventRequest, admin_id: DocId, now: String) -> (r: Event)
    ensures
        r.id is None,
        r.title@ == payload.title@,
        r.date@ == payload.date@,
        r.time@ == payload.time@,
        text_view(r.end_date) == text_view(payload.end_date),
        r.location@ == payload.location@,
        r.event_type == event_type_named(lowercase_of(payload.event_type@)),
        r.status == event_status_named(lowercase_of(payload.status@)),
        r.description@ == payload.description@,
        text_view(r.image) == text_view(payload.image),
        r.featured == (payload.featured == Some(true)),
        text_view(r.register_link) == text_view(payload.register_link),
        text_view(r.recap_link) == text_view(payload.recap_link),
        speakers_view(r.speakers) == inputs_view(payload.speakers),
        r.created_by == admin_id,
        r.created_at@ == now@,
        r.updated_at@ == now@,
{
    let event_type = parse_event_type(payload.event_type.as_str());
    let status = parse_event_status(payload.status.as_str());
    let featured = match payload.featured {
        Some(flag) => flag,
        None => false,
    };
    Event {
        id: None,
        title: payload.title,
        date: payload.date,
        time: payload.time,
        end_date: payload.end_date,
        location: payload.location,
        event_type,
        status,
        description: payload.description,
        image: payload.image,
        featured,
        register_link: payload.register_link,
        recap_link: payload.recap_link,
        speakers: convert_speakers(payload.speakers),
        created_by: admin_id,
        created_at: now.clone(),
        updated_at: now,
    }
}

/// The subject of the message that carries a proposal to the administrators.
pub open spec fn proposal_subject_of(title: Seq<char>) -> Seq<char> {
    "[Event Proposal] "@ + title
}

/// The text of the message that carries a proposal to the administrators.
pub open spec fn proposal_content_of(
    username: Seq<char>,
    event_type: Seq<char>,
    description: Seq<char>,
    preferred_date: Option<Seq<char>>,
) -> Seq<char> {
    "Event Proposal from "@ + username + "\n\nType: "@ + event_type + "\n\n"@ + description
        + match preferred_date {
        Some(date) => "\nPreferred Date: "@ + date,
        None => Seq::empty(),
    }
}

/// The subject of the message that carries a proposal to the administrators.
pub fn proposal_subject(payload: &ProposeEventRequest) -> (r: String)
    ensures
        r@ == proposal_subject_of(payload.title@),
{
    String::from_str("[Event Proposal] ").concat(payload.title.as_str())
}

/// The text of the message that carries a proposal to the administrators:
/// who proposes, what kind of event, the description, and the preferred date
/// where one is given.
pub fn proposal_content(username: &str, payload: &ProposeEventRequest) -> (r: String)
    ensures
        r@ == proposal_content_of(
            username@,
            payload.event_type@,
            payload.description@,
            text_view(payload.preferred_date),
        ),
{
    let head = String::from_str("Event Proposal from ").concat(username).concat(
        "\n\nType: ",
    ).concat(payload.event_type.as_str()).concat("\n\n").concat(payload.description.as_str());
    match &payload.preferred_date {
        Some(date) => {
            let tail = String::from_str("\nPreferred Date: ").concat(date.as_str());
            let r = head.concat(tail.as_str());
            assert(r@ =~= proposal_content_of(
                username@,
                payload.event_type@,
                payload.description@,
                text_view(payload.preferred_date),
            ));
            r
        },
        None => {
            assert(head@ =~= proposal_content_of(
                username@,
                payload.event_type@,
                payload.description@,
                text_view(payload.preferred_date),
            ));
            head
        },
    }
}

} // verus!
