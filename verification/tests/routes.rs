use iris_server::ids::DocId;
use iris_server::models::project::ProjectStatus;
use iris_server::models::project_join_request::JoinRequestStatus;
use iris_server::models::user::Role;
use iris_server::routes::blogs::{join_words, slugify};
use iris_server::routes::events::{
    convert_speakers, event_status_for, event_type_for, parse_event_status, parse_event_type,
    EventSpeaker, EventStatus, EventType, SpeakerInput,
};
use iris_server::routes::messages::{
    individual_recipients, message_delivery, MessageRefusal, MessageType, SendMessageRequest,
};
use iris_server::routes::projects::{new_project, stored_status, CreateProjectRequest};
use iris_server::routes::users::{new_user, requested_role, CreateUserRequest, UpdateRoleRequest};

#[test]
fn slug_of_a_plain_title() {
    assert_eq!(slugify("Hello World"), "hello-world");
}

#[test]
fn slug_drops_punctuation() {
    assert_eq!(slugify("Hello, World!"), "hello-world");
    assert_eq!(slugify("What's new in v2.0?"), "what-s-new-in-v2-0");
    assert_eq!(slugify("a_b-c"), "a-b-c");
}

#[test]
fn slug_collapses_space() {
    assert_eq!(slugify("  many   spaces\there  "), "many-spaces-here");
    assert_eq!(slugify("line\nbreak"), "line-break");
}

#[test]
fn slug_of_nothing_is_empty() {
    assert_eq!(slugify(""), "");
    assert_eq!(slugify("   "), "");
    assert_eq!(slugify("!!!"), "");
}

#[test]
fn slug_keeps_letters_of_other_scripts() {
    assert_eq!(slugify("Über Straße 9"), "über-straße-9");
    assert_eq!(slugify("ÉTÉ"), "été");
}

#[test]
fn words_are_joined_by_single_hyphens() {
    let marks = vec![None, Some('a'), Some('b'), None, None, Some('c'), None];
    assert_eq!(join_words(&marks), "ab-c");
    assert_eq!(join_words(&Vec::new()), "");
    assert_eq!(join_words(&vec![None, None]), "");
    assert_eq!(join_words(&vec![Some('x')]), "x");
    assert_eq!(join_words(&vec![Some('-'), None, Some('-')]), "---");
}

#[test]
fn event_types_in_any_case() {
    assert_eq!(parse_event_type("Workshop"), EventType::Workshop);
    assert_eq!(parse_event_type("workshop"), EventType::Workshop);
    assert_eq!(parse_event_type("COMPETITION"), EventType::Competition);
    assert_eq!(parse_event_type("HackaThon"), EventType::Hackathon);
    assert_eq!(parse_event_type("meetup"), EventType::Meetup);
    assert_eq!(parse_event_type("Other"), EventType::Other);
    assert_eq!(parse_event_type("party"), EventType::Other);
    assert_eq!(parse_event_type(""), EventType::Other);
    assert_eq!(parse_event_type(" workshop"), EventType::Other);
}

#[test]
fn event_type_words_are_exact() {
    assert_eq!(event_type_for("workshop"), EventType::Workshop);
    assert_eq!(event_type_for("Workshop"), EventType::Other);
    assert_eq!(event_type_for("competition"), EventType::Competition);
    assert_eq!(event_type_for("hackathon"), EventType::Hackathon);
    assert_eq!(event_type_for("meetup"), EventType::Meetup);
}

#[test]
fn event_status_in_any_case() {
    assert_eq!(parse_event_status("Upcoming"), EventStatus::Upcoming);
    assert_eq!(parse_event_status("ONGOING"), EventStatus::Ongoing);
    assert_eq!(parse_event_status("Completed"), EventStatus::Completed);
    assert_eq!(parse_event_status("cancelled"), EventStatus::Upcoming);
    assert_eq!(parse_event_status(""), EventStatus::Upcoming);
}

#[test]
fn event_status_words_are_exact() {
    assert_eq!(event_status_for("ongoing"), EventStatus::Ongoing);
    assert_eq!(event_status_for("completed"), EventStatus::Completed);
    assert_eq!(event_status_for("upcoming"), EventStatus::Upcoming);
    assert_eq!(event_status_for("Ongoing"), EventStatus::Upcoming);
}

#[test]
fn speakers_are_taken_over_in_order() {
    let given = vec![
        SpeakerInput { name: "Ada".to_string(), role: "Keynote".to_string(), avatar: None },
        SpeakerInput {
            name: "Bob".to_string(),
            role: "Host".to_string(),
            avatar: Some("https://example.org/bob.png".to_string()),
        },
    ];
    assert_eq!(
        convert_speakers(Some(given)),
        Some(vec![
            EventSpeaker { name: "Ada".to_string(), role: "Keynote".to_string(), avatar: None },
            EventSpeaker {
                name: "Bob".to_string(),
                role: "Host".to_string(),
                avatar: Some("https://example.org/bob.png".to_string()),
            },
        ])
    );
}

#[test]
fn no_speakers_stay_none_and_empty_stays_empty() {
    assert_eq!(convert_speakers(None), None);
    assert_eq!(convert_speakers(Some(Vec::new())), Some(Vec::new()));
}

fn message(kind: &str) -> SendMessageRequest {
    SendMessageRequest {
        recipient_ids: None,
        project_id: None,
        subject: "s".to_string(),
        content: "c".to_string(),
        message_type: kind.to_string(),
    }
}

#[test]
fn anyone_sends_individual_messages() {
    assert_eq!(message_delivery(&message("individual"), Role::Member), Ok(MessageType::Individual));
    assert_eq!(message_delivery(&message("individual"), Role::Admin), Ok(MessageType::Individual));
}

#[test]
fn only_admins_send_to_teams_and_all() {
    assert_eq!(message_delivery(&message("project_team"), Role::Admin), Ok(MessageType::ProjectTeam));
    assert_eq!(message_delivery(&message("broadcast"), Role::Admin), Ok(MessageType::Broadcast));
    assert_eq!(
        message_delivery(&message("project_team"), Role::Member),
        Err(MessageRefusal::AdminsOnly)
    );
    assert_eq!(message_delivery(&message("broadcast"), Role::Member), Err(MessageRefusal::AdminsOnly));
}

#[test]
fn unknown_message_types_are_invalid() {
    assert_eq!(message_delivery(&message("Broadcast"), Role::Admin), Err(MessageRefusal::InvalidType));
    assert_eq!(message_delivery(&message(""), Role::Member), Err(MessageRefusal::InvalidType));
    assert_eq!(MessageRefusal::InvalidType.text(), "Invalid message type");
    assert_eq!(
        MessageRefusal::AdminsOnly.text(),
        "Only admins can send project team or broadcast messages"
    );
}

#[test]
fn unreadable_recipients_are_passed_over() {
    let a = DocId::new(1).unwrap();
    let b = DocId::new(2).unwrap();
    let texts = vec![a.to_hex(), "nobody".to_string(), b.to_hex(), String::new(), a.to_hex()];
    assert_eq!(individual_recipients(&texts), vec![a, b, a]);
    assert_eq!(individual_recipients(&Vec::new()), Vec::<DocId>::new());
}

#[test]
fn roles_are_read_exactly() {
    assert_eq!(Role::parse("Admin"), Role::Admin);
    assert_eq!(Role::parse("Member"), Role::Member);
    assert_eq!(Role::parse("admin"), Role::Member);
    assert_eq!(Role::parse(""), Role::Member);
    assert_eq!(Role::Admin.as_str(), "Admin");
    assert_eq!(Role::Member.as_str(), "Member");
    let change = UpdateRoleRequest { user_id: "x".to_string(), role: "ADMIN".to_string() };
    assert_eq!(requested_role(&change), Role::Member);
}

#[test]
fn added_accounts_start_empty() {
    let user = new_user(
        CreateUserRequest {
            username: "ada".to_string(),
            full_name: "Ada L".to_string(),
            email: "ada@example.org".to_string(),
            password_hash: "h".to_string(),
            role: "Admin".to_string(),
        },
        "t1".to_string(),
        "t2".to_string(),
    );
    assert_eq!(user.id, None);
    assert_eq!(user.username, "ada");
    assert_eq!(user.full_name, "Ada L");
    assert_eq!(user.email, "ada@example.org");
    assert_eq!(user.password_hash, "h");
    assert_eq!(user.role, Role::Admin);
    assert_eq!(user.coins, 0);
    assert_eq!(user.project_ids, Some(Vec::new()));
    assert_eq!(user.created_at, "t1");
    assert_eq!(user.updated_at, "t2");
}

fn opening(status: Option<&str>, lead: Option<&str>, creator: &str) -> CreateProjectRequest {
    CreateProjectRequest {
        name: "P".to_string(),
        description: "d".to_string(),
        created_by: creator.to_string(),
        status: status.map(|s| s.to_string()),
        github_link: None,
        project_lead_id: lead.map(|s| s.to_string()),
    }
}

#[test]
fn opened_projects_start_empty() {
    let creator = DocId::new(5).unwrap();
    let lead = DocId::new(6).unwrap();
    let project =
        new_project(opening(Some("onhold"), Some(&lead.to_hex()), &creator.to_hex()), "a".into(), "b".into())
            .unwrap();
    assert_eq!(project.id, None);
    assert_eq!(project.status, ProjectStatus::OnHold);
    assert_eq!(project.member_ids, Some(Vec::new()));
    assert_eq!(project.files, Some(Vec::new()));
    assert_eq!(project.project_lead_id, Some(lead));
    assert_eq!(project.created_by, creator);
    assert_eq!(project.created_at, "a");
    assert_eq!(project.updated_at, "b");
}

#[test]
fn project_status_defaults_to_active() {
    let creator = DocId::new(5).unwrap().to_hex();
    assert_eq!(
        new_project(opening(None, None, &creator), "a".into(), "b".into()).unwrap().status,
        ProjectStatus::Active
    );
    assert_eq!(
        new_project(opening(Some("Completed"), None, &creator), "a".into(), "b".into()).unwrap().status,
        ProjectStatus::Active
    );
    assert_eq!(
        new_project(opening(Some("completed"), None, &creator), "a".into(), "b".into()).unwrap().status,
        ProjectStatus::Completed
    );
    assert_eq!(stored_status("completed"), "Completed");
    assert_eq!(stored_status("onhold"), "OnHold");
    assert_eq!(stored_status("anything"), "Active");
}

#[test]
fn unreadable_lead_is_no_lead_and_unreadable_creator_no_project() {
    let creator = DocId::new(5).unwrap().to_hex();
    assert_eq!(
        new_project(opening(None, Some("nobody"), &creator), "a".into(), "b".into())
            .unwrap()
            .project_lead_id,
        None
    );
    assert_eq!(new_project(opening(None, None, "nobody"), "a".into(), "b".into()), None);
}

#[test]
fn status_names() {
    assert_eq!(JoinRequestStatus::Pending.as_str(), "pending");
    assert_eq!(JoinRequestStatus::Approved.as_str(), "approved");
    assert_eq!(JoinRequestStatus::Rejected.as_str(), "rejected");
    assert_eq!(JoinRequestStatus::parse_decision("approved"), Some(JoinRequestStatus::Approved));
    assert_eq!(JoinRequestStatus::parse_decision("rejected"), Some(JoinRequestStatus::Rejected));
    assert_eq!(JoinRequestStatus::parse_decision("pending"), None);
    assert!(JoinRequestStatus::Pending.is_pending());
    assert!(!JoinRequestStatus::Approved.is_pending());
    assert_eq!(ProjectStatus::Active.as_str(), "Active");
}
