use iris_server::gate::AuthUser;
use iris_server::ids::DocId;
use iris_server::models::user::Role;
use iris_server::routes::blogs::{
    decimal, may_delete_blog, new_blog, numbered_slug, Blog, CreateBlogRequest,
};
use iris_server::routes::coins::{rank_leaderboard, LeaderboardEntry};
use iris_server::routes::events::{
    new_event, proposal_content, proposal_subject, CreateEventRequest, EventSpeaker, EventStatus,
    EventType, ProposeEventRequest, SpeakerInput,
};

fn id(n: u128) -> DocId {
    DocId::new(n).unwrap()
}

fn entry(n: u128, coins: i32) -> LeaderboardEntry {
    LeaderboardEntry { user_id: id(n), username: format!("u{}", n), coins_earned: coins, rank: 0 }
}

fn placed(n: u128, coins: i32, rank: i32) -> LeaderboardEntry {
    LeaderboardEntry { rank, ..entry(n, coins) }
}

#[test]
fn leaderboard_orders_by_coins() {
    let board = rank_leaderboard(vec![entry(1, 5), entry(2, 50), entry(3, -3), entry(4, 20)]);
    assert_eq!(board, vec![placed(2, 50, 1), placed(4, 20, 2), placed(1, 5, 3), placed(3, -3, 4)]);
}

#[test]
fn leaderboard_keeps_ties_in_order() {
    let board = rank_leaderboard(vec![entry(1, 7), entry(2, 9), entry(3, 7), entry(4, 9)]);
    assert_eq!(board, vec![placed(2, 9, 1), placed(4, 9, 2), placed(1, 7, 3), placed(3, 7, 4)]);
}

#[test]
fn leaderboard_of_none_and_one() {
    assert_eq!(rank_leaderboard(Vec::new()), Vec::new());
    assert_eq!(rank_leaderboard(vec![entry(1, 0)]), vec![placed(1, 0, 1)]);
}

#[test]
fn leaderboard_overwrites_old_places() {
    let board = rank_leaderboard(vec![placed(1, 1, 40), placed(2, 2, 41)]);
    assert_eq!(board, vec![placed(2, 2, 1), placed(1, 1, 2)]);
}

#[test]
fn leaderboard_handles_extreme_balances() {
    let board = rank_leaderboard(vec![entry(1, i32::MIN), entry(2, i32::MAX), entry(3, 0)]);
    assert_eq!(board, vec![placed(2, i32::MAX, 1), placed(3, 0, 2), placed(1, i32::MIN, 3)]);
}

#[test]
fn numbers_in_decimal() {
    assert_eq!(decimal(0), "0");
    assert_eq!(decimal(7), "7");
    assert_eq!(decimal(10), "10");
    assert_eq!(decimal(1234567890), "1234567890");
    assert_eq!(decimal(u64::MAX), "18446744073709551615");
}

#[test]
fn numbered_slugs() {
    assert_eq!(numbered_slug("hello-world", 1), "hello-world-1");
    assert_eq!(numbered_slug("hello-world", 12), "hello-world-12");
    assert_eq!(numbered_slug("", 3), "-3");
}

fn blog(author: DocId) -> Blog {
    Blog {
        id: Some(id(900)),
        title: "T".to_string(),
        slug: "t".to_string(),
        description: "d".to_string(),
        content: "c".to_string(),
        author_name: "Ada".to_string(),
        author_id: author,
        image_url: None,
        category: None,
        created_at: "a".to_string(),
        updated_at: "b".to_string(),
    }
}

fn caller(text: &str, role: Role) -> AuthUser {
    AuthUser {
        id: text.to_string(),
        username: "u".to_string(),
        email: "u@example.org".to_string(),
        role,
    }
}

#[test]
fn authors_and_admins_delete_posts() {
    let post = blog(id(1));
    assert!(may_delete_blog(&post, &caller(&id(1).to_hex(), Role::Member)));
    assert!(may_delete_blog(&post, &caller(&id(2).to_hex(), Role::Admin)));
    assert!(may_delete_blog(&post, &caller("not an id", Role::Admin)));
    assert!(!may_delete_blog(&post, &caller(&id(2).to_hex(), Role::Member)));
    assert!(!may_delete_blog(&post, &caller("not an id", Role::Member)));
}

#[test]
fn new_posts_take_over_the_request() {
    let post = new_blog(
        CreateBlogRequest {
            title: "Hello".to_string(),
            description: "d".to_string(),
            content: "# md".to_string(),
            image_url: Some("https://example.org/i.png".to_string()),
            category: None,
        },
        "hello".to_string(),
        id(3),
        "Ada".to_string(),
        "now".to_string(),
    );
    assert_eq!(
        post,
        Blog {
            id: None,
            title: "Hello".to_string(),
            slug: "hello".to_string(),
            description: "d".to_string(),
            content: "# md".to_string(),
            author_name: "Ada".to_string(),
            author_id: id(3),
            image_url: Some("https://example.org/i.png".to_string()),
            category: None,
            created_at: "now".to_string(),
            updated_at: "now".to_string(),
        }
    );
}

fn announcement(kind: &str, status: &str, featured: Option<bool>) -> CreateEventRequest {
    CreateEventRequest {
        title: "Rust night".to_string(),
        date: "2025-01-01".to_string(),
        time: "18:00".to_string(),
        end_date: None,
        location: "Lab".to_string(),
        event_type: kind.to_string(),
        status: status.to_string(),
        description: "d".to_string(),
        image: None,
        featured,
        register_link: Some("https://example.org/r".to_string()),
        recap_link: None,
        speakers: Some(vec![SpeakerInput {
            name: "Ada".to_string(),
            role: "Speaker".to_string(),
            avatar: None,
        }]),
    }
}

#[test]
fn new_events_take_over_the_request() {
    let event = new_event(announcement("Workshop", "ONGOING", Some(true)), id(8), "now".to_string());
    assert_eq!(event.id, None);
    assert_eq!(event.title, "Rust night");
    assert_eq!(event.date, "2025-01-01");
    assert_eq!(event.time, "18:00");
    assert_eq!(event.location, "Lab");
    assert_eq!(event.event_type, EventType::Workshop);
    assert_eq!(event.status, EventStatus::Ongoing);
    assert!(event.featured);
    assert_eq!(event.register_link, Some("https://example.org/r".to_string()));
    assert_eq!(
        event.speakers,
        Some(vec![EventSpeaker { name: "Ada".to_string(), role: "Speaker".to_string(), avatar: None }])
    );
    assert_eq!(event.created_by, id(8));
    assert_eq!(event.created_at, "now");
    assert_eq!(event.updated_at, "now");
}

#[test]
fn events_are_featured_only_when_asked() {
    assert!(!new_event(announcement("x", "y", None), id(8), "now".to_string()).featured);
    assert!(!new_event(announcement("x", "y", Some(false)), id(8), "now".to_string()).featured);
    let event = new_event(announcement("x", "y", None), id(8), "now".to_string());
    assert_eq!(event.event_type, EventType::Other);
    assert_eq!(event.status, EventStatus::Upcoming);
}

#[test]
fn proposals_are_worded() {
    let with_date = ProposeEventRequest {
        title: "Game jam".to_string(),
        event_type: "Hackathon".to_string(),
        description: "48 hours".to_string(),
        preferred_date: Some("May".to_string()),
    };
    assert_eq!(proposal_subject(&with_date), "[Event Proposal] Game jam");
    assert_eq!(
        proposal_content("ada", &with_date),
        "Event Proposal from ada\n\nType: Hackathon\n\n48 hours\nPreferred Date: May"
    );
    let without = ProposeEventRequest { preferred_date: None, ..with_date };
    assert_eq!(proposal_content("ada", &without), "Event Proposal from ada\n\nType: Hackathon\n\n48 hours");
}
