use ticket_tracker::clock::Timestamp;
use ticket_tracker::models::{CreateTicketRequest, Ticket, UpdateTicketRequest};
use ticket_tracker::repositories::{StorageError, TicketRepository};
use ticket_tracker::services::{
    created_view, found_view, listed_views, select_views, shows, Selection, TicketService,
};
use ticket_tracker::views::TicketResponse;

const DAY: i64 = 86_400;
const T0: i64 = 1_700_000_000;

fn hour(secs: i64) -> Timestamp {
    Timestamp::new(secs, 0).expect("an instant within range")
}

fn asking(title: &str, description: &str, status: &str) -> CreateTicketRequest {
    CreateTicketRequest {
        title: title.to_string(),
        description: description.to_string(),
        status: status.to_string(),
    }
}

fn ticket(id: u128, title: &str, description: &str, status: &str) -> Ticket {
    Ticket {
        id,
        title: title.to_string(),
        description: description.to_string(),
        status: status.to_string(),
        created_at: hour(T0),
        updated_at: hour(T0),
    }
}

fn sample() -> Vec<Ticket> {
    vec![
        ticket(1, "Fix bug", "NPE on save", "To Do"),
        ticket(2, "Write docs", "explain the bug tracker", "In Progress"),
        ticket(3, "Release", "ship it", "Done"),
        ticket(4, "Buggy build", "flaky", "To Do"),
    ]
}

fn service_with_sample() -> TicketService {
    let mut service = TicketService::new(TicketRepository::new());
    for t in sample() {
        service.create(asking(&t.title, &t.description, &t.status), hour(T0)).unwrap();
    }
    service
}

fn ids(views: &[TicketResponse]) -> Vec<u128> {
    views.iter().map(|view| view.id).collect()
}

#[test]
fn create_then_get_by_id_round_trips() {
    let mut service = TicketService::new(TicketRepository::new());
    let made = service.create(asking("Fix bug", "NPE on save", "To Do"), hour(T0)).unwrap();
    assert_eq!(made.title, "Fix bug");
    assert_eq!(made.days_old, 0);
    assert_eq!(made.priority, "Normal");
    assert_eq!(made.status_display, "Status: To Do");
    assert_eq!(made.status_color, "#red");
    let found = service.get_by_id(made.id, hour(T0 + 60)).unwrap().expect("the ticket");
    assert_eq!(found.id, made.id);
    assert_eq!(found.title, "Fix bug");
    assert_eq!(found.days_old, 0);
    assert_eq!(found.priority, "Normal");
    assert_eq!(found.status_display, "Status: To Do");
    assert_eq!(found.status_color, "#red");
}

#[test]
fn get_by_id_ages_the_ticket_by_the_clock() {
    let mut service = TicketService::new(TicketRepository::new());
    let made = service.create(asking("t", "", "Done"), hour(T0)).unwrap();
    let week = service.get_by_id(made.id, hour(T0 + 7 * DAY)).unwrap().unwrap();
    assert_eq!((week.days_old, week.priority.as_str()), (7, "Normal"));
    let later = service.get_by_id(made.id, hour(T0 + 8 * DAY)).unwrap().unwrap();
    assert_eq!((later.days_old, later.priority.as_str()), (8, "High"));
}

#[test]
fn get_by_id_of_an_unknown_identifier_is_none() {
    let service = service_with_sample();
    assert!(matches!(service.get_by_id(99, hour(T0)), Ok(None)));
}

#[test]
fn create_hands_the_refusal_on() {
    let mut service = TicketService::new(TicketRepository::new());
    let refused = service.create(asking("", "d", "s"), hour(T0));
    assert!(matches!(refused, Err(StorageError::EmptyTitle)));
    assert!(service.get_all(hour(T0)).unwrap().is_empty());
    let mut full = TicketService::new(TicketRepository::starting_at(u128::MAX));
    let refused = full.create(asking("t", "d", "s"), hour(T0));
    assert!(matches!(refused, Err(StorageError::OutOfIdentifiers)));
}

#[test]
fn get_all_shows_every_ticket() {
    let service = service_with_sample();
    let views = service.get_all(hour(T0 + 9 * DAY)).unwrap();
    assert_eq!(ids(&views), vec![1, 2, 3, 4]);
    assert!(views.iter().all(|view| view.days_old == 9 && view.priority == "High"));
    assert_eq!(views[1].title, "Write docs");
    assert_eq!(views[1].status_color, "#yellow");
}

#[test]
fn get_all_of_an_empty_table_is_empty() {
    let service = TicketService::new(TicketRepository::new());
    assert!(service.get_all(hour(T0)).unwrap().is_empty());
}

#[test]
fn get_by_status_keeps_the_exact_status_only() {
    let service = service_with_sample();
    let views = service.get_by_status("To Do".to_string(), hour(T0)).unwrap();
    assert_eq!(ids(&views), vec![1, 4]);
    assert!(views.iter().all(|view| view.status_display == "Status: To Do"));
    let views = service.get_by_status("Done".to_string(), hour(T0)).unwrap();
    assert_eq!(ids(&views), vec![3]);
}

#[test]
fn get_by_status_neither_folds_case_nor_trims() {
    let service = service_with_sample();
    for status in ["to do", "TO DO", "To Do ", " To Do", "To", "", "To  Do"] {
        let views = service.get_by_status(status.to_string(), hour(T0)).unwrap();
        assert!(views.is_empty(), "for {status:?}");
    }
}

#[test]
fn get_by_text_search_looks_in_title_and_description() {
    let service = service_with_sample();
    let views = service.get_by_text_search("bug", hour(T0)).unwrap();
    assert_eq!(ids(&views), vec![1, 2]);
    let views = service.get_by_text_search("ship", hour(T0)).unwrap();
    assert_eq!(ids(&views), vec![3]);
    let views = service.get_by_text_search("Bug", hour(T0)).unwrap();
    assert_eq!(ids(&views), vec![4]);
}

#[test]
fn get_by_text_search_does_not_look_in_the_status() {
    let service = service_with_sample();
    assert!(service.get_by_text_search("Progress", hour(T0)).unwrap().is_empty());
    assert!(service.get_by_text_search("To Do", hour(T0)).unwrap().is_empty());
}

#[test]
fn get_by_text_search_is_case_sensitive_and_unanchored() {
    let service = service_with_sample();
    assert!(service.get_by_text_search("FIX", hour(T0)).unwrap().is_empty());
    assert_eq!(ids(&service.get_by_text_search("ix b", hour(T0)).unwrap()), vec![1]);
    assert_eq!(ids(&service.get_by_text_search("Fix bug", hour(T0)).unwrap()), vec![1]);
    assert!(service.get_by_text_search("Fix bugs", hour(T0)).unwrap().is_empty());
    assert!(service.get_by_text_search("bug Fix", hour(T0)).unwrap().is_empty());
}

#[test]
fn get_by_text_search_for_the_empty_text_finds_everything() {
    let service = service_with_sample();
    assert_eq!(ids(&service.get_by_text_search("", hour(T0)).unwrap()), vec![1, 2, 3, 4]);
}

#[test]
fn get_by_text_search_goes_by_characters() {
    let mut service = TicketService::new(TicketRepository::new());
    service.create(asking("Grüße aus Köln", "", ""), hour(T0)).unwrap();
    service.create(asking("plain", "naïve ✓ done", ""), hour(T0)).unwrap();
    assert_eq!(ids(&service.get_by_text_search("üß", hour(T0)).unwrap()), vec![1]);
    assert_eq!(ids(&service.get_by_text_search("✓", hour(T0)).unwrap()), vec![2]);
    assert!(service.get_by_text_search("u", hour(T0)).unwrap().len() == 1);
    assert!(service.get_by_text_search("ß ", hour(T0)).unwrap().is_empty());
}

#[test]
fn update_returns_the_ticket_as_it_is_shown_afterwards() {
    let mut service = service_with_sample();
    let patch = UpdateTicketRequest {
        title: None,
        description: None,
        status: Some("In Progress".to_string()),
    };
    let view = service.update(1, patch, hour(T0 + 2 * DAY)).unwrap().expect("the ticket");
    assert_eq!(view.id, 1);
    assert_eq!(view.title, "Fix bug");
    assert_eq!(view.status_display, "Status: In Progress");
    assert_eq!(view.status_color, "#yellow");
    assert_eq!(view.days_old, 2);
    assert_eq!(ids(&service.get_by_status("To Do".to_string(), hour(T0)).unwrap()), vec![4]);
    assert_eq!(ids(&service.get_by_text_search("NPE", hour(T0)).unwrap()), vec![1]);
}

#[test]
fn update_of_an_unknown_identifier_is_none() {
    let mut service = service_with_sample();
    let patch =
        UpdateTicketRequest { title: Some("renamed".to_string()), description: None, status: None };
    assert!(matches!(service.update(99, patch, hour(T0)), Ok(None)));
    assert!(service.get_by_text_search("renamed", hour(T0)).unwrap().is_empty());
    assert_eq!(service.get_all(hour(T0)).unwrap().len(), 4);
}

#[test]
fn update_that_the_table_refuses_is_an_error_and_changes_nothing() {
    let mut service = service_with_sample();
    let patch = UpdateTicketRequest {
        title: Some("".to_string()),
        description: None,
        status: Some("Done".to_string()),
    };
    assert!(matches!(service.update(1, patch, hour(T0)), Err(StorageError::EmptyTitle)));
    let view = service.get_by_id(1, hour(T0)).unwrap().unwrap();
    assert_eq!(view.title, "Fix bug");
    assert_eq!(view.status_display, "Status: To Do");
}

#[test]
fn delete_twice_removes_once() {
    let mut service = service_with_sample();
    assert!(matches!(service.delete(2), Ok(true)));
    assert!(matches!(service.delete(2), Ok(false)));
    assert!(matches!(service.get_by_id(2, hour(T0)), Ok(None)));
    assert_eq!(ids(&service.get_all(hour(T0)).unwrap()), vec![1, 3, 4]);
}

#[test]
fn delete_of_an_unknown_identifier_is_false() {
    let mut service = service_with_sample();
    assert!(matches!(service.delete(0), Ok(false)));
    assert_eq!(service.get_all(hour(T0)).unwrap().len(), 4);
}

#[test]
fn shows_decides_by_the_selection() {
    let t = ticket(1, "Fix bug", "NPE on save", "To Do");
    assert!(shows(&Selection::All, &t));
    assert!(shows(&Selection::WithStatus("To Do".to_string()), &t));
    assert!(!shows(&Selection::WithStatus("Done".to_string()), &t));
    assert!(shows(&Selection::Mentioning("bug".to_string()), &t));
    assert!(shows(&Selection::Mentioning("save".to_string()), &t));
    assert!(!shows(&Selection::Mentioning("To Do".to_string()), &t));
    assert!(!shows(&Selection::Mentioning("bugsave".to_string()), &t));
}

#[test]
fn select_views_keeps_the_order_of_the_tickets() {
    let mut tickets = sample();
    tickets.reverse();
    let views = select_views(&tickets, &Selection::Mentioning("bug".to_string()), hour(T0));
    assert_eq!(ids(&views), vec![2, 1]);
    let views = select_views(&tickets, &Selection::All, hour(T0 + DAY));
    assert_eq!(ids(&views), vec![4, 3, 2, 1]);
    assert!(views.iter().all(|view| view.days_old == 1));
    assert!(select_views(&Vec::new(), &Selection::All, hour(T0)).is_empty());
}

#[test]
fn created_view_shows_the_ticket_or_hands_the_error_on() {
    let view = created_view(Ok(ticket(7, "t", "d", "To Do")), hour(T0 + 8 * DAY)).unwrap();
    assert_eq!((view.id, view.days_old, view.priority.as_str()), (7, 8, "High"));
    let failed = created_view(Err(StorageError::Backend("pool timed out".to_string())), hour(T0));
    assert!(matches!(failed, Err(StorageError::Backend(words)) if words == "pool timed out"));
}

#[test]
fn found_view_tells_failure_from_absence() {
    let view = found_view(Ok(Some(ticket(7, "t", "d", "Done"))), hour(T0)).unwrap().unwrap();
    assert_eq!((view.id, view.status_color.as_str()), (7, "#green"));
    assert!(matches!(found_view(Ok(None), hour(T0)), Ok(None)));
    let failed = found_view(Err(StorageError::Backend("down".to_string())), hour(T0));
    assert!(matches!(failed, Err(StorageError::Backend(words)) if words == "down"));
    assert!(matches!(found_view(Err(StorageError::EmptyTitle), hour(T0)), Err(StorageError::EmptyTitle)));
}

#[test]
fn update_with_an_empty_title_of_an_unknown_ticket_is_none() {
    let mut service = service_with_sample();
    let patch = UpdateTicketRequest { title: Some("".to_string()), description: None, status: None };
    assert!(matches!(service.update(99, patch, hour(T0)), Ok(None)));
    assert_eq!(service.get_all(hour(T0)).unwrap().len(), 4);
}

#[test]
fn listed_views_selects_or_hands_the_error_on() {
    let selection = Selection::WithStatus("To Do".to_string());
    let views = listed_views(Ok(sample()), &selection, hour(T0)).unwrap();
    assert_eq!(ids(&views), vec![1, 4]);
    let failed = listed_views(Err(StorageError::Backend("down".to_string())), &selection, hour(T0));
    assert!(matches!(failed, Err(StorageError::Backend(words)) if words == "down"));
}
