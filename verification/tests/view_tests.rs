use ticket_tracker::clock::Timestamp;
use ticket_tracker::models::Ticket;
use ticket_tracker::views::{
    priority, status_color, status_display, StatusKind, TicketResponse, HIGH_PRIORITY_AFTER_DAYS,
};

const DAY: i64 = 86_400;
const T0: i64 = 1_700_000_000;

fn instant(secs: i64) -> Timestamp {
    Timestamp::new(secs, 0).expect("an instant within range")
}

fn ticket_with(status: &str, created: i64) -> Ticket {
    Ticket {
        id: 42,
        title: "Fix bug".to_string(),
        description: "NPE on save".to_string(),
        status: status.to_string(),
        created_at: instant(created),
        updated_at: instant(created),
    }
}

#[test]
fn to_do_is_red() {
    assert_eq!(status_color(&"To Do".to_string()), "#red");
}

#[test]
fn in_progress_is_yellow() {
    assert_eq!(status_color(&"In Progress".to_string()), "#yellow");
}

#[test]
fn every_other_status_is_green() {
    for status in ["Done", "", "Blocked", "to do", "TO DO", "To Do ", " To Do", "In progress", "ToDo"] {
        assert_eq!(status_color(&status.to_string()), "#green", "for {status:?}");
    }
}

#[test]
fn two_statuses_are_known_by_name() {
    assert_eq!(StatusKind::of(&"To Do".to_string()), StatusKind::ToDo);
    assert_eq!(StatusKind::of(&"In Progress".to_string()), StatusKind::InProgress);
    for status in ["Done", "", "to do", "In Progress ", "To DoIn Progress"] {
        assert_eq!(StatusKind::of(&status.to_string()), StatusKind::Custom, "for {status:?}");
    }
}

#[test]
fn each_kind_of_status_has_its_colour() {
    assert_eq!(StatusKind::ToDo.color(), "#red");
    assert_eq!(StatusKind::InProgress.color(), "#yellow");
    assert_eq!(StatusKind::Custom.color(), "#green");
}

#[test]
fn status_display_puts_the_prefix_before_the_status() {
    assert_eq!(status_display(&"To Do".to_string()), "Status: To Do");
    assert_eq!(status_display(&"".to_string()), "Status: ");
    assert_eq!(status_display(&"Größe ✓".to_string()), "Status: Größe ✓");
}

#[test]
fn priority_turns_high_after_the_seventh_day() {
    assert_eq!(HIGH_PRIORITY_AFTER_DAYS, 7);
    assert_eq!(priority(0), "Normal");
    assert_eq!(priority(6), "Normal");
    assert_eq!(priority(7), "Normal");
    assert_eq!(priority(8), "High");
    assert_eq!(priority(i32::MAX), "High");
}

#[test]
fn priority_of_a_ticket_from_the_future_is_normal() {
    assert_eq!(priority(-1), "Normal");
    assert_eq!(priority(i32::MIN), "Normal");
}

#[test]
fn a_new_ticket_is_zero_days_old_and_normal() {
    let ticket = ticket_with("To Do", T0);
    let view = TicketResponse::from(&ticket, instant(T0));
    assert_eq!(view.id, 42);
    assert_eq!(view.title, "Fix bug");
    assert_eq!(view.status_display, "Status: To Do");
    assert_eq!(view.days_old, 0);
    assert_eq!(view.priority, "Normal");
    assert_eq!(view.status_color, "#red");
}

#[test]
fn a_ticket_of_exactly_seven_days_is_normal() {
    let ticket = ticket_with("In Progress", T0);
    let view = TicketResponse::from(&ticket, instant(T0 + 7 * DAY));
    assert_eq!(view.days_old, 7);
    assert_eq!(view.priority, "Normal");
    assert_eq!(view.status_color, "#yellow");
}

#[test]
fn a_ticket_of_eight_days_is_high() {
    let ticket = ticket_with("Done", T0);
    let view = TicketResponse::from(&ticket, instant(T0 + 8 * DAY));
    assert_eq!(view.days_old, 8);
    assert_eq!(view.priority, "High");
    assert_eq!(view.status_color, "#green");
}

#[test]
fn a_ticket_one_second_short_of_eight_days_is_normal() {
    let ticket = ticket_with("Done", T0);
    let view = TicketResponse::from(&ticket, instant(T0 + 8 * DAY - 1));
    assert_eq!(view.days_old, 7);
    assert_eq!(view.priority, "Normal");
}

#[test]
fn a_ticket_created_after_now_has_a_negative_age() {
    let ticket = ticket_with("To Do", T0);
    let view = TicketResponse::from(&ticket, instant(T0 - 3 * DAY));
    assert_eq!(view.days_old, -3);
    assert_eq!(view.priority, "Normal");
}

#[test]
fn the_view_goes_by_the_time_of_creation_not_of_the_last_change() {
    let mut ticket = ticket_with("To Do", T0);
    ticket.updated_at = instant(T0 + 9 * DAY);
    let view = TicketResponse::from(&ticket, instant(T0 + 10 * DAY));
    assert_eq!(view.days_old, 10);
    assert_eq!(view.priority, "High");
}

#[test]
fn the_view_leaves_the_ticket_as_it_is() {
    let ticket = ticket_with("To Do", T0);
    let copy = ticket.clone();
    let _ = TicketResponse::from(&ticket, instant(T0 + DAY));
    assert_eq!(ticket.id, copy.id);
    assert_eq!(ticket.title, copy.title);
    assert_eq!(ticket.description, copy.description);
    assert_eq!(ticket.status, copy.status);
    assert_eq!(ticket.created_at, copy.created_at);
    assert_eq!(ticket.updated_at, copy.updated_at);
}
