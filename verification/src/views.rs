//! What a reader is shown of a ticket: its age in days, the priority that
//! follows from the age, and a colour for its status.

use crate::clock::{whole_days_between, Timestamp};
use crate::models::{Ticket, TicketModel};
use vstd::prelude::*;

verus! {

/// A ticket is of high priority once it is more than this many days old.
pub const HIGH_PRIORITY_AFTER_DAYS: i32 = 7;

/// What a reader is shown of a ticket.
#[derive(Debug)]
pub struct TicketResponse {
    pub id: u128,
    pub title: String,
    pub status_display: String,
    pub days_old: i32,
    pub priority: String,
    pub status_color: String,
}

/// A `TicketResponse` as contracts see it.
pub struct ResponseModel {
    pub id: u128,
    pub title: Seq<char>,
    pub status_display: Seq<char>,
    pub days_old: int,
    pub priority: Seq<char>,
    pub status_color: Seq<char>,
}

impl View for TicketResponse {
    type V = ResponseModel;

    open spec fn view(&self) -> ResponseModel {
        ResponseModel {
            id: self.id,
            title: self.title@,
            status_display: self.status_display@,
            days_old: self.days_old as int,
            priority: self.priority@,
            status_color: self.status_color@,
        }
    }
}

/// The priority of a ticket that is `days_old` days old: high when it is
/// more than seven days old, normal up to and including the seventh day.
pub open spec fn priority_of(days_old: int) -> Seq<char> {
    if days_old > HIGH_PRIORITY_AFTER_DAYS {
        "High"@
    } else {
        "Normal"@
    }
}

/// What the tracker makes of a status. A status is any text; two texts it
/// knows by name, and every other one is a status of the user's own.
#[derive(Clone, Copy, Debug, PartialEq, Eq, Structural)]
pub enum StatusKind {
    /// The status "To Do".
    ToDo,
    /// The status "In Progress".
    InProgress,
    /// Every other status, the empty one too.
    Custom,
}

/// What the tracker makes of `status`. The text is compared as it stands,
/// letter for letter.
pub open spec fn kind_of(status: Seq<char>) -> StatusKind {
    if status == "To Do"@ {
        StatusKind::ToDo
    } else if status == "In Progress"@ {
        StatusKind::InProgress
    } else {
        StatusKind::Custom
    }
}

/// The colour of a status: red for "To Do", yellow for "In Progress", green
/// for every other text.
pub open spec fn color_of(status: Seq<char>) -> Seq<char> {
    kind_of(status).tag()
}

/// The line that shows a status to a reader.
pub open spec fn display_of(status: Seq<char>) -> Seq<char> {
    "Status: "@ + status
}

/// What a reader is shown of `ticket` at the instant `now`.
pub open spec fn shown(ticket: TicketModel, now: Timestamp) -> ResponseModel {
    let days_old = whole_days_between(ticket.created_at, now);
    ResponseModel {
        id: ticket.id,
        title: ticket.title,
        status_display: display_of(ticket.status),
        days_old,
        priority: priority_of(days_old),
        status_color: color_of(ticket.status),
    }
}

/// The priority of a ticket that is `days_old` days old.
pub fn priority(days_old: i32) -> (label: String)
    ensures
        label@ == priority_of(days_old as int),
{
    if days_old > HIGH_PRIORITY_AFTER_DAYS {
        String::from_str("High")
    } else {
        String::from_str("Normal")
    }
}

impl StatusKind {
    /// The colour in which a status of this kind is shown.
    pub open spec fn tag(self) -> Seq<char> {
        match self {
            StatusKind::ToDo => "#red"@,
            StatusKind::InProgress => "#yellow"@,
            StatusKind::Custom => "#green"@,
        }
    }

    /// What the tracker makes of `status`.
    pub fn of(status: &String) -> (kind: StatusKind)
        ensures
            kind == kind_of(status@),
    {
        if *status == String::from_str("To Do") {
            StatusKind::ToDo
        } else if *status == String::from_str("In Progress") {
            StatusKind::InProgress
        } else {
            StatusKind::Custom
        }
    }

    /// The colour in which a status of this kind is shown.
    pub fn color(&self) -> (tag: String)
        ensures
            tag@ == self.tag(),
    {
        match self {
            StatusKind::ToDo => String::from_str("#red"),
            StatusKind::InProgress => String::from_str("#yellow"),
            StatusKind::Custom => String::from_str("#green"),
        }
    }
}

/// The colour of a status.
pub fn status_color(status: &String) -> (tag: String)
    ensures
        tag@ == color_of(status@),
{
    StatusKind::of(status).color()
}

/// The line that shows a status to a reader.
pub fn status_display(status: &String) -> (line: String)
    ensures
        line@ == display_of(status@),
{
    String::from_str("Status: ").concat(status.as_str())
}

impl TicketResponse {
    /// What a reader is shown of `ticket` at the instant `now`.
    pub fn from(ticket: &Ticket, now: Timestamp) -> (response: TicketResponse)
        ensures
            response@ == shown(ticket@, now),
    {
        let days_old: i32 = now.days_since(&ticket.created_at);
        TicketResponse {
            id: ticket.id,
            title: ticket.title.clone(),
            status_display: status_display(&ticket.status),
            days_old,
            priority: priority(days_old),
            status_color: status_color(&ticket.status),
        }
    }
}

} // verus!
