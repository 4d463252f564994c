//! The ticket as it is stored, and the two requests that write one.

use crate::clock::Timestamp;
use vstd::prelude::*;

verus! {

/// A stored ticket.
#[derive(Debug)]
pub struct Ticket {
    pub id: u128,
    pub title: String,
    pub description: String,
    pub status: String,
    pub created_at: Timestamp,
    pub updated_at: Timestamp,
}

/// What a request to create a ticket carries.
#[derive(Debug)]
pub struct CreateTicketRequest {
    pub title: String,
    pub description: String,
    pub status: String,
}

/// What a request to change a ticket carries: a field that is absent leaves
/// the stored one as it is.
#[derive(Debug)]
pub struct UpdateTicketRequest {
    pub title: Option<String>,
    pub description: Option<String>,
    pub status: Option<String>,
}

/// A ticket as contracts see it.
pub struct TicketModel {
    pub id: u128,
    pub title: Seq<char>,
    pub description: Seq<char>,
    pub status: Seq<char>,
    pub created_at: Timestamp,
    pub updated_at: Timestamp,
}

/// A request to create a ticket as contracts see it.
pub struct CreateModel {
    pub title: Seq<char>,
    pub description: Seq<char>,
    pub status: Seq<char>,
}

/// A request to change a ticket as contracts see it.
pub struct UpdateModel {
    pub title: Option<Seq<char>>,
    pub description: Option<Seq<char>>,
    pub status: Option<Seq<char>>,
}

/// The characters of a text that may be absent.
pub open spec fn text_of(field: Option<String>) -> Option<Seq<char>> {
    match field {
        Some(text) => Some(text@),
        None => None,
    }
}

/// The later of two instants.
pub open spec fn later_of(a: Timestamp, b: Timestamp) -> Timestamp {
    if a.total_nanos() <= b.total_nanos() {
        b
    } else {
        a
    }
}

/// The row that a request to create a ticket becomes when it is stored under
/// `id` at the instant `now`.
pub open spec fn new_row(id: u128, request: CreateModel, now: Timestamp) -> TicketModel {
    TicketModel {
        id,
        title: request.title,
        description: request.description,
        status: request.status,
        created_at: now,
        updated_at: now,
    }
}

/// The row that `row` becomes when `request` is applied to it at the instant
/// `now`: each field that the request carries replaces the stored one, the
/// others stay, and the time of the last change moves to `now` unless that
/// would move it back.
pub open spec fn patched(row: TicketModel, request: UpdateModel, now: Timestamp) -> TicketModel {
    TicketModel {
        id: row.id,
        title: match request.title {
            Some(title) => title,
            None => row.title,
        },
        description: match request.description {
            Some(description) => description,
            None => row.description,
        },
        status: match request.status {
            Some(status) => status,
            None => row.status,
        },
        created_at: row.created_at,
        updated_at: later_of(row.updated_at, now),
    }
}

impl TicketModel {
    /// What holds of every stored ticket: it has a title, and it was not
    /// changed before it was created.
    pub open spec fn well_formed(self) -> bool {
        &&& self.title.len() > 0
        &&& self.created_at.valid()
        &&& self.updated_at.valid()
        &&& self.created_at.total_nanos() <= self.updated_at.total_nanos()
    }
}

impl UpdateModel {
    /// Whether a row keeps a title when this request is applied to it.
    pub open spec fn keeps_title(self) -> bool {
        self.title matches Some(title) ==> title.len() > 0
    }
}

impl View for Ticket {
    type V = TicketModel;

    open spec fn view(&self) -> TicketModel {
        TicketModel {
            id: self.id,
            title: self.title@,
            description: self.description@,
            status: self.status@,
            created_at: self.created_at,
            updated_at: self.updated_at,
        }
    }
}

impl View for CreateTicketRequest {
    type V = CreateModel;

    open spec fn view(&self) -> CreateModel {
        CreateModel { title: self.title@, description: self.description@, status: self.status@ }
    }
}

impl View for UpdateTicketRequest {
    type V = UpdateModel;

    open spec fn view(&self) -> UpdateModel {
        UpdateModel {
            title: text_of(self.title),
            description: text_of(self.description),
            status: text_of(self.status),
        }
    }
}

impl CreateTicketRequest {
    /// Whether the request carries a title, as every ticket must have one.
    pub fn has_title(&self) -> (b: bool)
        ensures
            b == (self@.title.len() > 0),
    {
        !self.title.as_str().is_empty()
    }
}

impl UpdateTicketRequest {
    /// Whether a ticket keeps a title when this request is applied to it:
    /// the request carries no title, or one that is not empty.
    pub fn keeps_title(&self) -> (b: bool)
        ensures
            b == self@.keeps_title(),
    {
        match &self.title {
            Some(title) => !title.as_str().is_empty(),
            None => true,
        }
    }
}

impl Clone for Ticket {
    fn clone(&self) -> (copy: Ticket)
        ensures
            copy == *self,
    {
        Ticket {
            id: self.id,
            title: self.title.clone(),
            description: self.description.clone(),
            status: self.status.clone(),
            created_at: self.created_at,
            updated_at: self.updated_at,
        }
    }
}

} // verus!
