//! The five requests and the replies to them: which service call a request
//! leads to, and which status and body each outcome of the call is answered
//! with.

use crate::clock::{utc_now, Timestamp};
use crate::models::{new_row, CreateModel, CreateTicketRequest, UpdateModel, UpdateTicketRequest};
use crate::repositories::{StorageError, TableModel};
use crate::services::{
    response_of, responses_of, selected, shown_all, shown_by_id, Selection, SelectionModel,
    TicketService,
};
use crate::views::{shown, ResponseModel, TicketResponse};
use vstd::prelude::*;

verus! {

/// The status of a reply.
#[derive(Clone, Copy, Debug, PartialEq, Eq, Structural)]
pub enum StatusCode {
    /// 200
    Success,
    /// 201
    Created,
    /// 204
    NoContent,
    /// 400
    BadRequest,
    /// 404
    NotFound,
    /// 500
    InternalServerError,
}

impl StatusCode {
    /// The number of the status.
    pub open spec fn number(self) -> int {
        match self {
            StatusCode::Success => 200,
            StatusCode::Created => 201,
            StatusCode::NoContent => 204,
            StatusCode::BadRequest => 400,
            StatusCode::NotFound => 404,
            StatusCode::InternalServerError => 500,
        }
    }

    /// The number of the status.
    pub fn as_u16(&self) -> (number: u16)
        ensures
            number == self.number(),
    {
        match self {
            StatusCode::Success => 200,
            StatusCode::Created => 201,
            StatusCode::NoContent => 204,
            StatusCode::BadRequest => 400,
            StatusCode::NotFound => 404,
            StatusCode::InternalServerError => 500,
        }
    }
}

/// The reply to a request for one ticket: a status with what a reader is
/// shown of the ticket, or a status with a few words on what went wrong.
pub type TicketReply = Result<(StatusCode, TicketResponse), (StatusCode, String)>;

/// The reply to a request for a listing.
pub type ListingReply = Result<(StatusCode, Vec<TicketResponse>), (StatusCode, String)>;

/// The reply to a request to remove a ticket.
pub type RemovalReply = Result<StatusCode, (StatusCode, String)>;

/// A `TicketReply` as contracts see it.
pub type TicketAnswer = Result<(StatusCode, ResponseModel), (StatusCode, Seq<char>)>;

/// A `ListingReply` as contracts see it.
pub type ListingAnswer = Result<(StatusCode, Seq<ResponseModel>), (StatusCode, Seq<char>)>;

/// A `RemovalReply` as contracts see it.
pub type RemovalAnswer = Result<StatusCode, (StatusCode, Seq<char>)>;

/// `reply` as contracts see it.
pub open spec fn ticket_answer(reply: TicketReply) -> TicketAnswer {
    match reply {
        Ok((status, response)) => Ok((status, response@)),
        Err((status, words)) => Err((status, words@)),
    }
}

/// `reply` as contracts see it.
pub open spec fn listing_answer(reply: ListingReply) -> ListingAnswer {
    match reply {
        Ok((status, responses)) => Ok((status, responses_of(responses@))),
        Err((status, words)) => Err((status, words@)),
    }
}

/// `reply` as contracts see it.
pub open spec fn removal_answer(reply: RemovalReply) -> RemovalAnswer {
    match reply {
        Ok(status) => Ok(status),
        Err((status, words)) => Err((status, words@)),
    }
}

/// The words of the reply to a request for a ticket that is not there.
pub open spec fn not_found_words() -> Seq<char> {
    "Ticket not found"@
}

/// The words of the reply to a request that asks for a text and for a status
/// at once.
pub open spec fn conflict_words() -> Seq<char> {
    "Can not filter and search at the same time"@
}

/// The answer to a request to create a ticket, given what the service
/// returned: 201 with the ticket, or 400 with the words of the error.
pub open spec fn answer_created(made: Result<ResponseModel, StorageError>) -> TicketAnswer {
    match made {
        Ok(response) => Ok((StatusCode::Created, response)),
        Err(error) => Err((StatusCode::BadRequest, error.text())),
    }
}

/// The answer to a request to read or to change one ticket, given what the
/// service returned: 200 with the ticket, 404 where there is none, and 500
/// with the words of the error where the store failed.
pub open spec fn answer_found(found: Result<Option<ResponseModel>, StorageError>) -> TicketAnswer {
    match found {
        Ok(Some(response)) => Ok((StatusCode::Success, response)),
        Ok(None) => Err((StatusCode::NotFound, not_found_words())),
        Err(error) => Err((StatusCode::InternalServerError, error.text())),
    }
}

/// The answer to a request to remove a ticket, given what the service
/// returned: 204 if a ticket was removed, 404 if there was none, and 500 with
/// the words of the error.
pub open spec fn answer_removed(removed: Result<bool, StorageError>) -> RemovalAnswer {
    match removed {
        Ok(true) => Ok(StatusCode::NoContent),
        Ok(false) => Err((StatusCode::NotFound, not_found_words())),
        Err(error) => Err((StatusCode::InternalServerError, error.text())),
    }
}

/// The answer to a request for a listing, given what the service returned:
/// 200 with the tickets, or 500 with the words of the error.
pub open spec fn answer_listed(listed: Result<Seq<ResponseModel>, StorageError>) -> ListingAnswer {
    match listed {
        Ok(responses) => Ok((StatusCode::Success, responses)),
        Err(error) => Err((StatusCode::InternalServerError, error.text())),
    }
}

/// The reply to a request to create a ticket, given what the service
/// returned.
pub fn create_reply(made: Result<TicketResponse, StorageError>) -> (reply: TicketReply)
    ensures
        ticket_answer(reply) == answer_created(
            match made {
                Ok(response) => Ok(response@),
                Err(error) => Err(error),
            },
        ),
{
    match made {
        Ok(response) => Ok((StatusCode::Created, response)),
        Err(error) => Err((StatusCode::BadRequest, error.message())),
    }
}

/// The reply to a request to read or to change one ticket, given what the
/// service returned.
pub fn found_reply(found: Result<Option<TicketResponse>, StorageError>) -> (reply: TicketReply)
    ensures
        ticket_answer(reply) == answer_found(
            match found {
                Ok(view) => Ok(response_of(view)),
                Err(error) => Err(error),
            },
        ),
{
    match found {
        Ok(Some(response)) => Ok((StatusCode::Success, response)),
        Ok(None) => Err((StatusCode::NotFound, String::from_str("Ticket not found"))),
        Err(error) => Err((StatusCode::InternalServerError, error.message())),
    }
}

/// The reply to a request to remove a ticket, given what the service
/// returned.
pub fn delete_reply(removed: Result<bool, StorageError>) -> (reply: RemovalReply)
    ensures
        removal_answer(reply) == answer_removed(removed),
{
    match removed {
        Ok(true) => Ok(StatusCode::NoContent),
        Ok(false) => Err((StatusCode::NotFound, String::from_str("Ticket not found"))),
        Err(error) => Err((StatusCode::InternalServerError, error.message())),
    }
}

/// The reply to a request for a listing, given what the service returned.
pub fn listing_reply(listed: Result<Vec<TicketResponse>, StorageError>) -> (reply: ListingReply)
    ensures
        listing_answer(reply) == answer_listed(
            match listed {
                Ok(responses) => Ok(responses_of(responses@)),
                Err(error) => Err(error),
            },
        ),
{
    match listed {
        Ok(responses) => Ok((StatusCode::Success, responses)),
        Err(error) => Err((StatusCode::InternalServerError, error.message())),
    }
}

/// The reply to a request that asks for a text and for a status at once.
pub fn conflict_reply() -> (reply: (StatusCode, String))
    ensures
        reply.0 == StatusCode::BadRequest,
        reply.1@ == conflict_words(),
{
    (StatusCode::BadRequest, String::from_str("Can not filter and search at the same time"))
}

/// The reply to a request whose body could not be read as what the request
/// asks for: 400, with the words in which the fault was found.
pub fn invalid_payload_reply(words: String) -> (reply: (StatusCode, String))
    ensures
        reply.0 == StatusCode::BadRequest,
        reply.1@ == words@,
{
    (StatusCode::BadRequest, words)
}

/// What a request for a listing asks for: a text to look for, a status to
/// keep, neither, or, which is refused, both.
#[derive(Debug)]
pub struct SearchQuery {
    pub q: Option<String>,
    pub status: Option<String>,
}

/// A `SearchQuery` as contracts see it.
pub struct QueryModel {
    pub q: Option<Seq<char>>,
    pub status: Option<Seq<char>>,
}

impl View for SearchQuery {
    type V = QueryModel;

    open spec fn view(&self) -> QueryModel {
        QueryModel {
            q: match self.q {
                Some(term) => Some(term@),
                None => None,
            },
            status: match self.status {
                Some(status) => Some(status@),
                None => None,
            },
        }
    }
}

/// The selection that `query` asks for, and none if it asks for a text and
/// for a status at once.
pub open spec fn selection_of(query: QueryModel) -> Option<SelectionModel> {
    match (query.q, query.status) {
        (Some(term), None) => Some(SelectionModel::Mentioning(term)),
        (None, Some(status)) => Some(SelectionModel::WithStatus(status)),
        (None, None) => Some(SelectionModel::All),
        (Some(_), Some(_)) => None,
    }
}

/// `selection`, if there is one, as contracts see it.
pub open spec fn selection_model(selection: Option<Selection>) -> Option<SelectionModel> {
    match selection {
        Some(selection) => Some(selection@),
        None => None,
    }
}

impl SearchQuery {
    /// The selection that the query asks for, and none if it asks for a text
    /// and for a status at once.
    pub fn selection(&self) -> (selection: Option<Selection>)
        ensures
            selection_model(selection) == selection_of(self@),
    {
        match (&self.q, &self.status) {
            (Some(term), None) => Some(Selection::Mentioning(term.clone())),
            (None, Some(status)) => Some(Selection::WithStatus(status.clone())),
            (None, None) => Some(Selection::All),
            (Some(_), Some(_)) => None,
        }
    }
}

/// The table and the answer after a request to create a ticket was served at
/// `now`: 201 with the new ticket as a reader is shown it at `now`; or, where
/// the table refuses the ticket, 400, and the table as it was.
pub open spec fn create_ticket_at(table: TableModel, request: CreateModel, now: Timestamp) -> (
    TableModel,
    TicketAnswer,
) {
    if table.admits(request) {
        (
            table.with_inserted(request, now),
            answer_created(Ok(shown(new_row(table.next_id, request, now), now))),
        )
    } else {
        (table, answer_created(Err(table.refusal(request))))
    }
}

/// The table and the answer after a request to change the ticket `id` was
/// served at `now`: 200 with the ticket as a reader is shown it after the
/// change; 404, and the table as it was, where there is no such ticket; and
/// 500, and the table as it was, where the change would take the title from
/// the ticket.
pub open spec fn update_ticket_at(
    table: TableModel,
    id: u128,
    request: UpdateModel,
    now: Timestamp,
) -> (TableModel, TicketAnswer) {
    if !table.has(id) {
        (table, answer_found(Ok(None)))
    } else if request.keeps_title() {
        let changed = table.with_updated(id, request, now);
        (changed, answer_found(Ok(shown_by_id(changed, id, now))))
    } else {
        (table, answer_found(Err(StorageError::EmptyTitle)))
    }
}

/// The table and the answer after a request to remove the ticket `id` was
/// served: 204, and the table without the ticket; or, where there is no such
/// ticket, 404, and the table as it was.
pub open spec fn delete_ticket_in(table: TableModel, id: u128) -> (TableModel, RemovalAnswer) {
    if table.has(id) {
        (table.without(id), answer_removed(Ok(true)))
    } else {
        (table, answer_removed(Ok(false)))
    }
}

/// The answer to a request for the ticket `id`, served at `now`: 200 with
/// the ticket as a reader is shown it, or 404.
pub open spec fn get_ticket_at(table: TableModel, id: u128, now: Timestamp) -> TicketAnswer {
    answer_found(Ok(shown_by_id(table, id, now)))
}

/// The answer to a request for a listing, served at `now`: 400 where the
/// query asks for a text and for a status at once; else 200 with the tickets
/// that the query selects as a reader is shown them.
pub open spec fn get_tickets_at(table: TableModel, query: QueryModel, now: Timestamp) -> ListingAnswer {
    match selection_of(query) {
        Some(selection) => answer_listed(Ok(shown_all(selected(table.rows, selection), now))),
        None => Err((StatusCode::BadRequest, conflict_words())),
    }
}

/// Serves a request to create a ticket, at the instant that the clock shows.
pub fn create_ticket(service: &mut TicketService, payload: CreateTicketRequest) -> (reply:
    TicketReply)
    ensures
        final(service)@.well_formed(),
        exists|now: Timestamp| #[trigger]
            now.valid() && (final(service)@, ticket_answer(reply)) == create_ticket_at(
                old(service)@,
                payload@,
                now,
            ),
{
    let now = utc_now();
    create_reply(service.create(payload, now))
}

/// Serves a request to change the ticket `id`, at the instant that the clock
/// shows.
pub fn update_ticket(service: &mut TicketService, id: u128, payload: UpdateTicketRequest) -> (reply:
    TicketReply)
    ensures
        final(service)@.well_formed(),
        exists|now: Timestamp| #[trigger]
            now.valid() && (final(service)@, ticket_answer(reply)) == update_ticket_at(
                old(service)@,
                id,
                payload@,
                now,
            ),
{
    let now = utc_now();
    found_reply(service.update(id, payload, now))
}

/// Serves a request to remove the ticket `id`.
pub fn delete_ticket(service: &mut TicketService, id: u128) -> (reply: RemovalReply)
    ensures
        final(service)@.well_formed(),
        (final(service)@, removal_answer(reply)) == delete_ticket_in(old(service)@, id),
{
    delete_reply(service.delete(id))
}

/// Serves a request for the ticket `id`, at the instant that the clock shows.
pub fn get_ticket_by_id(service: &TicketService, id: u128) -> (reply: TicketReply)
    ensures
        exists|now: Timestamp| #[trigger]
            now.valid() && ticket_answer(reply) == get_ticket_at(service@, id, now),
{
    let now = utc_now();
    found_reply(service.get_by_id(id, now))
}

/// Serves a request for a listing. One that asks for a text and for a status
/// at once is answered with 400 and reads neither the clock nor the table;
/// every other is served at the instant that the clock shows.
pub fn get_tickets(service: &TicketService, params: &SearchQuery) -> (reply: ListingReply)
    ensures
        params@.q is Some && params@.status is Some ==> {
            &&& listing_answer(reply) matches Err((status, words))
            &&& status == StatusCode::BadRequest
            &&& words == conflict_words()
        },
        !(params@.q is Some && params@.status is Some) ==> exists|now: Timestamp| #[trigger]
            now.valid() && listing_answer(reply) == get_tickets_at(service@, params@, now),
{
    match params.selection() {
        Some(Selection::Mentioning(term)) => listing_reply(
            service.get_by_text_search(term.as_str(), utc_now()),
        ),
        Some(Selection::WithStatus(status)) => listing_reply(
            service.get_by_status(status, utc_now()),
        ),
        Some(Selection::All) => listing_reply(service.get_all(utc_now())),
        None => Err(conflict_reply()),
    }
}

} // verus!
