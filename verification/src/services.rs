//! The service: what is stored, read, changed and removed through the table,
//! and which tickets a listing shows.

use crate::clock::Timestamp;
use crate::models::{new_row, CreateTicketRequest, Ticket, TicketModel, UpdateTicketRequest};
use crate::repositories::{models_of, StorageError, TableModel, TicketRepository};
use crate::text::{contains_text, occurs_in};
use crate::views::{shown, ResponseModel, TicketResponse};
use vstd::prelude::*;

verus! {

/// Which tickets a listing shows.
#[derive(Debug)]
pub enum Selection {
    /// Every ticket.
    All,
    /// The tickets whose status is exactly this text.
    WithStatus(String),
    /// The tickets in whose title or description this text occurs.
    Mentioning(String),
}

/// A `Selection` as contracts see it.
pub enum SelectionModel {
    All,
    WithStatus(Seq<char>),
    Mentioning(Seq<char>),
}

impl View for Selection {
    type V = SelectionModel;

    open spec fn view(&self) -> SelectionModel {
        match self {
            Selection::All => SelectionModel::All,
            Selection::WithStatus(status) => SelectionModel::WithStatus(status@),
            Selection::Mentioning(term) => SelectionModel::Mentioning(term@),
        }
    }
}

/// Whether `selection` shows `ticket`. A status is compared as it stands,
/// letter for letter; a text is looked for in the title and in the
/// description as it stands.
pub open spec fn selects(selection: SelectionModel, ticket: TicketModel) -> bool {
    match selection {
        SelectionModel::All => true,
        SelectionModel::WithStatus(status) => ticket.status == status,
        SelectionModel::Mentioning(term) => occurs_in(term, ticket.title) || occurs_in(
            term,
            ticket.description,
        ),
    }
}

/// The tickets of `rows` that `selection` shows, in the order of `rows`.
pub open spec fn selected(rows: Seq<TicketModel>, selection: SelectionModel) -> Seq<TicketModel> {
    rows.filter(|ticket: TicketModel| selects(selection, ticket))
}

/// What a reader is shown of each ticket of `rows` at the instant `now`.
pub open spec fn shown_all(rows: Seq<TicketModel>, now: Timestamp) -> Seq<ResponseModel> {
    rows.map_values(|ticket: TicketModel| shown(ticket, now))
}

/// The responses of `responses` as contracts see them.
pub open spec fn responses_of(responses: Seq<TicketResponse>) -> Seq<ResponseModel> {
    responses.map_values(|response: TicketResponse| response@)
}

/// The response of `found`, if there is one, as contracts see it.
pub open spec fn response_of(found: Option<TicketResponse>) -> Option<ResponseModel> {
    match found {
        Some(response) => Some(response@),
        None => None,
    }
}

/// What a reader is shown at `now` of the ticket of `table` with the
/// identifier `id`, if there is one.
pub open spec fn shown_by_id(table: TableModel, id: u128, now: Timestamp) -> Option<ResponseModel> {
    match table.get(id) {
        Some(ticket) => Some(shown(ticket, now)),
        None => None,
    }
}

/// Whether `selection` shows `ticket`.
pub fn shows(selection: &Selection, ticket: &Ticket) -> (kept: bool)
    ensures
        kept == selects(selection@, ticket@),
{
    match selection {
        Selection::All => true,
        Selection::WithStatus(status) => ticket.status == *status,
        Selection::Mentioning(term) => contains_text(ticket.title.as_str(), term.as_str())
            || contains_text(ticket.description.as_str(), term.as_str()),
    }
}

/// What a reader is shown at the instant `now` of those of `tickets` that
/// `selection` shows, in the order of `tickets`.
pub fn select_views(tickets: &Vec<Ticket>, selection: &Selection, now: Timestamp) -> (views: Vec<
    TicketResponse,
>)
    ensures
        responses_of(views@) == shown_all(selected(models_of(tickets@), selection@), now),
{
    let ghost rows = models_of(tickets@);
    let ghost keep = |ticket: TicketModel| selects(selection@, ticket);
    let mut views: Vec<TicketResponse> = Vec::new();
    let mut at: usize = 0;
    while at < tickets.len()
        invariant
            at <= tickets.len(),
            rows == models_of(tickets@),
            keep == |ticket: TicketModel| selects(selection@, ticket),
            responses_of(views@) == shown_all(rows.subrange(0, at as int).filter(keep), now),
        decreases tickets.len() - at,
    {
        let ticket = &tickets[at];
        let ghost before = rows.subrange(0, at as int);
        let ghost after = rows.subrange(0, at + 1);
        proof {
            reveal(Seq::filter);
            assert(after.drop_last() =~= before);
        }
        if shows(selection, ticket) {
            views.push(TicketResponse::from(ticket, now));
            proof {
                assert(shown_all(before.filter(keep).push(ticket@), now) =~= shown_all(
                    before.filter(keep),
                    now,
                ).push(shown(ticket@, now)));
            }
        }
        at += 1;
    }
    proof {
        assert(rows.subrange(0, at as int) =~= rows);
    }
    views
}

/// What the service returns for the outcome of an insert: what a reader is
/// shown at `now` of the ticket that was stored, or the error as it came.
pub fn created_view(outcome: Result<Ticket, StorageError>, now: Timestamp) -> (made: Result<
    TicketResponse,
    StorageError,
>)
    ensures
        match outcome {
            Ok(ticket) => made matches Ok(response) && response@ == shown(ticket@, now),
            Err(error) => made == Err::<TicketResponse, StorageError>(error),
        },
{
    match outcome {
        Ok(ticket) => Ok(TicketResponse::from(&ticket, now)),
        Err(error) => Err(error),
    }
}

/// What the service returns for the outcome of a lookup or of an update:
/// what a reader is shown at `now` of the ticket that came back, nothing
/// where none came back, and the error as it came where the store failed. A
/// failure is never passed off as absence.
pub fn found_view(outcome: Result<Option<Ticket>, StorageError>, now: Timestamp) -> (found: Result<
    Option<TicketResponse>,
    StorageError,
>)
    ensures
        match outcome {
            Ok(Some(ticket)) => found matches Ok(Some(response)) && response@ == shown(
                ticket@,
                now,
            ),
            Ok(None) => found matches Ok(None),
            Err(error) => found == Err::<Option<TicketResponse>, StorageError>(error),
        },
{
    match outcome {
        Ok(Some(ticket)) => Ok(Some(TicketResponse::from(&ticket, now))),
        Ok(None) => Ok(None),
        Err(error) => Err(error),
    }
}

/// What the service returns for the outcome of reading the whole table: what
/// a reader is shown at `now` of the tickets that `selection` shows, in the
/// order in which they came, or the error as it came.
pub fn listed_views(
    outcome: Result<Vec<Ticket>, StorageError>,
    selection: &Selection,
    now: Timestamp,
) -> (listed: Result<Vec<TicketResponse>, StorageError>)
    ensures
        match outcome {
            Ok(tickets) => listed matches Ok(views) && responses_of(views@) == shown_all(
                selected(models_of(tickets@), selection@),
                now,
            ),
            Err(error) => listed == Err::<Vec<TicketResponse>, StorageError>(error),
        },
{
    match outcome {
        Ok(tickets) => Ok(select_views(&tickets, selection, now)),
        Err(error) => Err(error),
    }
}

/// The service over one table of tickets.
pub struct TicketService {
    repo: TicketRepository,
}

impl View for TicketService {
    type V = TableModel;

    closed spec fn view(&self) -> TableModel {
        self.repo@
    }
}

impl TicketService {
    /// The service over the table `repo`.
    pub fn new(repo: TicketRepository) -> (service: TicketService)
        ensures
            service@ == repo@,
    {
        TicketService { repo }
    }

    /// What a reader is shown at `now` of the tickets in whose title or
    /// description `search_term` occurs.
    pub fn get_by_text_search(&self, search_term: &str, now: Timestamp) -> (listed: Result<
        Vec<TicketResponse>,
        StorageError,
    >)
        ensures
            listed matches Ok(views) && responses_of(views@) == shown_all(
                selected(self@.rows, SelectionModel::Mentioning(search_term@)),
                now,
            ),
    {
        let selection = Selection::Mentioning(String::from_str(search_term));
        listed_views(self.repo.get_all(), &selection, now)
    }

    /// What a reader is shown at `now` of the tickets whose status is
    /// exactly `status`.
    pub fn get_by_status(&self, status: String, now: Timestamp) -> (listed: Result<
        Vec<TicketResponse>,
        StorageError,
    >)
        ensures
            listed matches Ok(views) && responses_of(views@) == shown_all(
                selected(self@.rows, SelectionModel::WithStatus(status@)),
                now,
            ),
    {
        let selection = Selection::WithStatus(status);
        listed_views(self.repo.get_all(), &selection, now)
    }

    /// What a reader is shown at `now` of the ticket with the identifier
    /// `id`, or nothing if there is no such ticket. A table in memory never
    /// fails to answer.
    pub fn get_by_id(&self, id: u128, now: Timestamp) -> (found: Result<
        Option<TicketResponse>,
        StorageError,
    >)
        ensures
            found matches Ok(view) && response_of(view) == shown_by_id(self@, id, now),
    {
        found_view(self.repo.get_by_id(id), now)
    }

    /// Applies `payload` at `now` to the ticket with the identifier `id` and
    /// returns what a reader is then shown of it. Returns nothing, and
    /// changes nothing, if there is no such ticket. A payload that would take
    /// the title from the ticket is refused with an error, and nothing
    /// changes.
    pub fn update(&mut self, id: u128, payload: UpdateTicketRequest, now: Timestamp) -> (found:
        Result<Option<TicketResponse>, StorageError>)
        ensures
            final(self)@.well_formed(),
            match found {
                Ok(Some(response)) => {
                    &&& old(self)@.has(id)
                    &&& payload@.keeps_title()
                    &&& final(self)@ == old(self)@.with_updated(id, payload@, now)
                    &&& Some(response@) == shown_by_id(final(self)@, id, now)
                },
                Ok(None) => !old(self)@.has(id) && final(self)@ == old(self)@,
                Err(error) => {
                    &&& old(self)@.has(id)
                    &&& !payload@.keeps_title()
                    &&& final(self)@ == old(self)@
                    &&& error is EmptyTitle
                },
            },
    {
        let outcome = self.repo.update(id, payload, now);
        found_view(outcome, now)
    }

    /// What a reader is shown at `now` of every ticket.
    pub fn get_all(&self, now: Timestamp) -> (listed: Result<Vec<TicketResponse>, StorageError>)
        ensures
            listed matches Ok(views) && responses_of(views@) == shown_all(
                selected(self@.rows, SelectionModel::All),
                now,
            ),
    {
        listed_views(self.repo.get_all(), &Selection::All, now)
    }

    /// Removes the ticket with the identifier `id` and says whether there was
    /// one to remove.
    pub fn delete(&mut self, id: u128) -> (removed: Result<bool, StorageError>)
        ensures
            final(self)@.well_formed(),
            removed matches Ok(gone) && gone == old(self)@.has(id),
            final(self)@ == if old(self)@.has(id) {
                old(self)@.without(id)
            } else {
                old(self)@
            },
    {
        self.repo.delete(id)
    }

    /// Stores a new ticket made from `payload` at `now` and returns what a
    /// reader is shown of it at that instant. A payload that the table
    /// refuses leaves the table as it was.
    pub fn create(&mut self, payload: CreateTicketRequest, now: Timestamp) -> (made: Result<
        TicketResponse,
        StorageError,
    >)
        ensures
            final(self)@.well_formed(),
            match made {
                Ok(response) => {
                    &&& old(self)@.admits(payload@)
                    &&& final(self)@ == old(self)@.with_inserted(payload@, now)
                    &&& response@ == shown(new_row(old(self)@.next_id, payload@, now), now)
                },
                Err(error) => {
                    &&& !old(self)@.admits(payload@)
                    &&& final(self)@ == old(self)@
                    &&& error == old(self)@.refusal(payload@)
                },
            },
    {
        let outcome = self.repo.create(payload, now);
        created_view(outcome, now)
    }
}

} // verus!
