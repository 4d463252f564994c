//! The table of tickets and the five statements that read and write it.

use crate::clock::Timestamp;
use crate::models::{
    new_row, patched, CreateModel, CreateTicketRequest, Ticket, TicketModel, UpdateModel,
    UpdateTicketRequest,
};
use vstd::prelude::*;

verus! {

/// The identifier that the first ticket of a table gets.
pub const FIRST_ID: u128 = 1;

/// Why the table refused a statement.
#[derive(Debug)]
pub enum StorageError {
    /// The statement would have left a ticket without a title.
    EmptyTitle,
    /// No identifier is left for a new ticket.
    OutOfIdentifiers,
    /// The store behind the table failed; the text is the store's own.
    Backend(String),
}

impl StorageError {
    /// The words in which the error is reported.
    pub open spec fn text(self) -> Seq<char> {
        match self {
            StorageError::EmptyTitle => "a ticket must have a title"@,
            StorageError::OutOfIdentifiers => "no identifier is left for a new ticket"@,
            StorageError::Backend(words) => words@,
        }
    }

    /// The words in which the error is reported.
    pub fn message(&self) -> (words: String)
        ensures
            words@ == self.text(),
    {
        match self {
            StorageError::EmptyTitle => String::from_str("a ticket must have a title"),
            StorageError::OutOfIdentifiers => String::from_str(
                "no identifier is left for a new ticket",
            ),
            StorageError::Backend(words) => words.clone(),
        }
    }
}

/// Whether a removal that took `rows_affected` rows from a table took a
/// ticket from it.
pub fn removed_any(rows_affected: u64) -> (removed: bool)
    ensures
        removed == (rows_affected > 0),
{
    rows_affected > 0
}

/// What a table answers to an update that would take the title from a
/// ticket, given what a lookup of that ticket returned: the update is refused
/// where the ticket is there, there is nothing to update where it is not, and
/// a lookup that failed fails the update with the same error.
pub fn refused_update(found: Result<Option<Ticket>, StorageError>) -> (changed: Result<
    Option<Ticket>,
    StorageError,
>)
    ensures
        match found {
            Ok(Some(_)) => changed matches Err(error) && error is EmptyTitle,
            Ok(None) => changed matches Ok(None),
            Err(error) => changed == Err::<Option<Ticket>, StorageError>(error),
        },
{
    match found {
        Ok(Some(_)) => Err(StorageError::EmptyTitle),
        Ok(None) => Ok(None),
        Err(error) => Err(error),
    }
}

/// A table of tickets as contracts see it: its rows in the order in which
/// they were inserted, and the identifier that the next row will get.
pub struct TableModel {
    pub rows: Seq<TicketModel>,
    pub next_id: u128,
}

impl TableModel {
    /// The table that holds no ticket yet.
    pub open spec fn empty() -> TableModel {
        TableModel { rows: Seq::empty(), next_id: FIRST_ID }
    }

    /// What holds of every table: each row is a well-formed ticket, no two
    /// rows share an identifier, and no row has an identifier that is still
    /// to be given out.
    pub open spec fn well_formed(self) -> bool {
        &&& forall|i: int|
            0 <= i < self.rows.len() ==> {
                &&& (#[trigger] self.rows[i]).well_formed()
                &&& self.rows[i].id < self.next_id
            }
        &&& forall|i: int, j: int|
            0 <= i < j < self.rows.len() ==> {
                (#[trigger] self.rows[i]).id != (#[trigger] self.rows[j]).id
            }
    }

    /// Whether a row has the identifier `id`.
    pub open spec fn has(self, id: u128) -> bool {
        exists|i: int| 0 <= i < self.rows.len() && (#[trigger] self.rows[i]).id == id
    }

    /// Where the row with the identifier `id` stands, if there is one.
    pub open spec fn index_of(self, id: u128) -> int {
        choose|i: int| 0 <= i < self.rows.len() && (#[trigger] self.rows[i]).id == id
    }

    /// The row with the identifier `id`, if there is one.
    pub open spec fn get(self, id: u128) -> Option<TicketModel> {
        if self.has(id) {
            Some(self.rows[self.index_of(id)])
        } else {
            None
        }
    }

    /// Whether the table takes a new row made from `request`.
    pub open spec fn admits(self, request: CreateModel) -> bool {
        request.title.len() > 0 && self.next_id < u128::MAX
    }

    /// Why the table does not take a new row made from `request`, where it
    /// does not: for want of a title, or else for want of an identifier.
    pub open spec fn refusal(self, request: CreateModel) -> StorageError {
        if request.title.len() == 0 {
            StorageError::EmptyTitle
        } else {
            StorageError::OutOfIdentifiers
        }
    }

    /// The table after a row made from `request` was inserted at `now`.
    pub open spec fn with_inserted(self, request: CreateModel, now: Timestamp) -> TableModel {
        TableModel {
            rows: self.rows.push(new_row(self.next_id, request, now)),
            next_id: (self.next_id + 1) as u128,
        }
    }

    /// The table after `request` was applied at `now` to the row with the
    /// identifier `id`.
    pub open spec fn with_updated(self, id: u128, request: UpdateModel, now: Timestamp) -> TableModel {
        let at = self.index_of(id);
        TableModel { rows: self.rows.update(at, patched(self.rows[at], request, now)), ..self }
    }

    /// The table without the row that has the identifier `id`.
    pub open spec fn without(self, id: u128) -> TableModel {
        TableModel { rows: self.rows.remove(self.index_of(id)), ..self }
    }
}

/// The tickets of `rows` as contracts see them.
pub open spec fn models_of(rows: Seq<Ticket>) -> Seq<TicketModel> {
    rows.map_values(|ticket: Ticket| ticket@)
}

/// The ticket of `found`, if there is one, as contracts see it.
pub open spec fn model_of(found: Option<Ticket>) -> Option<TicketModel> {
    match found {
        Some(ticket) => Some(ticket@),
        None => None,
    }
}

/// In a well-formed table a row is found where it stands.
pub proof fn lemma_index_of(table: TableModel, at: int)
    requires
        table.well_formed(),
        0 <= at < table.rows.len(),
    ensures
        table.has(table.rows[at].id),
        table.index_of(table.rows[at].id) == at,
        table.get(table.rows[at].id) == Some(table.rows[at]),
{
}

/// The table of tickets.
pub struct TicketRepository {
    rows: Vec<Ticket>,
    next_id: u128,
}

impl View for TicketRepository {
    type V = TableModel;

    closed spec fn view(&self) -> TableModel {
        TableModel { rows: models_of(self.rows@), next_id: self.next_id }
    }
}

impl TicketRepository {
    #[verifier::type_invariant]
    spec fn sound(self) -> bool {
        self@.well_formed()
    }

    /// A table that holds no ticket yet.
    pub fn new() -> (table: TicketRepository)
        ensures
            table@ == TableModel::empty(),
            table@.well_formed(),
    {
        TicketRepository::starting_at(FIRST_ID)
    }

    /// A table that holds no ticket yet and gives its first ticket the
    /// identifier `first_id`.
    pub fn starting_at(first_id: u128) -> (table: TicketRepository)
        ensures
            table@ == (TableModel { rows: Seq::empty(), next_id: first_id }),
            table@.well_formed(),
    {
        let table = TicketRepository { rows: Vec::new(), next_id: first_id };
        assert(table@.rows =~= Seq::empty());
        table
    }

    /// Where the row with the identifier `id` stands, if there is one.
    fn position(&self, id: u128) -> (found: Option<usize>)
        ensures
            self@.well_formed(),
            found is Some <==> self@.has(id),
            found matches Some(at) ==> at < self.rows.len() && self@.index_of(id) == at,
    {
        proof {
            use_type_invariant(self);
        }
        let mut at: usize = 0;
        while at < self.rows.len()
            invariant
                at <= self.rows.len(),
                self@.well_formed(),
                forall|i: int| 0 <= i < at ==> (#[trigger] self@.rows[i]).id != id,
            decreases self.rows.len() - at,
        {
            if self.rows[at].id == id {
                proof {
                    lemma_index_of(self@, at as int);
                }
                return Some(at);
            }
            at += 1;
        }
        None
    }

    /// Stores a new ticket made from `payload` at the instant `now`, under an
    /// identifier that no ticket of the table has or had, and returns it. A
    /// payload without a title is refused, and so is any payload once the
    /// identifiers have run out; the table then stays as it was.
    pub fn create(&mut self, payload: CreateTicketRequest, now: Timestamp) -> (made: Result<
        Ticket,
        StorageError,
    >)
        ensures
            final(self)@.well_formed(),
            match made {
                Ok(ticket) => {
                    &&& old(self)@.admits(payload@)
                    &&& ticket@ == new_row(old(self)@.next_id, payload@, now)
                    &&& final(self)@ == old(self)@.with_inserted(payload@, now)
                },
                Err(error) => {
                    &&& !old(self)@.admits(payload@)
                    &&& final(self)@ == old(self)@
                    &&& error == old(self)@.refusal(payload@)
                },
            },
    {
        proof {
            use_type_invariant(&*self);
            use_type_invariant(&now);
        }
        if !payload.has_title() {
            return Err(StorageError::EmptyTitle);
        }
        if self.next_id == u128::MAX {
            return Err(StorageError::OutOfIdentifiers);
        }
        let ticket = Ticket {
            id: self.next_id,
            title: payload.title,
            description: payload.description,
            status: payload.status,
            created_at: now,
            updated_at: now,
        };
        let stored = ticket.clone();
        // The rows leave the table while they change, so that what stays
        // behind is a well-formed table at every step.
        let mut rows: Vec<Ticket> = Vec::new();
        std::mem::swap(&mut rows, &mut self.rows);
        self.next_id = self.next_id + 1;
        rows.push(stored);
        proof {
            assert(models_of(rows@) =~= old(self)@.rows.push(ticket@));
        }
        self.rows = rows;
        Ok(ticket)
    }

    /// The ticket with the identifier `id`, or none if the table has no such
    /// ticket. A table in memory never fails to answer.
    pub fn get_by_id(&self, id: u128) -> (found: Result<Option<Ticket>, StorageError>)
        ensures
            found matches Ok(ticket) && model_of(ticket) == self@.get(id),
    {
        match self.position(id) {
            Some(at) => Ok(Some(self.rows[at].clone())),
            None => Ok(None),
        }
    }

    /// Every ticket of the table, in the order in which they were inserted.
    /// A table in memory never fails to answer.
    pub fn get_all(&self) -> (all: Result<Vec<Ticket>, StorageError>)
        ensures
            all matches Ok(tickets) && models_of(tickets@) == self@.rows,
    {
        let mut tickets: Vec<Ticket> = Vec::new();
        let mut at: usize = 0;
        while at < self.rows.len()
            invariant
                at <= self.rows.len(),
                tickets@ == self.rows@.subrange(0, at as int),
            decreases self.rows.len() - at,
        {
            tickets.push(self.rows[at].clone());
            at += 1;
        }
        Ok(tickets)
    }

    /// Applies `payload` at the instant `now` to the ticket with the
    /// identifier `id` and returns the ticket as it then is: the fields that
    /// the payload carries are replaced, the others stay, and the time of the
    /// last change moves to `now`, unless `now` lies before it. Returns none,
    /// and changes nothing, if the table has no such ticket. A payload that
    /// would take the title from a ticket of the table is refused, and the
    /// table stays as it was.
    pub fn update(&mut self, id: u128, payload: UpdateTicketRequest, now: Timestamp) -> (changed:
        Result<Option<Ticket>, StorageError>)
        ensures
            final(self)@.well_formed(),
            match changed {
                Ok(Some(ticket)) => {
                    &&& old(self)@.has(id)
                    &&& payload@.keeps_title()
                    &&& final(self)@ == old(self)@.with_updated(id, payload@, now)
                    &&& Some(ticket@) == final(self)@.get(id)
                },
                Ok(None) => !old(self)@.has(id) && final(self)@ == old(self)@,
                Err(error) => {
                    &&& old(self)@.has(id)
                    &&& !payload@.keeps_title()
                    &&& final(self)@ == old(self)@
                    &&& error is EmptyTitle
                },
            },
    {
        proof {
            use_type_invariant(&now);
        }
        let at: usize = match self.position(id) {
            Some(at) => at,
            None => {
                return Ok(None);
            },
        };
        if !payload.keeps_title() {
            return Err(StorageError::EmptyTitle);
        }
        let row = &self.rows[at];
        let title: String = match payload.title {
            Some(title) => title,
            None => row.title.clone(),
        };
        let description: String = match payload.description {
            Some(description) => description,
            None => row.description.clone(),
        };
        let status: String = match payload.status {
            Some(status) => status,
            None => row.status.clone(),
        };
        let updated_at: Timestamp = if row.updated_at.not_after(&now) {
            now
        } else {
            row.updated_at
        };
        let ticket = Ticket {
            id: row.id,
            title,
            description,
            status,
            created_at: row.created_at,
            updated_at,
        };
        let stored = ticket.clone();
        let mut rows: Vec<Ticket> = Vec::new();
        std::mem::swap(&mut rows, &mut self.rows);
        rows.set(at, stored);
        proof {
            assert(models_of(rows@) =~= old(self)@.rows.update(at as int, ticket@));
        }
        self.rows = rows;
        proof {
            lemma_index_of(self@, at as int);
        }
        Ok(Some(ticket))
    }

    /// Removes the ticket with the identifier `id` and says whether there was
    /// one to remove. A table in memory never fails to answer.
    pub fn delete(&mut self, id: u128) -> (removed: Result<bool, StorageError>)
        ensures
            final(self)@.well_formed(),
            removed matches Ok(gone) && gone == old(self)@.has(id),
            final(self)@ == if old(self)@.has(id) {
                old(self)@.without(id)
            } else {
                old(self)@
            },
    {
        let at: usize = match self.position(id) {
            Some(at) => at,
            None => {
                return Ok(false);
            },
        };
        let mut rows: Vec<Ticket> = Vec::new();
        std::mem::swap(&mut rows, &mut self.rows);
        rows.remove(at);
        proof {
            assert(models_of(rows@) =~= old(self)@.rows.remove(at as int));
        }
        self.rows = rows;
        Ok(true)
    }
}

} // verus!
