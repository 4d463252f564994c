//! What holds of the tracker as a whole, stated over the models that the
//! contracts of its functions speak of.

use crate::clock::{whole_days_between, Timestamp, NANOS_PER_DAY};
use crate::controllers::{
    answer_created, answer_found, answer_listed, answer_removed, conflict_words,
    create_ticket_at, delete_ticket_in, get_ticket_at, get_tickets_at, not_found_words,
    update_ticket_at, QueryModel, StatusCode,
};
use crate::models::{CreateModel, TicketModel, UpdateModel};
use crate::repositories::{lemma_index_of, StorageError, TableModel};
use crate::services::{selected, selects, SelectionModel};
use crate::text::occurs_in;
use crate::views::{color_of, shown};
use vstd::prelude::*;

verus! {

/// The empty table is well formed, and so is every table that an insert, an
/// update or a removal makes of a well-formed one: each ticket has a title
/// and was not changed before it was created, and no two tickets share an
/// identifier.
pub proof fn law_table_stays_well_formed(
    table: TableModel,
    id: u128,
    create: CreateModel,
    update: UpdateModel,
    now: Timestamp,
)
    requires
        table.well_formed(),
        now.valid(),
    ensures
        TableModel::empty().well_formed(),
        create_ticket_at(table, create, now).0.well_formed(),
        update_ticket_at(table, id, update, now).0.well_formed(),
        delete_ticket_in(table, id).0.well_formed(),
{
}

/// A ticket that was created is found again under the identifier that the
/// reply to its creation names, with the title of the request. In that reply
/// it is zero days old and of normal priority, and so it is shown for as long
/// as less than a day has gone by since.
pub proof fn law_created_ticket_is_found(
    table: TableModel,
    request: CreateModel,
    now: Timestamp,
    later: Timestamp,
)
    requires
        table.well_formed(),
        table.admits(request),
        now.valid(),
        later.valid(),
    ensures
        ({
            let (after, answer) = create_ticket_at(table, request, now);
            &&& answer matches Ok((status, created))
            &&& status == StatusCode::Created
            &&& created.title == request.title
            &&& created.days_old == 0
            &&& created.priority == "Normal"@
            &&& get_ticket_at(after, created.id, later) matches Ok((found_status, found))
            &&& found_status == StatusCode::Success
            &&& found.id == created.id
            &&& found.title == request.title
            &&& found.status_display == created.status_display
            &&& found.status_color == created.status_color
            &&& found.days_old == whole_days_between(now, later)
            &&& 0 <= later.total_nanos() - now.total_nanos() < NANOS_PER_DAY ==> found == created
        }),
{
    lemma_index_of(table.with_inserted(request, now), table.rows.len() as int);
}

/// An update replaces the fields that the request carries and leaves the
/// others as they were: one that carries a status alone leaves title and
/// description unchanged. The identifier and the time of creation stay, the
/// time of the last change does not move back, and it is the instant of the
/// update unless the clock fell behind. No other ticket changes.
pub proof fn law_update_is_partial(
    table: TableModel,
    id: u128,
    request: UpdateModel,
    now: Timestamp,
)
    requires
        table.well_formed(),
        table.has(id),
        request.keeps_title(),
        now.valid(),
    ensures
        ({
            let (after, answer) = update_ticket_at(table, id, request, now);
            let before = table.get(id)->0;
            &&& after.get(id) matches Some(row)
            &&& answer matches Ok((status, response))
            &&& status == StatusCode::Success
            &&& response == shown(row, now)
            &&& row.id == id
            &&& row.created_at == before.created_at
            &&& request.title is None ==> row.title == before.title
            &&& request.description is None ==> row.description == before.description
            &&& request.status is None ==> row.status == before.status
            &&& request.title matches Some(title) ==> row.title == title
            &&& request.description matches Some(description) ==> row.description == description
            &&& request.status matches Some(status) ==> row.status == status
            &&& before.updated_at.total_nanos() <= row.updated_at.total_nanos()
            &&& before.updated_at.total_nanos() <= now.total_nanos() ==> row.updated_at == now
            &&& forall|other: u128| other != id ==> #[trigger] after.get(other) == table.get(other)
            &&& after.rows.len() == table.rows.len()
        }),
{
    let at = table.index_of(id);
    let after = table.with_updated(id, request, now);
    lemma_index_of(after, at);
    assert forall|other: u128| other != id implies #[trigger] after.get(other) == table.get(
        other,
    ) by {
        if table.has(other) {
            lemma_index_of(after, table.index_of(other));
        }
    }
}

/// Removing a ticket that is not there is answered with 404 and changes
/// nothing; it is never an error. Removing a ticket that is there is answered
/// with 204, and the ticket is then not there: a second removal is answered
/// with 404. No other ticket changes.
pub proof fn law_delete_twice(table: TableModel, id: u128)
    requires
        table.well_formed(),
    ensures
        ({
            let (after, first) = delete_ticket_in(table, id);
            let (last, second) = delete_ticket_in(after, id);
            &&& table.has(id) ==> first == Ok::<StatusCode, (StatusCode, Seq<char>)>(
                StatusCode::NoContent,
            )
            &&& !table.has(id) ==> first == Err::<StatusCode, (StatusCode, Seq<char>)>(
                (StatusCode::NotFound, not_found_words()),
            )
            &&& !table.has(id) ==> after == table
            &&& !after.has(id)
            &&& second == Err::<StatusCode, (StatusCode, Seq<char>)>(
                (StatusCode::NotFound, not_found_words()),
            )
            &&& last == after
            &&& forall|other: u128| other != id ==> #[trigger] after.get(other) == table.get(other)
        }),
{
    if table.has(id) {
        let at = table.index_of(id);
        let after = table.without(id);
        assert forall|other: u128| other != id implies #[trigger] after.get(other) == table.get(
            other,
        ) by {
            if table.has(other) {
                let there = table.index_of(other);
                let to = if there < at { there } else { there - 1 };
                lemma_index_of(after, to);
            }
        }
    }
}

/// An update that would take the title from a ticket changes nothing. Where
/// the ticket is there it is answered with 500 and the words of the refusal;
/// where it is not, with 404, as every request for a ticket that is not
/// there.
pub proof fn law_refused_update_changes_nothing(
    table: TableModel,
    id: u128,
    request: UpdateModel,
    now: Timestamp,
)
    requires
        !request.keeps_title(),
    ensures
        ({
            let (after, answer) = update_ticket_at(table, id, request, now);
            &&& after == table
            &&& answer matches Err((status, words))
            &&& table.has(id) ==> status == StatusCode::InternalServerError && words
                == StorageError::EmptyTitle.text()
            &&& !table.has(id) ==> status == StatusCode::NotFound && words == not_found_words()
        }),
{
}

/// A store that fails is never answered as if the ticket were not there. A
/// failure is answered with its own words and with 500 on a request to read,
/// to change or to remove one ticket and on a listing, and with 400 on a
/// request to create a ticket. Absence alone is answered with 404.
pub proof fn law_failure_is_not_absence(error: StorageError)
    ensures
        answer_found(Err(error)) matches Err((status, words)) && status
            == StatusCode::InternalServerError && words == error.text(),
        answer_removed(Err(error)) matches Err((status, words)) && status
            == StatusCode::InternalServerError && words == error.text(),
        answer_listed(Err(error)) matches Err((status, words)) && status
            == StatusCode::InternalServerError && words == error.text(),
        answer_created(Err(error)) matches Err((status, words)) && status
            == StatusCode::BadRequest && words == error.text(),
        answer_found(Ok(None)) matches Err((status, words)) && status == StatusCode::NotFound
            && words == not_found_words(),
        answer_removed(Ok(false)) matches Err((status, words)) && status == StatusCode::NotFound
            && words == not_found_words(),
        StatusCode::InternalServerError.number() == 500,
        StatusCode::NotFound.number() == 404,
{
}

/// A request for a listing that asks for a text and for a status at once is
/// answered with 400, whatever the text, the status, the table and the hour.
pub proof fn law_text_and_status_conflict(table: TableModel, query: QueryModel, now: Timestamp)
    requires
        query.q is Some,
        query.status is Some,
    ensures
        get_tickets_at(table, query, now) matches Err((status, words)) && status
            == StatusCode::BadRequest && words == conflict_words(),
        StatusCode::BadRequest.number() == 400,
{
}

/// A ticket is of high priority from the eighth day on and of normal
/// priority before: one created exactly seven days ago is of normal
/// priority, one created eight days ago of high.
pub proof fn law_priority_boundary(ticket: TicketModel, now: Timestamp)
    requires
        ticket.created_at.valid(),
        now.valid(),
    ensures
        ({
            let age = now.total_nanos() - ticket.created_at.total_nanos();
            let response = shown(ticket, now);
            &&& "High"@ != "Normal"@
            &&& age >= 8 * NANOS_PER_DAY <==> response.priority == "High"@
            &&& age < 8 * NANOS_PER_DAY <==> response.priority == "Normal"@
            &&& age == 7 * NANOS_PER_DAY ==> response.days_old == 7 && response.priority == "Normal"@
            &&& age == 8 * NANOS_PER_DAY ==> response.days_old == 8 && response.priority == "High"@
        }),
{
    reveal_strlit("High");
    reveal_strlit("Normal");
    assert("High"@.len() != "Normal"@.len());
}

/// "To Do" is shown in red, "In Progress" in yellow, and every other status,
/// the empty one too, in green.
pub proof fn law_status_colors(status: Seq<char>)
    ensures
        color_of("To Do"@) == "#red"@,
        color_of("In Progress"@) == "#yellow"@,
        status != "To Do"@ && status != "In Progress"@ ==> color_of(status) == "#green"@,
        color_of(Seq::empty()) == "#green"@,
        "#red"@ != "#yellow"@ && "#red"@ != "#green"@ && "#yellow"@ != "#green"@,
{
    reveal_strlit("To Do");
    reveal_strlit("In Progress");
    reveal_strlit("#red");
    reveal_strlit("#yellow");
    reveal_strlit("#green");
    assert("To Do"@.len() != "In Progress"@.len());
}

/// The age in days is the number of whole days that have gone by: so many
/// days fit into the time since the ticket was created, and one more does
/// not. Where the clock stands before the time of creation the age is that of
/// the mirrored case, negated. The age of any ticket at any instant fits into
/// 32 bits.
pub proof fn law_whole_days(earlier: Timestamp, later: Timestamp)
    requires
        earlier.valid(),
        later.valid(),
    ensures
        ({
            let apart = later.total_nanos() - earlier.total_nanos();
            let days = whole_days_between(earlier, later);
            &&& apart >= 0 ==> days * NANOS_PER_DAY <= apart < (days + 1) * NANOS_PER_DAY
            &&& apart <= 0 ==> (days - 1) * NANOS_PER_DAY < apart <= days * NANOS_PER_DAY
            &&& whole_days_between(later, earlier) == -days
            &&& i32::MIN < days < i32::MAX
        }),
{
}

/// A listing shows the tickets that its selection selects and no others:
/// every ticket that it shows is one of the table and is selected, and every
/// ticket of the table that is selected is shown.
pub proof fn law_listing_is_exact(rows: Seq<TicketModel>, selection: SelectionModel)
    ensures
        forall|i: int|
            0 <= i < selected(rows, selection).len() ==> rows.contains(
                #[trigger] selected(rows, selection)[i],
            ) && selects(selection, selected(rows, selection)[i]),
        forall|i: int|
            0 <= i < rows.len() && selects(selection, #[trigger] rows[i]) ==> selected(
                rows,
                selection,
            ).contains(rows[i]),
        selected(rows, selection).len() <= rows.len(),
{
    let keep = |ticket: TicketModel| selects(selection, ticket);
    assert forall|i: int| 0 <= i < rows.filter(keep).len() implies rows.contains(
        #[trigger] rows.filter(keep)[i],
    ) by {
        lemma_kept_is_member(rows, keep, i);
    }
}

/// What a filter keeps is an entry of what it was given.
proof fn lemma_kept_is_member<A>(items: Seq<A>, keep: spec_fn(A) -> bool, i: int)
    requires
        0 <= i < items.filter(keep).len(),
    ensures
        items.contains(items.filter(keep)[i]),
    decreases items.len(),
{
    reveal(Seq::filter);
    let front = items.drop_last();
    if i < front.filter(keep).len() {
        lemma_kept_is_member(front, keep, i);
    }
}

/// The empty text occurs in every text, and every text occurs in itself, at
/// its start and at its end. A text that occurs in another is no longer than
/// that one, and where it is as long it is the same text: the search goes by
/// the letters as they stand.
pub proof fn law_occurrence(needle: Seq<char>, hay: Seq<char>, more: Seq<char>)
    ensures
        occurs_in(Seq::empty(), hay),
        occurs_in(hay, hay),
        occurs_in(hay, hay + more),
        occurs_in(hay, more + hay),
        occurs_in(needle, hay) ==> needle.len() <= hay.len(),
        occurs_in(needle, hay) && needle.len() == hay.len() ==> needle == hay,
{
    assert(hay.subrange(0, 0) == Seq::<char>::empty());
    assert(hay.subrange(0, hay.len() as int) == hay);
    assert((hay + more).subrange(0, hay.len() as int) == hay);
    assert((more + hay).subrange(more.len() as int, (more + hay).len() as int) == hay);
}

/// A listing that asks for nothing in particular shows every ticket.
pub proof fn law_listing_of_all(rows: Seq<TicketModel>)
    ensures
        selected(rows, SelectionModel::All) == rows,
    decreases rows.len(),
{
    reveal(Seq::filter);
    if rows.len() > 0 {
        law_listing_of_all(rows.drop_last());
    }
}

} // verus!
