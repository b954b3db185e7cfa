use vstd::prelude::*;

use crate::models::{
    detail_of_row, summary_of_row, Cell, ProductDetailsModel, ProductListModel,
};
use crate::reply::{
    bad_request, bare, created, internal_server_error, location_of, method_not_allowed,
    no_content, not_found, ok, Body, ContentType, Reply, STATUS_BAD_REQUEST, STATUS_CREATED,
    STATUS_INTERNAL_SERVER_ERROR, STATUS_METHOD_NOT_ALLOWED, STATUS_NOT_FOUND,
    STATUS_NO_CONTENT, STATUS_OK,
};
use crate::route::Operation;

verus! {

/// A statement for the store. Prices are 32-bit float bit patterns.
pub enum Statement {
    /// Adds a product with this name and price; the store picks its id.
    InsertProduct(String, u32),
    /// Asks for the id that the last insert of this session was given.
    LastInsertId,
    /// Lists every product as an `(id, name)` row, in the store's order.
    SelectAll,
    /// Reads product `id` as a `(name, price)` row.
    SelectById(u64),
    /// Sets the name and price of product `id`, if there is one.
    UpdateProduct(u64, String, u32),
    /// Removes product `id`, if there is one.
    DeleteById(u64),
}

/// What the handler asks of its caller next.
pub enum Action {
    /// Run a statement that returns no rows, then report `Executed` or `Failed`.
    Execute(Statement),
    /// Run a statement that returns rows, then report `Rows` or `Failed`.
    Query(Statement),
    /// Send this reply; the request is done.
    Respond(Reply),
}

/// What came of the last action.
pub enum Outcome {
    Executed,
    Rows(Vec<Vec<Cell>>),
    /// The store could not be reached, or refused the statement.
    Failed,
}

/// The step that a handler waits on.
#[derive(PartialEq, Eq, Structural, Clone, Copy, Debug)]
pub enum Pending {
    Insert,
    LastId,
    List,
    Detail(u64),
    Update(u64),
    Remove,
}

/// A 500 reply whose plain-text diagnostic reads `msg`.
pub open spec fn is_internal_error(r: Reply, msg: Seq<char>) -> bool {
    &&& r.status == STATUS_INTERNAL_SERVER_ERROR
    &&& r.content_type == Some(ContentType::PlainText)
    &&& r.location is None
    &&& r.body is Text
    &&& r.body->Text_0@ == msg
}

/// A 201 reply that points at product `id`.
pub open spec fn is_created(r: Reply, id: u64) -> bool {
    &&& r.status == STATUS_CREATED
    &&& r.content_type is None
    &&& r.location is Some
    &&& r.location->0@ == location_of(id)
    &&& r.body is Empty
}

/// A 200 reply with a JSON body.
pub open spec fn is_ok(r: Reply, body: Body) -> bool {
    r == (Reply { status: STATUS_OK, content_type: Some(ContentType::Json), location: None, body })
}

/// The diagnostic of a create whose id query found no row.
pub open spec fn msg_not_persisted() -> Seq<char> {
    "Could not persist product"@
}

/// The diagnostic of a delete that the store refused.
pub open spec fn msg_delete_failed() -> Seq<char> {
    "Error while deleting product"@
}

/// The listing that a set of `(id, name)` rows reads as, if each row does.
pub open spec fn listing_of(rows: Seq<Vec<Cell>>) -> Option<Seq<ProductListModel>> {
    if forall|i: int| 0 <= i < rows.len() ==> (#[trigger] summary_of_row(rows[i]@)) is Some {
        Some(Seq::new(rows.len(), |i: int| summary_of_row(rows[i]@)->0))
    } else {
        None
    }
}

/// How each operation starts: the terminal ones answer at once, the others
/// issue their first statement.
pub open spec fn begins(op: Operation, r: (Option<Pending>, Action)) -> bool {
    match op {
        Operation::Create(name, price) => r == (
            Some(Pending::Insert),
            Action::Execute(Statement::InsertProduct(name, price)),
        ),
        Operation::ReadAll => r == (Some(Pending::List), Action::Query(Statement::SelectAll)),
        Operation::ReadById(id) => r == (
            Some(Pending::Detail(id)),
            Action::Query(Statement::SelectById(id)),
        ),
        Operation::Update(id, name, price) => r == (
            Some(Pending::Update(id)),
            Action::Execute(Statement::UpdateProduct(id, name, price)),
        ),
        Operation::Delete(id) => r == (
            Some(Pending::Remove),
            Action::Execute(Statement::DeleteById(id)),
        ),
        Operation::BadRequest => r == (None::<Pending>, Action::Respond(bare(STATUS_BAD_REQUEST))),
        Operation::NotFound => r == (None::<Pending>, Action::Respond(bare(STATUS_NOT_FOUND))),
        Operation::MethodNotAllowed => r == (
            None::<Pending>,
            Action::Respond(bare(STATUS_METHOD_NOT_ALLOWED)),
        ),
        Operation::InternalServerError => r.0 is None && r.1 is Respond
            && is_internal_error(r.1->Respond_0, Seq::empty()),
    }
}

/// A final answer of 500 with the given diagnostic.
pub open spec fn fails_with(r: (Option<Pending>, Action), msg: Seq<char>) -> bool {
    r.0 is None && r.1 is Respond && is_internal_error(r.1->Respond_0, msg)
}

/// A final answer of exactly this reply.
pub open spec fn answers(r: (Option<Pending>, Action), reply: Reply) -> bool {
    r == (None::<Pending>, Action::Respond(reply))
}

/// How a pending step goes on from what came of its statement. A failure of
/// the store, a row that does not read as expected, or an outcome that does
/// not fit the step ends the request with a 500.
pub open spec fn advances(p: Pending, o: Outcome, r: (Option<Pending>, Action)) -> bool {
    match (p, o) {
        (Pending::Insert, Outcome::Executed) => r == (
            Some(Pending::LastId),
            Action::Query(Statement::LastInsertId),
        ),
        (Pending::LastId, Outcome::Rows(rows)) => if rows.len() == 0 {
            fails_with(r, msg_not_persisted())
        } else if rows[0]@.len() > 0 && rows[0]@[0] is Uint64 {
            r.0 is None && r.1 is Respond && is_created(r.1->Respond_0, rows[0]@[0]->Uint64_0)
        } else {
            fails_with(r, Seq::empty())
        },
        (Pending::List, Outcome::Rows(rows)) => match listing_of(rows@) {
            Some(list) => r.0 is None && r.1 is Respond && r.1->Respond_0.body is Listing
                && r.1->Respond_0.body->Listing_0@ == list
                && is_ok(r.1->Respond_0, r.1->Respond_0.body),
            None => fails_with(r, Seq::empty()),
        },
        (Pending::Detail(id), Outcome::Rows(rows)) => if rows.len() == 0 {
            answers(r, bare(STATUS_NOT_FOUND))
        } else {
            match detail_of_row(id, rows[0]@) {
                Some(d) => answers(r, (Reply {
                    status: STATUS_OK,
                    content_type: Some(ContentType::Json),
                    location: None,
                    body: Body::Detail(d),
                })),
                None => fails_with(r, Seq::empty()),
            }
        },
        (Pending::Update(id), Outcome::Executed) => r == (
            Some(Pending::Detail(id)),
            Action::Query(Statement::SelectById(id)),
        ),
        (Pending::Remove, Outcome::Executed) => answers(r, bare(STATUS_NO_CONTENT)),
        (Pending::Remove, Outcome::Failed) => fails_with(r, msg_delete_failed()),
        _ => fails_with(r, Seq::empty()),
    }
}

fn internal_error_empty() -> (r: Reply)
    ensures
        is_internal_error(r, Seq::empty()),
{
    let msg = String::new();
    internal_server_error(msg)
}

/// Starts serving an operation.
pub fn begin(op: Operation) -> (r: (Option<Pending>, Action))
    ensures
        begins(op, r),
{
    match op {
        Operation::Create(name, price) => (
            Some(Pending::Insert),
            Action::Execute(Statement::InsertProduct(name, price)),
        ),
        Operation::ReadAll => (Some(Pending::List), Action::Query(Statement::SelectAll)),
        Operation::ReadById(id) => (Some(Pending::Detail(id)), Action::Query(Statement::SelectById(id))),
        Operation::Update(id, name, price) => (
            Some(Pending::Update(id)),
            Action::Execute(Statement::UpdateProduct(id, name, price)),
        ),
        Operation::Delete(id) => (Some(Pending::Remove), Action::Execute(Statement::DeleteById(id))),
        Operation::BadRequest => (None, Action::Respond(bad_request())),
        Operation::NotFound => (None, Action::Respond(not_found())),
        Operation::MethodNotAllowed => (None, Action::Respond(method_not_allowed())),
        Operation::InternalServerError => (None, Action::Respond(internal_error_empty())),
    }
}

/// Reads every `(id, name)` row of a listing.
fn read_listing(rows: &Vec<Vec<Cell>>) -> (r: Result<Vec<ProductListModel>, ()>)
    ensures
        match listing_of(rows@) {
            Some(list) => r is Ok && r->Ok_0@ == list,
            None => r is Err,
        },
{
    let mut out: Vec<ProductListModel> = Vec::new();
    let mut i: usize = 0;
    while i < rows.len()
        invariant
            i <= rows@.len(),
            out@.len() == i,
            forall|j: int| 0 <= j < i ==> (#[trigger] summary_of_row(rows@[j]@)) is Some
                && out@[j] == summary_of_row(rows@[j]@)->0,
        decreases rows@.len() - i,
    {
        match ProductListModel::from_row(&rows[i]) {
            Ok(p) => out.push(p),
            Err(()) => {
                assert(summary_of_row(rows@[i as int]@) is None);
                return Err(());
            },
        }
        i = i + 1;
    }
    assert(out@ =~= Seq::new(rows@.len(), |j: int| summary_of_row(rows@[j]@)->0));
    Ok(out)
}

/// Goes on with a pending step, given what came of its statement.
pub fn advance(pending: Pending, outcome: Outcome) -> (r: (Option<Pending>, Action))
    ensures
        advances(pending, outcome, r),
{
    match (pending, outcome) {
        (Pending::Insert, Outcome::Executed) => (
            Some(Pending::LastId),
            Action::Query(Statement::LastInsertId),
        ),
        (Pending::LastId, Outcome::Rows(rows)) => {
            if rows.len() == 0 {
                let msg = String::from_str("Could not persist product");
                return (None, Action::Respond(internal_server_error(msg)));
            }
            let row = &rows[0];
            if row.len() > 0 {
                if let Cell::Uint64(id) = &row[0] {
                    return (None, Action::Respond(created(*id)));
                }
            }
            (None, Action::Respond(internal_error_empty()))
        },
        (Pending::List, Outcome::Rows(rows)) => match read_listing(&rows) {
            Ok(list) => (None, Action::Respond(ok(Body::Listing(list)))),
            Err(()) => (None, Action::Respond(internal_error_empty())),
        },
        (Pending::Detail(id), Outcome::Rows(rows)) => {
            if rows.len() == 0 {
                return (None, Action::Respond(not_found()));
            }
            match ProductDetailsModel::from_row(id, &rows[0]) {
                Ok(d) => (None, Action::Respond(ok(Body::Detail(d)))),
                Err(()) => (None, Action::Respond(internal_error_empty())),
            }
        },
        (Pending::Update(id), Outcome::Executed) => (
            Some(Pending::Detail(id)),
            Action::Query(Statement::SelectById(id)),
        ),
        (Pending::Remove, Outcome::Executed) => (None, Action::Respond(no_content())),
        (Pending::Remove, Outcome::Failed) => {
            let msg = String::from_str("Error while deleting product");
            (None, Action::Respond(internal_server_error(msg)))
        },
        _ => (None, Action::Respond(internal_error_empty())),
    }
}

} // verus!
