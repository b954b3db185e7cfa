use vstd::prelude::*;

use crate::handler::{
    advances, begins, is_created, listing_of, Action, Outcome, Pending, Statement,
};
use crate::models::{detail_of_row, summary_of_row, Cell, ProductCreateModel, ProductUpdateModel};
use crate::reply::{
    bare, decimal, location_of, Reply, STATUS_BAD_REQUEST, STATUS_METHOD_NOT_ALLOWED,
    STATUS_NOT_FOUND, STATUS_NO_CONTENT, STATUS_OK,
};
use crate::route::{
    all_digits, all_visible, digits_value, is_digit, last_segment, operation_of, parse_u64_spec,
    route_id, segment_start, unsigned_part, Operation, RequestMethod, PLUS, SLASH,
};

verus! {

/// The ids that the store holds after a statement ran on a store that held
/// `ids`: a delete removes its id, and the other statements that the laws
/// below speak of (reads, updates) leave the set as it was. An insert adds an
/// id that the store picks, which this model does not follow.
pub open spec fn ids_after(ids: Set<u64>, s: Statement) -> Set<u64>
    recommends
        !(s is InsertProduct),
{
    match s {
        Statement::DeleteById(id) => ids.remove(id),
        _ => ids,
    }
}

/// Rows that a store holding `ids` may answer `SelectById(id)` with: some
/// where it holds the id, none where it does not.
pub open spec fn answers_select(ids: Set<u64>, id: u64, rows: Seq<Vec<Cell>>) -> bool {
    ids.contains(id) <==> rows.len() > 0
}

proof fn lemma_decimal_digits(n: nat)
    ensures
        decimal(n).len() > 0,
        all_digits(decimal(n)),
        digits_value(decimal(n)) == n,
    decreases n,
{
    if n >= 10 {
        lemma_decimal_digits(n / 10);
        let d = decimal(n);
        assert(d.drop_last() =~= decimal(n / 10));
        assert(d.last() == (48 + n % 10) as u8);
        assert((d.last() - 48) as nat == n % 10);
        assert(digits_value(d) == (n / 10) * 10 + n % 10);
        assert((n / 10) * 10 + n % 10 == n);
        assert forall|i: int| 0 <= i < d.len() implies is_digit(#[trigger] d[i]) by {
            if i < d.len() - 1 {
                assert(d[i] == decimal(n / 10)[i]);
            }
        }
    } else {
        assert(decimal(n).drop_last() =~= Seq::<u8>::empty());
        assert(digits_value(Seq::<u8>::empty()) == 0);
        assert(decimal(n).last() == (48 + n) as u8);
    }
}

proof fn lemma_segment_after_slash(d: Seq<u8>)
    requires
        all_digits(d),
    ensures
        segment_start(seq![SLASH] + d) == 1,
    decreases d.len(),
{
    let s = seq![SLASH] + d;
    if d.len() > 0 {
        assert(is_digit(d[d.len() - 1]));
        assert(s.last() == d.last());
        assert(s.drop_last() =~= seq![SLASH] + d.drop_last());
        assert forall|i: int| 0 <= i < d.drop_last().len() implies is_digit(
            #[trigger] d.drop_last()[i],
        ) by {
            assert(d.drop_last()[i] == d[i]);
        }
        lemma_segment_after_slash(d.drop_last());
    } else {
        assert(s.last() == SLASH);
    }
}

/// The path at which a product was reported made names that product: read
/// back, it leads a `GET` to that product.
pub proof fn law_location_reads_back(
    id: u64,
    create: Option<ProductCreateModel>,
    update: Option<ProductUpdateModel>,
)
    ensures
        route_id(location_of(id)) == Ok::<Option<u64>, ()>(Some(id)),
        operation_of(RequestMethod::Get, Some(location_of(id)), create, update)
            == Operation::ReadById(id),
{
    let d = decimal(id as nat);
    let loc = location_of(id);
    lemma_decimal_digits(id as nat);
    lemma_segment_after_slash(d);
    assert(last_segment(loc) =~= d);
    assert(d[0] != PLUS) by {
        assert(is_digit(d[0]));
    }
    assert(unsigned_part(d) == d);
    assert(parse_u64_spec(d) == Some(id));
    assert forall|i: int| 0 <= i < loc.len() implies #[trigger] loc[i] == SLASH || is_digit(
        loc[i],
    ) by {
        if i > 0 {
            assert(loc[i] == d[i - 1]);
        }
    }
    assert(all_visible(loc));
}

/// A create reply carries a `Location` that names the product created.
pub proof fn law_created_reply_reads_back(id: u64, reply: Reply)
    requires
        is_created(reply, id),
    ensures
        route_id(reply.location->0@) == Ok::<Option<u64>, ()>(Some(id)),
{
    law_location_reads_back(id, None, None);
}

/// A `GET` at the `Location` of a created product asks the store for that
/// product, and where the store has its row, answers with a detail whose id is
/// the one in the `Location`.
pub proof fn law_created_then_read(
    id: u64,
    reply: Reply,
    reading: (Option<Pending>, Action),
    rows: Vec<Vec<Cell>>,
    read: (Option<Pending>, Action),
)
    requires
        is_created(reply, id),
        begins(operation_of(RequestMethod::Get, Some(reply.location->0@), None, None), reading),
        rows@.len() > 0,
        detail_of_row(id, rows@[0]@) is Some,
        advances(reading.0->0, Outcome::Rows(rows), read),
    ensures
        reading.1 == Action::Query(Statement::SelectById(id)),
        read.1 is Respond,
        read.1->Respond_0.status == STATUS_OK,
        read.1->Respond_0.body is Detail,
        read.1->Respond_0.body->Detail_0.id == id,
{
    law_location_reads_back(id, None, None);
}

/// A `POST` whose body does not decode, or a `PUT` to a numeric id whose body
/// does not decode, is answered 400 at once, with no statement for the store.
pub proof fn law_malformed_body(path: Option<Seq<u8>>, update: Option<ProductUpdateModel>)
    ensures
        forall|r: (Option<Pending>, Action)|
            #[trigger] begins(operation_of(RequestMethod::Post, path, None, update), r) ==> r == (
                None::<Pending>,
                Action::Respond(bare(STATUS_BAD_REQUEST)),
            ),
        forall|r: (Option<Pending>, Action), create: Option<ProductCreateModel>|
            path is Some && route_id(path->0) is Ok && route_id(path->0)->Ok_0 is Some
                && #[trigger] begins(operation_of(RequestMethod::Put, path, create, None), r)
                ==> r == (None::<Pending>, Action::Respond(bare(STATUS_BAD_REQUEST))),
{
}

/// A `GET` of an id that the store does not hold is answered 404 with no body.
pub proof fn law_unknown_id_not_found(
    ids: Set<u64>,
    path: Seq<u8>,
    id: u64,
    rows: Vec<Vec<Cell>>,
    first: (Option<Pending>, Action),
    second: (Option<Pending>, Action),
)
    requires
        route_id(path) == Ok::<Option<u64>, ()>(Some(id)),
        !ids.contains(id),
        answers_select(ids, id, rows@),
        begins(operation_of(RequestMethod::Get, Some(path), None, None), first),
        advances(first.0->0, Outcome::Rows(rows), second),
    ensures
        first.1 == Action::Query(Statement::SelectById(id)),
        second == (None::<Pending>, Action::Respond(bare(STATUS_NOT_FOUND))),
{
}

/// A `DELETE` of a numeric id answers 204 whether or not the store held it,
/// and a `GET` of that id afterwards is answered 404.
pub proof fn law_delete_then_read(
    ids: Set<u64>,
    path: Seq<u8>,
    id: u64,
    deleting: (Option<Pending>, Action),
    deleted: (Option<Pending>, Action),
    rows: Vec<Vec<Cell>>,
    reading: (Option<Pending>, Action),
    read: (Option<Pending>, Action),
)
    requires
        route_id(path) == Ok::<Option<u64>, ()>(Some(id)),
        begins(operation_of(RequestMethod::Delete, Some(path), None, None), deleting),
        advances(deleting.0->0, Outcome::Executed, deleted),
        answers_select(ids_after(ids, Statement::DeleteById(id)), id, rows@),
        begins(operation_of(RequestMethod::Get, Some(path), None, None), reading),
        advances(reading.0->0, Outcome::Rows(rows), read),
    ensures
        deleting.1 == Action::Execute(Statement::DeleteById(id)),
        deleted == (None::<Pending>, Action::Respond(bare(STATUS_NO_CONTENT))),
        read == (None::<Pending>, Action::Respond(bare(STATUS_NOT_FOUND))),
{
}

/// A `PUT` to a numeric id that the store does not hold runs the update, then
/// reads the id back, finds nothing and answers 404.
pub proof fn law_update_of_unknown_id(
    ids: Set<u64>,
    path: Seq<u8>,
    id: u64,
    update: ProductUpdateModel,
    first: (Option<Pending>, Action),
    second: (Option<Pending>, Action),
    rows: Vec<Vec<Cell>>,
    third: (Option<Pending>, Action),
)
    requires
        route_id(path) == Ok::<Option<u64>, ()>(Some(id)),
        !ids.contains(id),
        begins(operation_of(RequestMethod::Put, Some(path), None, Some(update)), first),
        advances(first.0->0, Outcome::Executed, second),
        answers_select(ids_after(ids, Statement::UpdateProduct(id, update.name, update.price)), id, rows@),
        advances(second.0->0, Outcome::Rows(rows), third),
    ensures
        first.1 == Action::Execute(Statement::UpdateProduct(id, update.name, update.price)),
        second.1 == Action::Query(Statement::SelectById(id)),
        third == (None::<Pending>, Action::Respond(bare(STATUS_NOT_FOUND))),
{
}

/// The listing has one entry per row that the store returned, in its order,
/// and each entry is that row's id and name.
pub proof fn law_listing_matches_rows(rows: Vec<Vec<Cell>>, r: (Option<Pending>, Action))
    requires
        advances(Pending::List, Outcome::Rows(rows), r),
        listing_of(rows@) is Some,
    ensures
        r.1 is Respond,
        r.1->Respond_0.body is Listing,
        r.1->Respond_0.body->Listing_0@.len() == rows@.len(),
        forall|i: int| 0 <= i < rows@.len() ==> Some(r.1->Respond_0.body->Listing_0@[i])
            == #[trigger] summary_of_row(rows@[i]@),
{
    let list = r.1->Respond_0.body->Listing_0@;
    assert forall|i: int| 0 <= i < rows@.len() implies Some(list[i])
        == #[trigger] summary_of_row(rows@[i]@) by {
        assert(summary_of_row(rows@[i]@) is Some);
    }
}

/// A method other than `GET`, `POST`, `PUT` and `DELETE` is answered 405 with
/// no body, on any path, with no statement for the store.
pub proof fn law_other_method(
    path: Option<Seq<u8>>,
    create: Option<ProductCreateModel>,
    update: Option<ProductUpdateModel>,
)
    ensures
        operation_of(RequestMethod::Other, path, create, update) == Operation::MethodNotAllowed,
        forall|r: (Option<Pending>, Action)|
            #[trigger] begins(operation_of(RequestMethod::Other, path, create, update), r) ==> r
                == (None::<Pending>, Action::Respond(bare(STATUS_METHOD_NOT_ALLOWED))),
{
}

} // verus!
