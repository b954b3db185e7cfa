use vstd::prelude::*;

use crate::models::{ProductDetailsModel, ProductListModel};
use crate::route::SLASH;

verus! {

pub const STATUS_OK: u16 = 200;
pub const STATUS_CREATED: u16 = 201;
pub const STATUS_NO_CONTENT: u16 = 204;
pub const STATUS_BAD_REQUEST: u16 = 400;
pub const STATUS_NOT_FOUND: u16 = 404;
pub const STATUS_METHOD_NOT_ALLOWED: u16 = 405;
pub const STATUS_INTERNAL_SERVER_ERROR: u16 = 500;

/// The `Content-Type` that a reply declares.
#[derive(PartialEq, Eq, Structural, Clone, Copy, Debug)]
pub enum ContentType {
    Json,
    PlainText,
}

/// What a reply carries. The JSON bodies are typed here and rendered by the
/// codec at the edge.
pub enum Body {
    Empty,
    Text(String),
    Detail(ProductDetailsModel),
    Listing(Vec<ProductListModel>),
}

/// An HTTP response before it is rendered: status, the two headers that the
/// endpoint sets, and the body.
pub struct Reply {
    pub status: u16,
    pub content_type: Option<ContentType>,
    /// The bytes of the `Location` header, if the reply has one.
    pub location: Option<Vec<u8>>,
    pub body: Body,
}

/// A reply with the given status and nothing else.
pub open spec fn bare(status: u16) -> Reply {
    Reply { status, content_type: None, location: None, body: Body::Empty }
}

/// The decimal digits of `n`, most significant first, with no leading zero.
pub open spec fn decimal(n: nat) -> Seq<u8>
    decreases n,
{
    if n < 10 {
        seq![(48 + n) as u8]
    } else {
        decimal(n / 10).push((48 + n % 10) as u8)
    }
}

/// The path at which product `id` can be found.
pub open spec fn location_of(id: u64) -> Seq<u8> {
    seq![SLASH] + decimal(id as nat)
}

/// Appends the decimal digits of `n` to `out`.
fn push_decimal(n: u64, out: &mut Vec<u8>)
    ensures
        final(out)@ == old(out)@ + decimal(n as nat),
    decreases n,
{
    if n >= 10 {
        push_decimal(n / 10, out);
    }
    out.push((48 + n % 10) as u8);
    proof {
        if n < 10 {
            assert(n % 10 == n);
        }
    }
    assert(final(out)@ =~= old(out)@ + decimal(n as nat));
}

/// The `Location` value of product `id`: a `/` followed by the id in decimal.
pub fn location_for(id: u64) -> (r: Vec<u8>)
    ensures
        r@ == location_of(id),
{
    let mut out: Vec<u8> = Vec::new();
    out.push(SLASH);
    push_decimal(id, &mut out);
    assert(out@ =~= location_of(id));
    out
}

/// A reply with the given status, no headers and no body.
pub fn quick_response(status: u16) -> (r: Reply)
    ensures
        r == bare(status),
{
    Reply { status, content_type: None, location: None, body: Body::Empty }
}

/// 200 with a JSON body.
pub fn ok(payload: Body) -> (r: Reply)
    ensures
        r == (Reply {
            status: STATUS_OK,
            content_type: Some(ContentType::Json),
            location: None,
            body: payload,
        }),
{
    Reply { status: STATUS_OK, content_type: Some(ContentType::Json), location: None, body: payload }
}

/// 201 with the `Location` of the product that was made, and no body.
pub fn created(id: u64) -> (r: Reply)
    ensures
        r.status == STATUS_CREATED,
        r.content_type is None,
        r.location is Some,
        r.location->0@ == location_of(id),
        r.body is Empty,
{
    Reply {
        status: STATUS_CREATED,
        content_type: None,
        location: Some(location_for(id)),
        body: Body::Empty,
    }
}

/// 500 with a plain-text diagnostic, which may be empty.
pub fn internal_server_error(err: String) -> (r: Reply)
    ensures
        r == (Reply {
            status: STATUS_INTERNAL_SERVER_ERROR,
            content_type: Some(ContentType::PlainText),
            location: None,
            body: Body::Text(err),
        }),
{
    Reply {
        status: STATUS_INTERNAL_SERVER_ERROR,
        content_type: Some(ContentType::PlainText),
        location: None,
        body: Body::Text(err),
    }
}

/// 204, no body.
pub fn no_content() -> (r: Reply)
    ensures
        r == bare(STATUS_NO_CONTENT),
{
    quick_response(STATUS_NO_CONTENT)
}

/// 400, no body.
pub fn bad_request() -> (r: Reply)
    ensures
        r == bare(STATUS_BAD_REQUEST),
{
    quick_response(STATUS_BAD_REQUEST)
}

/// 404, no body.
pub fn not_found() -> (r: Reply)
    ensures
        r == bare(STATUS_NOT_FOUND),
{
    quick_response(STATUS_NOT_FOUND)
}

/// 405, no body.
pub fn method_not_allowed() -> (r: Reply)
    ensures
        r == bare(STATUS_METHOD_NOT_ALLOWED),
{
    quick_response(STATUS_METHOD_NOT_ALLOWED)
}

} // verus!
