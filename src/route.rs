use vstd::prelude::*;

use vstd::slice::slice_subrange;

use crate::models::{ProductCreateModel, ProductUpdateModel};

verus! {

/// The byte `/`, which separates path segments.
pub const SLASH: u8 = 47;

/// The byte `+`, accepted as a sign in front of an unsigned number.
pub const PLUS: u8 = 43;

pub open spec fn is_digit(b: u8) -> bool {
    48 <= b && b <= 57
}

pub open spec fn all_digits(s: Seq<u8>) -> bool {
    forall|i: int| 0 <= i < s.len() ==> is_digit(#[trigger] s[i])
}

/// The number that a run of decimal digits denotes.
pub open spec fn digits_value(s: Seq<u8>) -> nat
    decreases s.len(),
{
    if s.len() == 0 {
        0
    } else {
        digits_value(s.drop_last()) * 10 + (s.last() - 48) as nat
    }
}

/// The text after an optional leading `+`.
pub open spec fn unsigned_part(s: Seq<u8>) -> Seq<u8> {
    if s.len() > 0 && s[0] == PLUS {
        s.subrange(1, s.len() as int)
    } else {
        s
    }
}

/// How an unsigned 64-bit integer is read from text: an optional `+`, then
/// one or more decimal digits whose value fits in 64 bits.
pub open spec fn parse_u64_spec(s: Seq<u8>) -> Option<u64> {
    let d = unsigned_part(s);
    if d.len() > 0 && all_digits(d) && digits_value(d) <= u64::MAX {
        Some(digits_value(d) as u64)
    } else {
        None
    }
}

/// Reads an unsigned 64-bit integer from its decimal text.
pub fn parse_u64(s: &[u8]) -> (r: Option<u64>)
    ensures
        r == parse_u64_spec(s@),
{
    let n = s.len();
    let mut i: usize = 0;
    if n > 0 && s[0] == PLUS {
        i = 1;
    }
    let ghost d = s@.subrange(i as int, n as int);
    proof {
        assert(d =~= unsigned_part(s@));
    }
    if i == n {
        return None;
    }
    let start = i;
    let mut value: u64 = 0;
    while i < n
        invariant
            start <= i <= n,
            n == s@.len(),
            d == s@.subrange(start as int, n as int),
            d == unsigned_part(s@),
            all_digits(s@.subrange(start as int, i as int)),
            value as nat == digits_value(s@.subrange(start as int, i as int)),
        decreases n - i,
    {
        let b = s[i];
        let ghost prefix = s@.subrange(start as int, i as int);
        let ghost next = s@.subrange(start as int, i + 1);
        proof {
            assert(next.drop_last() =~= prefix);
            assert(next.last() == b);
        }
        if b < 48 || b > 57 {
            proof {
                assert(d[i - start] == b);
                assert(!is_digit(d[i - start]));
            }
            return None;
        }
        let digit = (b - 48) as u64;
        proof {
            assert(digits_value(next) == digits_value(prefix) * 10 + digit as nat);
        }
        if value > (u64::MAX - digit) / 10 {
            proof {
                assert(digits_value(next) > u64::MAX) by (nonlinear_arith)
                    requires
                        digits_value(next) == value * 10 + digit,
                        value > (u64::MAX - digit) / 10,
                        digit <= 9,
                ;
                lemma_digits_value_prefix_bound(d, (i + 1 - start) as int);
                assert(d.subrange(0, (i + 1 - start) as int) =~= next);
            }
            return None;
        }
        proof {
            assert(value * 10 + digit <= u64::MAX) by (nonlinear_arith)
                requires
                    value <= (u64::MAX - digit) / 10,
                    digit <= 9,
            ;
            assert forall|j: int| 0 <= j < next.len() implies is_digit(#[trigger] next[j]) by {
                if j < prefix.len() {
                    assert(next[j] == prefix[j]);
                }
            }
        }
        value = value * 10 + digit;
        i = i + 1;
    }
    proof {
        assert(s@.subrange(start as int, n as int) =~= d);
    }
    Some(value)
}

/// A longer run of digits never denotes less than its prefixes.
proof fn lemma_digits_value_prefix_bound(d: Seq<u8>, k: int)
    requires
        0 <= k <= d.len(),
    ensures
        digits_value(d.subrange(0, k)) <= digits_value(d),
    decreases d.len() - k,
{
    if k < d.len() {
        lemma_digits_value_prefix_bound(d, k + 1);
        let a = d.subrange(0, k + 1);
        assert(a.drop_last() =~= d.subrange(0, k));
        assert(digits_value(a) >= digits_value(d.subrange(0, k))) by (nonlinear_arith)
            requires
                digits_value(a) == digits_value(a.drop_last()) * 10 + (a.last() - 48) as nat,
                a.drop_last() == d.subrange(0, k),
        ;
    } else {
        assert(d.subrange(0, k) =~= d);
    }
}

/// A byte that a header value may hold and still read as text: a tab or a
/// visible ASCII character.
pub open spec fn is_visible(b: u8) -> bool {
    b == 9 || (32 <= b && b < 127)
}

pub open spec fn all_visible(s: Seq<u8>) -> bool {
    forall|i: int| 0 <= i < s.len() ==> is_visible(#[trigger] s[i])
}

/// Where the last segment of a path starts: just after its last `/`, or at
/// the start where it has none.
pub open spec fn segment_start(s: Seq<u8>) -> int
    decreases s.len(),
{
    if s.len() == 0 {
        0
    } else if s.last() == SLASH {
        s.len() as int
    } else {
        segment_start(s.drop_last())
    }
}

/// The part of a path after its last `/` (all of it where it has none).
pub open spec fn last_segment(s: Seq<u8>) -> Seq<u8> {
    s.subrange(segment_start(s), s.len() as int)
}

/// What the path names: `Ok(None)` for no id (an empty last segment),
/// `Ok(Some(id))` for a numeric last segment, `Err(())` for anything else,
/// including a value that does not read as text.
pub open spec fn route_id(path: Seq<u8>) -> Result<Option<u64>, ()> {
    if !all_visible(path) {
        Err(())
    } else if last_segment(path).len() == 0 {
        Ok(None)
    } else {
        match parse_u64_spec(last_segment(path)) {
            Some(id) => Ok(Some(id)),
            None => Err(()),
        }
    }
}

proof fn lemma_segment_start_bounds(s: Seq<u8>)
    ensures
        0 <= segment_start(s) <= s.len(),
    decreases s.len(),
{
    if s.len() > 0 && s.last() != SLASH {
        lemma_segment_start_bounds(s.drop_last());
    }
}

/// Finds where the last segment of `path` starts.
fn find_segment_start(path: &[u8]) -> (r: usize)
    ensures
        r as int == segment_start(path@),
        r <= path@.len(),
{
    let mut start: usize = 0;
    let mut i: usize = 0;
    while i < path.len()
        invariant
            i <= path@.len(),
            start <= i,
            start as int == segment_start(path@.subrange(0, i as int)),
        decreases path@.len() - i,
    {
        let ghost next = path@.subrange(0, i + 1);
        proof {
            assert(next.drop_last() =~= path@.subrange(0, i as int));
        }
        if path[i] == SLASH {
            start = i + 1;
        }
        i = i + 1;
    }
    proof {
        assert(path@.subrange(0, i as int) =~= path@);
    }
    start
}

/// Reads the id that a path names from its last segment.
pub fn get_id_from_route(path: &[u8]) -> (r: Result<Option<u64>, ()>)
    ensures
        r == route_id(path@),
{
    let mut i: usize = 0;
    while i < path.len()
        invariant
            i <= path@.len(),
            forall|j: int| 0 <= j < i ==> is_visible(#[trigger] path@[j]),
        decreases path@.len() - i,
    {
        let b = path[i];
        if !(b == 9 || (32 <= b && b < 127)) {
            return Err(());
        }
        i = i + 1;
    }
    let start = find_segment_start(path);
    let segment = slice_subrange(path, start, path.len());
    if segment.len() == 0 {
        return Ok(None);
    }
    match parse_u64(segment) {
        Some(id) => Ok(Some(id)),
        None => Err(()),
    }
}

/// The methods that the endpoint tells apart.
#[derive(PartialEq, Eq, Structural, Clone, Copy, Debug)]
pub enum RequestMethod {
    Get,
    Post,
    Put,
    Delete,
    Other,
}

/// The method that an upper-case ASCII method name denotes.
pub open spec fn method_of(name: Seq<u8>) -> RequestMethod {
    if name == seq![71u8, 69, 84] {
        RequestMethod::Get
    } else if name == seq![80u8, 79, 83, 84] {
        RequestMethod::Post
    } else if name == seq![80u8, 85, 84] {
        RequestMethod::Put
    } else if name == seq![68u8, 69, 76, 69, 84, 69] {
        RequestMethod::Delete
    } else {
        RequestMethod::Other
    }
}

impl RequestMethod {
    /// Recognises `GET`, `POST`, `PUT` and `DELETE` (case-sensitive, as HTTP
    /// method names are); every other name is `Other`.
    pub fn from_name(name: &[u8]) -> (r: RequestMethod)
        ensures
            r == method_of(name@),
    {
        let n = name.len();
        if n == 3 && name[0] == 71 && name[1] == 69 && name[2] == 84 {
            proof {
                assert(name@ =~= seq![71u8, 69, 84]);
            }
            RequestMethod::Get
        } else if n == 4 && name[0] == 80 && name[1] == 79 && name[2] == 83 && name[3] == 84 {
            proof {
                assert(name@ =~= seq![80u8, 79, 83, 84]);
            }
            RequestMethod::Post
        } else if n == 3 && name[0] == 80 && name[1] == 85 && name[2] == 84 {
            proof {
                assert(name@ =~= seq![80u8, 85, 84]);
            }
            RequestMethod::Put
        } else if n == 6 && name[0] == 68 && name[1] == 69 && name[2] == 76 && name[3] == 69
            && name[4] == 84 && name[5] == 69 {
            proof {
                assert(name@ =~= seq![68u8, 69, 76, 69, 84, 69]);
            }
            RequestMethod::Delete
        } else {
            proof {
                assert(name@ != seq![71u8, 69, 84] ==> name@.len() != 3 || name@[0] != 71
                    || name@[1] != 69 || name@[2] != 84);
            }
            RequestMethod::Other
        }
    }
}

/// The resolved intent of one request. An id that an operation carries was
/// read from the path; whether the store holds it is not known yet.
pub enum Operation {
    Create(String, u32),
    ReadAll,
    ReadById(u64),
    Update(u64, String, u32),
    Delete(u64),
    BadRequest,
    NotFound,
    MethodNotAllowed,
    InternalServerError,
}

/// The operation for a request. `path_info` is the routing path that the
/// host supplies, if any; `create` and `update` are the request body decoded
/// as each payload, `None` where it does not decode.
pub open spec fn operation_of(
    method: RequestMethod,
    path_info: Option<Seq<u8>>,
    create: Option<ProductCreateModel>,
    update: Option<ProductUpdateModel>,
) -> Operation {
    match method {
        RequestMethod::Post => match create {
            Some(m) => Operation::Create(m.name, m.price),
            None => Operation::BadRequest,
        },
        RequestMethod::Get => match path_info {
            None => Operation::InternalServerError,
            Some(p) => match route_id(p) {
                Ok(Some(id)) => Operation::ReadById(id),
                Ok(None) => Operation::ReadAll,
                Err(()) => Operation::NotFound,
            },
        },
        RequestMethod::Put => match path_info {
            None => Operation::InternalServerError,
            Some(p) => match route_id(p) {
                Ok(Some(id)) => match update {
                    Some(m) => Operation::Update(id, m.name, m.price),
                    None => Operation::BadRequest,
                },
                _ => Operation::NotFound,
            },
        },
        RequestMethod::Delete => match path_info {
            None => Operation::InternalServerError,
            Some(p) => match route_id(p) {
                Ok(Some(id)) => Operation::Delete(id),
                _ => Operation::NotFound,
            },
        },
        RequestMethod::Other => Operation::MethodNotAllowed,
    }
}

/// Classifies a request into the operation that serves it.
pub fn api_from_request(
    method: RequestMethod,
    path_info: Option<&[u8]>,
    create: Option<ProductCreateModel>,
    update: Option<ProductUpdateModel>,
) -> (r: Operation)
    ensures
        r == operation_of(
            method,
            match path_info {
                Some(p) => Some(p@),
                None => None,
            },
            create,
            update,
        ),
{
    match method {
        RequestMethod::Post => match create {
            Some(m) => Operation::Create(m.name, m.price),
            None => Operation::BadRequest,
        },
        RequestMethod::Get => match path_info {
            None => Operation::InternalServerError,
            Some(p) => match get_id_from_route(p) {
                Ok(Some(id)) => Operation::ReadById(id),
                Ok(None) => Operation::ReadAll,
                Err(()) => Operation::NotFound,
            },
        },
        RequestMethod::Put => match path_info {
            None => Operation::InternalServerError,
            Some(p) => match get_id_from_route(p) {
                Ok(Some(id)) => match update {
                    Some(m) => Operation::Update(id, m.name, m.price),
                    None => Operation::BadRequest,
                },
                _ => Operation::NotFound,
            },
        },
        RequestMethod::Delete => match path_info {
            None => Operation::InternalServerError,
            Some(p) => match get_id_from_route(p) {
                Ok(Some(id)) => Operation::Delete(id),
                _ => Operation::NotFound,
            },
        },
        RequestMethod::Other => Operation::MethodNotAllowed,
    }
}

} // verus!
