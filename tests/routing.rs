use crud_with_mysql::models::{ProductCreateModel, ProductUpdateModel};
use crud_with_mysql::route::{api_from_request, get_id_from_route, parse_u64, Operation, RequestMethod};

fn create(name: &str, price: f32) -> Option<ProductCreateModel> {
    Some(ProductCreateModel { name: name.to_string(), price: price.to_bits() })
}

fn update(name: &str, price: f32) -> Option<ProductUpdateModel> {
    Some(ProductUpdateModel { name: name.to_string(), price: price.to_bits() })
}

#[test]
fn parses_plain_and_signed_numbers() {
    assert_eq!(parse_u64(b"42"), Some(42));
    assert_eq!(parse_u64(b"+7"), Some(7));
    assert_eq!(parse_u64(b"007"), Some(7));
    assert_eq!(parse_u64(b"0"), Some(0));
}

#[test]
fn rejects_malformed_numbers() {
    assert_eq!(parse_u64(b""), None);
    assert_eq!(parse_u64(b"+"), None);
    assert_eq!(parse_u64(b"-1"), None);
    assert_eq!(parse_u64(b"1a"), None);
    assert_eq!(parse_u64(b" 1"), None);
    assert_eq!(parse_u64(b"++1"), None);
}

#[test]
fn parses_up_to_the_largest_u64() {
    assert_eq!(parse_u64(b"18446744073709551615"), Some(u64::MAX));
    assert_eq!(parse_u64(b"18446744073709551616"), None);
    assert_eq!(parse_u64(b"99999999999999999999"), None);
}

#[test]
fn route_id_from_last_segment() {
    assert_eq!(get_id_from_route(b"/"), Ok(None));
    assert_eq!(get_id_from_route(b""), Ok(None));
    assert_eq!(get_id_from_route(b"/12"), Ok(Some(12)));
    assert_eq!(get_id_from_route(b"/a/5"), Ok(Some(5)));
    assert_eq!(get_id_from_route(b"5"), Ok(Some(5)));
    assert_eq!(get_id_from_route(b"/items/"), Ok(None));
    assert_eq!(get_id_from_route(b"/abc"), Err(()));
    assert_eq!(get_id_from_route(b"/5/x"), Err(()));
}

#[test]
fn route_id_rejects_non_text_values() {
    assert_eq!(get_id_from_route(b"/\x7f1"), Err(()));
    assert_eq!(get_id_from_route(b"/1\x00"), Err(()));
    assert_eq!(get_id_from_route(&[47, 200]), Err(()));
    assert_eq!(get_id_from_route(b"/\t"), Err(()));
}

#[test]
fn method_names() {
    assert_eq!(RequestMethod::from_name(b"GET"), RequestMethod::Get);
    assert_eq!(RequestMethod::from_name(b"POST"), RequestMethod::Post);
    assert_eq!(RequestMethod::from_name(b"PUT"), RequestMethod::Put);
    assert_eq!(RequestMethod::from_name(b"DELETE"), RequestMethod::Delete);
    assert_eq!(RequestMethod::from_name(b"PATCH"), RequestMethod::Other);
    assert_eq!(RequestMethod::from_name(b"get"), RequestMethod::Other);
    assert_eq!(RequestMethod::from_name(b""), RequestMethod::Other);
}

#[test]
fn post_decodes_into_create() {
    let op = api_from_request(RequestMethod::Post, None, create("Widget", 9.99), None);
    match op {
        Operation::Create(name, price) => {
            assert_eq!(name, "Widget");
            assert_eq!(f32::from_bits(price), 9.99);
        }
        _ => panic!("expected a create"),
    }
}

#[test]
fn post_with_malformed_body_is_bad_request() {
    let op = api_from_request(RequestMethod::Post, Some(b"/"), None, update("x", 1.0));
    assert!(matches!(op, Operation::BadRequest));
}

#[test]
fn get_classification() {
    assert!(matches!(api_from_request(RequestMethod::Get, Some(b"/"), None, None), Operation::ReadAll));
    assert!(matches!(api_from_request(RequestMethod::Get, Some(b"/3"), None, None), Operation::ReadById(3)));
    assert!(matches!(api_from_request(RequestMethod::Get, Some(b"/x"), None, None), Operation::NotFound));
    assert!(matches!(api_from_request(RequestMethod::Get, None, None, None), Operation::InternalServerError));
}

#[test]
fn put_classification() {
    match api_from_request(RequestMethod::Put, Some(b"/1"), None, update("Widget XL", 14.5)) {
        Operation::Update(id, name, price) => {
            assert_eq!(id, 1);
            assert_eq!(name, "Widget XL");
            assert_eq!(f32::from_bits(price), 14.5);
        }
        _ => panic!("expected an update"),
    }
    assert!(matches!(api_from_request(RequestMethod::Put, Some(b"/1"), None, None), Operation::BadRequest));
    assert!(matches!(api_from_request(RequestMethod::Put, Some(b"/"), None, update("a", 1.0)), Operation::NotFound));
    assert!(matches!(api_from_request(RequestMethod::Put, Some(b"/z"), None, None), Operation::NotFound));
    assert!(matches!(api_from_request(RequestMethod::Put, None, None, update("a", 1.0)), Operation::InternalServerError));
}

#[test]
fn delete_classification() {
    assert!(matches!(api_from_request(RequestMethod::Delete, Some(b"/9"), None, None), Operation::Delete(9)));
    assert!(matches!(api_from_request(RequestMethod::Delete, Some(b"/"), None, None), Operation::NotFound));
    assert!(matches!(api_from_request(RequestMethod::Delete, Some(b"/q"), None, None), Operation::NotFound));
    assert!(matches!(api_from_request(RequestMethod::Delete, None, None, None), Operation::InternalServerError));
}

#[test]
fn other_methods_are_not_allowed_on_any_path() {
    for path in [None, Some(&b"/"[..]), Some(&b"/1"[..]), Some(&b"/x"[..])] {
        let op = api_from_request(RequestMethod::Other, path, create("a", 1.0), update("a", 1.0));
        assert!(matches!(op, Operation::MethodNotAllowed));
    }
}
