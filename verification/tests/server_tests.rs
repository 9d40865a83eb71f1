use disaster_response_system::server::http::{
    disaster_type_from_name, html_response, json_response, not_found_response, ok_response, parse_request_head,
    request_body_start, route_request, Route,
};
use disaster_response_system::systems::types::DisasterType;
use disaster_response_system::text::{hex_dump, str_equal};

fn chars(s: &str) -> Vec<char> {
    s.chars().collect()
}

fn route_of_request(raw: &str) -> Option<Route> {
    let request = chars(raw);
    parse_request_head(&request).map(|h| route_request(&h.method, &h.path))
}

#[test]
fn request_head_parsing() {
    let head = parse_request_head(&chars("GET /api/status HTTP/1.1\r\nHost: x\r\n\r\n")).unwrap();
    assert_eq!(head.method, chars("GET"));
    assert_eq!(head.path, chars("/api/status"));
    let head = parse_request_head(&chars("  POST\t/api/return   ")).unwrap();
    assert_eq!(head.method, chars("POST"));
    assert_eq!(head.path, chars("/api/return"));
    assert!(parse_request_head(&chars("GET\r\n/ HTTP/1.1")).is_none());
    assert!(parse_request_head(&chars("\n")).is_none());
    assert!(parse_request_head(&chars("")).is_none());
    // Non-ASCII white space separates words too.
    let head = parse_request_head(&chars("GET\u{a0}/index.html")).unwrap();
    assert_eq!(head.path, chars("/index.html"));
}

#[test]
fn request_routing() {
    assert_eq!(route_of_request("GET / HTTP/1.1\r\n\r\n"), Some(Route::Dashboard));
    assert_eq!(route_of_request("GET /index.html HTTP/1.1\r\n"), Some(Route::Dashboard));
    assert_eq!(route_of_request("GET /api/status HTTP/1.1\r\n"), Some(Route::Status));
    assert_eq!(route_of_request("POST /api/dispatch HTTP/1.1\r\n"), Some(Route::Dispatch));
    assert_eq!(route_of_request("POST /api/failsafe HTTP/1.1\r\n"), Some(Route::ToggleFailsafe));
    assert_eq!(route_of_request("POST /api/return HTTP/1.1\r\n"), Some(Route::ReturnToBase));
    assert_eq!(route_of_request("POST / HTTP/1.1\r\n"), Some(Route::NotFound));
    assert_eq!(route_of_request("GET /api/dispatch HTTP/1.1\r\n"), Some(Route::NotFound));
}

#[test]
fn request_body_location() {
    let r = chars("POST /api/dispatch HTTP/1.1\r\nContent-Length: 2\r\n\r\n{}");
    let start = request_body_start(&r).unwrap();
    assert_eq!(r[start..].iter().collect::<String>(), "{}");
    assert_eq!(request_body_start(&chars("POST / HTTP/1.1\r\n")), None);
    assert_eq!(request_body_start(&chars("\r\n\r\n\r\n\r\n")), Some(4));
}

#[test]
fn dispatch_names() {
    assert_eq!(disaster_type_from_name("Wildfire"), DisasterType::Wildfire);
    assert_eq!(disaster_type_from_name("Flood"), DisasterType::Flood);
    assert_eq!(disaster_type_from_name("Landslide"), DisasterType::Landslide);
    assert_eq!(disaster_type_from_name("Earthquake"), DisasterType::Earthquake);
    assert_eq!(disaster_type_from_name("flood"), DisasterType::Earthquake);
    assert!(str_equal("abc", "abc") && !str_equal("abc", "abd") && !str_equal("ab", "abc"));
}

#[test]
fn response_framing() {
    assert_eq!(
        html_response("<p>é</p>"),
        "HTTP/1.1 200 OK\r\nContent-Type: text/html; charset=utf-8\r\nContent-Length: 9\r\nConnection: close\r\n\r\n<p>é</p>"
    );
    assert_eq!(
        json_response("{}"),
        "HTTP/1.1 200 OK\r\nContent-Type: application/json\r\nContent-Length: 2\r\nAccess-Control-Allow-Origin: *\r\nConnection: close\r\n\r\n{}"
    );
    assert!(ok_response().ends_with("\r\n\r\nOK"));
    assert!(not_found_response().starts_with("HTTP/1.1 404 NOT FOUND"));
}

#[test]
fn hex_rendering() {
    assert_eq!(hex_dump(&[]), "");
    assert_eq!(hex_dump(&[0x53]), "53");
    assert_eq!(hex_dump(&[0x53, 0x41, 0x54, 0x00, 0xAF, 0x0F]), "53 41 54 00 AF 0F");
}
