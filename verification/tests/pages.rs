use svtui::event_loop::START_PAGE;
use svtui::svt::{Data, FetchError, Meta, SubPage, SvtClient, SvtResponse, DEFAULT_BASE_URL};

fn frame(number: &str, text: &str) -> SubPage {
    SubPage {
        sub_page_number: String::from(number),
        gif_as_base64: String::from("R0lGODlh"),
        image_map: String::from("<map></map>"),
        alt_text: String::from(text),
    }
}

#[test]
fn internal() {
    let client = SvtClient::new(String::from("https://www.svt.se/text-tv/api"));
    let page = String::from("100");
    assert_eq!(client.page_url(&page), "https://www.svt.se/text-tv/api/100");
}

#[test]
fn the_start_page_is_found_under_the_default_base() {
    assert_eq!(DEFAULT_BASE_URL, "https://www.svt.se/text-tv/api");
    let client = SvtClient::new(String::from(DEFAULT_BASE_URL));
    let url = client.page_url(&String::from(START_PAGE));
    assert_eq!(url, "https://www.svt.se/text-tv/api/100");
}

#[test]
fn page_url_joins_base_and_page_with_a_slash() {
    let client = SvtClient::new(String::from("http://localhost:8080/api"));
    assert_eq!(client.page_url(&String::from("377")), "http://localhost:8080/api/377");
}

#[test]
fn page_url_of_the_empty_identifier_ends_in_the_slash() {
    let client = SvtClient::new(String::from("https://www.svt.se/text-tv/api"));
    assert_eq!(client.page_url(&String::new()), "https://www.svt.se/text-tv/api/");
}

#[test]
fn page_url_keeps_the_identifier_as_typed() {
    let client = SvtClient::new(String::from("base"));
    assert_eq!(client.page_url(&String::from("a/b c")), "base/a/b c");
    assert_eq!(client.page_url(&String::from("å")), "base/å");
}

#[test]
fn page_url_leaves_the_client_usable() {
    let client = SvtClient::new(String::from("b"));
    assert_eq!(client.page_url(&String::from("1")), "b/1");
    assert_eq!(client.page_url(&String::from("2")), "b/2");
}

#[test]
fn every_fetch_error_hands_out_its_detail() {
    let transport = FetchError::Transport(String::from("connection reset"));
    let protocol = FetchError::Protocol(String::from("404 Not Found"));
    let decode = FetchError::Decode(String::from("missing field `data`"));
    assert_eq!(transport.detail(), "connection reset");
    assert_eq!(protocol.detail(), "404 Not Found");
    assert_eq!(decode.detail(), "missing field `data`");
    assert_eq!(FetchError::Decode(String::new()).detail(), "");
}

#[test]
fn fetch_errors_differ_by_kind_and_by_detail() {
    assert_ne!(FetchError::Transport(String::from("x")), FetchError::Decode(String::from("x")));
    assert_ne!(FetchError::Protocol(String::from("x")), FetchError::Protocol(String::from("y")));
    assert_eq!(FetchError::Protocol(String::from("x")), FetchError::Protocol(String::from("x")));
}

#[test]
fn a_response_holds_what_it_was_given() {
    let response = SvtResponse {
        status: String::from("success"),
        data: Data {
            page_number: String::from("100"),
            prev_page: String::from("100"),
            next_page: String::from("101"),
            sub_pages: vec![frame("1", "first"), frame("2", "second")],
            meta: Meta { updated: String::from("2021-03-04T10:00:00Z") },
        },
    };
    assert_eq!(response.data.page_number, "100");
    assert_eq!(response.data.sub_pages.len(), 2);
    assert_eq!(response.data.sub_pages[1].alt_text, "second");
    assert_eq!(response.data.sub_pages[0].gif_as_base64, "R0lGODlh");
    assert_eq!(response.data.meta.updated, "2021-03-04T10:00:00Z");
    assert_eq!(response.clone(), response);
}

#[test]
fn failures_are_sorted_by_status_then_payload_then_transport() {
    let detail = || String::from("d");
    assert_eq!(FetchError::classify(true, false, detail()), FetchError::Protocol(detail()));
    assert_eq!(FetchError::classify(true, true, detail()), FetchError::Protocol(detail()));
    assert_eq!(FetchError::classify(false, true, detail()), FetchError::Decode(detail()));
    assert_eq!(FetchError::classify(false, false, detail()), FetchError::Transport(detail()));
    assert_eq!(FetchError::classify(false, false, String::from("timed out")).detail(), "timed out");
}
