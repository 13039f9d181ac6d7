use frapi::settings::method_settings::Method;
use frapi::settings::protocol_settings::Protocol;
use frapi::states::main_page::generics::Header;
use frapi::states::main_page::request::request_data::{
    split_scheme, BodyFromData, FormFieldType, RequestBody, RequestData,
};
use frapi::states::main_page::request::{
    default_ws_headers, HttpVersion, RequestHttpSetup, RequestSetup, RequestWsSetup,
};

fn with_uri(uri: &str) -> RequestData {
    let mut data = RequestData::default();
    data.uri = uri.to_string();
    data
}

fn pairs(params: &Vec<Header>) -> Vec<(String, String)> {
    params.iter().map(|p| (p.key.clone(), p.value.clone())).collect()
}

fn pair(key: &str, value: &str) -> (String, String) {
    (key.to_string(), value.to_string())
}

#[test]
fn default_request_data_is_an_http_get() {
    let data = RequestData::default();
    assert_eq!(data.name, "New Request");
    assert_eq!(data.protocol, Protocol::HTTP);
    assert_eq!(data.method, Method::GET);
    assert_eq!(data.uri, "");
    assert_eq!(data.headers.len(), 0);
    assert_eq!(data.body.raw.message, "");
    assert_eq!(data.body.raw.rows, 0);
    assert_eq!(data.body.form_data.len(), 0);
    assert_eq!(data.body.binary_path, "");
    assert_eq!(data.message.message, "");
    assert_eq!(data.query_params.len(), 0);
    match &data.setup {
        RequestSetup::HTTP(setup) => {
            assert_eq!(setup.http_version, HttpVersion::AUTO);
            assert!(setup.use_cookies);
            assert!(setup.use_redirects);
            assert_eq!(setup.redirects_amount, "9");
        }
        RequestSetup::WS(_) => panic!("a new request is an HTTP request"),
    }
    assert!(data.protocot_is_http());
    assert!(!data.protocot_is_ws());
}

#[test]
fn protocol_families_are_told_apart() {
    let mut data = RequestData::default();
    for (protocol, http, ws) in [
        (Protocol::HTTP, true, false),
        (Protocol::HTTPS, true, false),
        (Protocol::WS, false, true),
        (Protocol::WSS, false, true),
    ] {
        data.protocol = protocol;
        assert_eq!(data.protocot_is_http(), http);
        assert_eq!(data.protocot_is_ws(), ws);
        assert_eq!(protocol.is_http(), http);
        assert_eq!(protocol.is_ws(), ws);
    }
    assert_eq!(Protocol::HTTPS.to_string(), "HTTPS");
    assert_eq!(Protocol::WS.to_string(), "WS");
    assert_eq!(Protocol::WSS.scheme(), "wss");
    assert_eq!(Protocol::HTTP.scheme(), "http");
    assert_eq!(Protocol::default(), Protocol::HTTPS);
    assert_eq!(Method::default(), Method::GET);
    assert_eq!(Method::DELETE.to_string(), "DELETE");
    assert_eq!(Method::PATCH.to_string(), "PATCH");
    assert_eq!(Method::POST.to_string(), "POST");
    assert_eq!(Method::PUT.to_string(), "PUT");
}

#[test]
fn parse_url_takes_the_protocol_off_and_reads_the_query() {
    let mut data = with_uri("HTTP://Example.com/Path?a=1&B=2");
    data.protocol = Protocol::WSS;
    data.parse_url();
    assert_eq!(data.protocol, Protocol::HTTP);
    assert_eq!(data.uri, "example.com/path?a=1&b=2");
    assert_eq!(pairs(&data.query_params), vec![pair("a", "1"), pair("b", "2")]);
}

#[test]
fn parse_url_knows_the_four_protocols() {
    for (typed, protocol, rest) in [
        ("http://a", Protocol::HTTP, "a"),
        ("https://a", Protocol::HTTPS, "a"),
        ("ws://a", Protocol::WS, "a"),
        ("wss://a", Protocol::WSS, "a"),
        ("wss:\\\\a/b", Protocol::WSS, "a/b"),
        ("ws:a", Protocol::WS, "a"),
        ("https:", Protocol::HTTPS, ""),
        ("http:////", Protocol::HTTP, ""),
        ("ftp://a", Protocol::HTTPS, "ftp://a"),
        ("//a", Protocol::HTTPS, "a"),
        ("", Protocol::HTTPS, ""),
        ("httpx://a", Protocol::HTTPS, "httpx://a"),
    ] {
        let mut data = with_uri(typed);
        data.protocol = Protocol::HTTP;
        data.parse_url();
        assert_eq!(data.protocol, protocol, "protocol of {:?}", typed);
        assert_eq!(data.uri, rest, "rest of {:?}", typed);
    }
}

#[test]
fn parse_url_without_a_query_keeps_the_parameters() {
    let mut data = with_uri("example.com");
    data.query_params.push(Header { key: "kept".to_string(), value: "1".to_string() });
    data.parse_url();
    assert_eq!(data.protocol, Protocol::HTTPS);
    assert_eq!(data.uri, "example.com");
    assert_eq!(pairs(&data.query_params), vec![pair("kept", "1")]);
}

#[test]
fn query_pieces_are_split_at_the_first_equals_sign() {
    let mut data = with_uri("a?k=v=w&&z&=x&y=");
    data.parse_url();
    assert_eq!(
        pairs(&data.query_params),
        vec![pair("k", "v=w"), pair("", ""), pair("z", ""), pair("", "x"), pair("y", "")]
    );
}

#[test]
fn empty_query_is_one_empty_parameter() {
    let mut data = with_uri("example.com?");
    data.query_params.push(Header { key: "gone".to_string(), value: "1".to_string() });
    data.parse_url();
    assert_eq!(pairs(&data.query_params), vec![pair("", "")]);
}

#[test]
fn only_the_first_question_mark_starts_the_query() {
    let mut data = with_uri("a?b=c?d&e");
    data.parse_url();
    assert_eq!(pairs(&data.query_params), vec![pair("b", "c?d"), pair("e", "")]);
}

#[test]
fn construct_url_writes_the_query_anew() {
    let mut data = with_uri("example.com/p?old=1");
    data.query_params = vec![
        Header { key: "a".to_string(), value: "1".to_string() },
        Header { key: "b".to_string(), value: "".to_string() },
        Header { key: "c".to_string(), value: "x y".to_string() },
    ];
    data.contruct_url();
    assert_eq!(data.uri, "example.com/p?a=1&b=&c=x y");

    let mut one = with_uri("example.com");
    one.query_params = vec![Header { key: "k".to_string(), value: "v".to_string() }];
    one.contruct_url();
    assert_eq!(one.uri, "example.com?k=v");
}

#[test]
fn construct_url_without_parameters_drops_the_query() {
    let mut data = with_uri("example.com/p?old=1&x");
    data.contruct_url();
    assert_eq!(data.uri, "example.com/p");
    let mut plain = with_uri("example.com/p");
    plain.contruct_url();
    assert_eq!(plain.uri, "example.com/p");
}

#[test]
fn parsing_what_was_constructed_gives_the_parameters_back() {
    let mut data = with_uri("example.com");
    data.query_params = vec![
        Header { key: "a".to_string(), value: "1".to_string() },
        Header { key: "b".to_string(), value: "two".to_string() },
    ];
    data.contruct_url();
    data.query_params = vec![];
    data.parse_url();
    assert_eq!(pairs(&data.query_params), vec![pair("a", "1"), pair("b", "two")]);
}

#[test]
fn copy_from_other_leaves_parameters_and_setup() {
    let mut source = with_uri("source.test");
    source.name = "source".to_string();
    source.protocol = Protocol::WS;
    source.method = Method::PUT;
    source.headers.push(Header { key: "h".to_string(), value: "v".to_string() });
    source.body = RequestBody::default();
    source.body.raw.set("line\nline".to_string());
    source.body.binary_path = "/tmp/file".to_string();
    source.body.form_data.push(BodyFromData {
        key: "f".to_string(),
        value: "g".to_string(),
        field_type: FormFieldType::File,
    });
    source.message.set("msg".to_string());
    source.query_params.push(Header { key: "q".to_string(), value: "1".to_string() });
    source.setup = RequestSetup::default_ws();

    let mut target = RequestData::default();
    target.query_params.push(Header { key: "mine".to_string(), value: "2".to_string() });
    target.copy_from_other(&source);

    assert_eq!(target.name, "source");
    assert_eq!(target.protocol, Protocol::WS);
    assert_eq!(target.method, Method::PUT);
    assert_eq!(target.uri, "source.test");
    assert_eq!(target.headers.len(), 1);
    assert_eq!(target.headers[0].key, "h");
    assert_eq!(target.body.raw.message, "line\nline");
    assert_eq!(target.body.raw.rows, 2);
    assert_eq!(target.body.binary_path, "/tmp/file");
    assert_eq!(target.body.form_data.len(), 1);
    assert_eq!(target.body.form_data[0].field_type, FormFieldType::File);
    assert_eq!(target.message.message, "msg");
    assert_eq!(pairs(&target.query_params), vec![pair("mine", "2")]);
    assert!(matches!(target.setup, RequestSetup::HTTP(_)));

    let copy = source.clone();
    assert_eq!(copy.name, "source");
    assert_eq!(pairs(&copy.query_params), vec![pair("q", "1")]);
    assert!(matches!(copy.setup, RequestSetup::WS(_)));
}

#[test]
fn websocket_handshake_headers_are_fixed() {
    let headers = default_ws_headers();
    assert_eq!(
        pairs(&headers),
        vec![
            pair("Host", "<calculated...>"),
            pair("Connection", "Upgrade"),
            pair("Upgrade", "websocket"),
            pair("Sec-WebSocket-Version", "13"),
            pair("Sec-WebSocket-Key", "<calculated...>"),
        ]
    );
}

#[test]
fn setups_hand_out_what_they_are() {
    let mut http = RequestSetup::default();
    assert!(http.http().is_some());
    assert!(http.ws().is_none());
    assert!(http.ws_mut().is_none());
    match http.http_mut() {
        Some(setup) => {
            setup.redirects_amount = "3".to_string();
            setup.http_version = HttpVersion::HTTPv2;
        }
        None => panic!("an HTTP setup"),
    }
    assert_eq!(http.http().unwrap().redirects_amount, "3");
    assert_eq!(http.http().unwrap().http_version, HttpVersion::HTTPv2);

    let mut ws = RequestSetup::default_ws();
    assert!(ws.http().is_none());
    assert!(ws.http_mut().is_none());
    assert_eq!(ws.ws().unwrap().reconnection_timeout, "5000");
    assert_eq!(ws.ws().unwrap().reconnection_attempts, "3");
    ws.ws_mut().unwrap().reconnection_attempts = "8".to_string();
    assert_eq!(ws.ws().unwrap().reconnection_attempts, "8");

    assert_eq!(RequestHttpSetup::default().redirects_amount, "9");
    assert_eq!(RequestWsSetup::default().reconnection_timeout, "5000");
    assert_eq!(HttpVersion::AUTO.to_string(), "AUTO");
    assert_eq!(HttpVersion::HTTPv1.to_string(), "HTTPv1");
    assert_eq!(HttpVersion::HTTPv2.to_string(), "HTTPv2");
}

#[test]
fn scheme_is_split_off_a_url_in_small_letters() {
    assert_eq!(split_scheme("http://a/b"), (Protocol::HTTP, "a/b".to_string()));
    assert_eq!(split_scheme("wss:/\\/a"), (Protocol::WSS, "a".to_string()));
    assert_eq!(split_scheme("a/b"), (Protocol::HTTPS, "a/b".to_string()));
    assert_eq!(split_scheme("/a"), (Protocol::HTTPS, "a".to_string()));
    // capitals are told apart: the caller puts the URL in small letters first
    assert_eq!(split_scheme("HTTP://a"), (Protocol::HTTPS, "HTTP://a".to_string()));
    assert_eq!(split_scheme("ws:"), (Protocol::WS, "".to_string()));
}
