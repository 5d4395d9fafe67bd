use serenity::http::client::reason_into_header;
use serenity::http::multipart::{CreateAttachment, Multipart, MultipartUpload, PartBody};
use serenity::http::params::QueryParams;
use serenity::http::request::{
    trim_trailing_slashes, LightMethod, Request, RequestHeader, TransportBody, USER_AGENT,
};
use serenity::http::routing::Route;
use serenity::model::id::{ChannelId, GuildId};

fn headers_of(headers: &[RequestHeader]) -> Vec<(String, String)> {
    headers.iter().map(|h| (h.name.to_string(), h.value.clone())).collect()
}

fn pair(name: &str, value: &str) -> (String, String) {
    (name.to_string(), value.to_string())
}

#[test]
fn method_names() {
    assert_eq!(LightMethod::Delete.name(), "DELETE");
    assert_eq!(LightMethod::Get.name(), "GET");
    assert_eq!(LightMethod::Patch.name(), "PATCH");
    assert_eq!(LightMethod::Post.name(), "POST");
    assert_eq!(LightMethod::Put.name(), "PUT");
}

#[test]
fn trailing_slashes_are_cut() {
    assert_eq!(trim_trailing_slashes("http://proxy/"), "http://proxy");
    assert_eq!(trim_trailing_slashes("http://proxy///"), "http://proxy");
    assert_eq!(trim_trailing_slashes("http://proxy"), "http://proxy");
    assert_eq!(trim_trailing_slashes("///"), "");
    assert_eq!(trim_trailing_slashes(""), "");
    assert_eq!(trim_trailing_slashes("http://пример/"), "http://пример");
}

#[test]
fn plain_request_goes_to_the_api_with_the_user_agent() {
    let req = Request::new(Route::Channel { channel_id: ChannelId::new(7) }, LightMethod::Get);
    let t = req.build(None, None);
    assert_eq!(t.method, LightMethod::Get);
    assert_eq!(t.url, "https://discord.com/api/v10/channels/7");
    assert_eq!(headers_of(&t.headers), vec![pair("user-agent", USER_AGENT)]);
    assert!(matches!(t.body, TransportBody::Empty));
}

#[test]
fn token_becomes_the_authorization_header() {
    let req = Request::new(Route::UserMe, LightMethod::Get);
    let t = req.build(Some("Bot abc.def"), None);
    assert_eq!(
        headers_of(&t.headers),
        vec![pair("user-agent", USER_AGENT), pair("authorization", "Bot abc.def")]
    );
}

#[test]
fn proxy_replaces_the_host_of_api_routes_only() {
    let req = Request::new(Route::Guild { guild_id: GuildId::new(1) }, LightMethod::Get);
    assert_eq!(
        req.build(None, Some("http://127.0.0.1:3000/")).url,
        "http://127.0.0.1:3000/api/v10/guilds/1"
    );
    let req = Request::new(Route::Guild { guild_id: GuildId::new(1) }, LightMethod::Get);
    assert_eq!(req.build(None, Some("http://myproxy.example")).url, "http://myproxy.example/api/v10/guilds/1");
    let req = Request::new(Route::StatusIncidentsUnresolved, LightMethod::Get);
    assert_eq!(
        req.build(None, Some("http://127.0.0.1:3000")).url,
        "https://status.discord.com/api/v2/incidents/unresolved.json"
    );
}

#[test]
fn query_parameters_follow_the_path() {
    let mut params = QueryParams::new();
    params.push(("limit", "50".to_string()));
    params.push(("after", "1234".to_string()));
    let mut req = Request::new(Route::GuildMembers { guild_id: GuildId::new(1) }, LightMethod::Get);
    req.params = Some(params);
    assert_eq!(req.build(None, None).url, "https://discord.com/api/v10/guilds/1/members?&limit=50&after=1234");
    let mut req = Request::new(Route::GuildMembers { guild_id: GuildId::new(1) }, LightMethod::Get);
    req.params = Some(QueryParams::new());
    assert_eq!(req.build(None, None).url, "https://discord.com/api/v10/guilds/1/members?");
}

#[test]
fn json_body_gets_its_content_type() {
    let mut req = Request::new(Route::Guilds, LightMethod::Post);
    req.body = Some(b"{\"name\":\"x\"}".to_vec());
    req.headers = Some(reason_into_header("because"));
    let t = req.build(Some("Bot t"), None);
    assert_eq!(
        headers_of(&t.headers),
        vec![
            pair("X-Audit-Log-Reason", "because"),
            pair("user-agent", USER_AGENT),
            pair("authorization", "Bot t"),
            pair("content-type", "application/json"),
        ]
    );
    match t.body {
        TransportBody::Json(bytes) => assert_eq!(bytes, b"{\"name\":\"x\"}".to_vec()),
        other => panic!("unexpected body {:?}", other),
    }
}

#[test]
fn reason_is_percent_encoded() {
    let headers = reason_into_header("foo bar?");
    assert_eq!(headers_of(&headers), vec![pair("X-Audit-Log-Reason", "foo%20bar%3F")]);
    let headers = reason_into_header("Grüße, 世界!\n");
    assert_eq!(
        headers_of(&headers),
        vec![pair("X-Audit-Log-Reason", "Gr%C3%BC%C3%9Fe%2C%20%E4%B8%96%E7%95%8C%21%0A")]
    );
    let headers = reason_into_header("");
    assert_eq!(headers_of(&headers), vec![pair("X-Audit-Log-Reason", "")]);
    let headers = reason_into_header("AZaz09-_.~%");
    assert_eq!(headers_of(&headers), vec![pair("X-Audit-Log-Reason", "AZaz09%2D%5F%2E%7E%25")]);
    for h in reason_into_header("\u{0}\u{7f}\u{ff}\t ") {
        assert!(h.value.bytes().all(|b| (0x21..=0x7e).contains(&b)));
    }
}

fn attachment(name: &str, data: &[u8]) -> CreateAttachment {
    CreateAttachment::bytes(data.to_vec(), name.to_string())
}

#[test]
fn attachments_become_numbered_parts() {
    let m = Multipart {
        upload: MultipartUpload::Attachments(vec![
            attachment("a.png", b"aaa"),
            attachment("b.txt", b"bb"),
            attachment("c.bin", b""),
        ]),
        payload_json: Some("{\"content\":\"hi\"}".to_string()),
        fields: vec![("k".to_string(), "v".to_string())],
    };
    let parts = m.into_parts();
    let names: Vec<&str> = parts.iter().map(|p| p.name.as_str()).collect();
    assert_eq!(names, vec!["files[0]", "files[1]", "files[2]", "k", "payload_json"]);
    match &parts[0].body {
        PartBody::File { filename, data } => {
            assert_eq!(filename, "a.png");
            assert_eq!(data, b"aaa");
        },
        other => panic!("unexpected part {:?}", other),
    }
    match &parts[1].body {
        PartBody::File { filename, data } => {
            assert_eq!(filename, "b.txt");
            assert_eq!(data, b"bb");
        },
        other => panic!("unexpected part {:?}", other),
    }
    assert!(matches!(&parts[3].body, PartBody::Text(v) if v == "v"));
    assert!(matches!(&parts[4].body, PartBody::Json(j) if j == "{\"content\":\"hi\"}"));
}

#[test]
fn many_attachments_keep_their_order() {
    let files: Vec<CreateAttachment> =
        (0..12).map(|i| attachment(&format!("f{}", i), &[i as u8])).collect();
    let m = Multipart { upload: MultipartUpload::Attachments(files), payload_json: None, fields: Vec::new() };
    let parts = m.into_parts();
    assert_eq!(parts.len(), 12);
    for (i, part) in parts.iter().enumerate() {
        assert_eq!(part.name, format!("files[{}]", i));
        match &part.body {
            PartBody::File { filename, data } => {
                assert_eq!(filename, &format!("f{}", i));
                assert_eq!(data, &vec![i as u8]);
            },
            other => panic!("unexpected part {:?}", other),
        }
    }
}

#[test]
fn single_file_is_the_part_named_file() {
    let m = Multipart {
        upload: MultipartUpload::File(attachment("sticker.png", b"png")),
        payload_json: None,
        fields: vec![("name".to_string(), "wave".to_string()), ("tags".to_string(), "hi".to_string())],
    };
    let parts = m.into_parts();
    let names: Vec<&str> = parts.iter().map(|p| p.name.as_str()).collect();
    assert_eq!(names, vec!["file", "name", "tags"]);
    assert!(matches!(&parts[0].body, PartBody::File { filename, .. } if filename == "sticker.png"));
    assert!(matches!(&parts[2].body, PartBody::Text(v) if v == "hi"));
}

#[test]
fn no_attachments_leave_only_fields_and_payload() {
    let m = Multipart {
        upload: MultipartUpload::Attachments(Vec::new()),
        payload_json: Some("{}".to_string()),
        fields: Vec::new(),
    };
    let parts = m.into_parts();
    assert_eq!(parts.len(), 1);
    assert_eq!(parts[0].name, "payload_json");
}

#[test]
fn multipart_request_sends_a_form_without_content_type() {
    let mut req = Request::new(Route::ChannelMessages { channel_id: ChannelId::new(1) }, LightMethod::Post);
    req.multipart = Some(Multipart {
        upload: MultipartUpload::Attachments(vec![attachment("a", b"1")]),
        payload_json: Some("{}".to_string()),
        fields: Vec::new(),
    });
    let t = req.build(None, None);
    assert_eq!(headers_of(&t.headers), vec![pair("user-agent", USER_AGENT)]);
    match t.body {
        TransportBody::Form(parts) => assert_eq!(parts.len(), 2),
        other => panic!("unexpected body {:?}", other),
    }
}

#[test]
fn attachment_description_is_set() {
    let a = attachment("a.png", b"x").description("a picture".to_string());
    assert_eq!(a.description.as_deref(), Some("a picture"));
    assert_eq!(a.filename, "a.png");
    assert_eq!(a.data, b"x");
}
