use dockers::common::json::Json;
use dockers::common::resp::ApiReq;
use dockers::common::resp::Payload;
use dockers::schema::docker::text_list_to_json;
use dockers::schema::docker::ReqContainer;
use dockers::schema::docker::ReqExecContainer;
use dockers::schema::docker::ReqRunContainer;

fn member(key: &str, value: Json) -> (String, Json) {
    (key.to_string(), value)
}

fn text(value: &str) -> Json {
    Json::Text(value.to_string())
}

fn exec_request(id: &str, command: Option<Vec<&str>>) -> ReqExecContainer {
    ReqExecContainer {
        command: command.map(|list| list.into_iter().map(|s| s.to_string()).collect()),
        container_id: ReqContainer { container_id: id.to_string() },
    }
}

#[test]
fn page_and_size_default_to_1_and_20() {
    let req = ApiReq { page_no: None, page_size: None, params: () };
    assert_eq!(req.page(), 1);
    assert_eq!(req.size(), 20);
}

#[test]
fn page_and_size_give_what_the_request_names() {
    let req = ApiReq { page_no: Some(3), page_size: Some(50), params: () };
    assert_eq!(req.page(), 3);
    assert_eq!(req.size(), 50);
    let req = ApiReq { page_no: Some(0), page_size: None, params: () };
    assert_eq!(req.page(), 0);
    assert_eq!(req.size(), 20);
}

#[test]
fn params_gives_the_payload() {
    let req = ApiReq::bound(ReqRunContainer { image: "a:b".to_string() });
    assert_eq!(req.params().image, "a:b");
    assert_eq!(req.page_no, Some(1));
    assert_eq!(req.page_size, Some(20));
}

#[test]
fn binding_a_run_request_applies_the_default_pagination() {
    let r = ApiReq::<ReqRunContainer>::from_request(br#"{"image": "nginx:latest"}"#);
    assert_eq!(
        r,
        Ok(ApiReq { page_no: Some(1), page_size: Some(20), params: ReqRunContainer { image: "nginx:latest".to_string() } })
    );
}

#[test]
fn binding_ignores_the_pagination_of_the_body() {
    let r = ApiReq::<ReqRunContainer>::from_request(br#"{"pageNo": 7, "pageSize": 100, "image": "a"}"#).unwrap();
    assert_eq!(r.page_no, Some(1));
    assert_eq!(r.page_size, Some(20));
    assert_eq!(r.page(), 1);
    assert_eq!(r.size(), 20);
    assert_eq!(r.params.image, "a");
}

#[test]
fn binding_ignores_members_it_does_not_know() {
    let r = ApiReq::<ReqContainer>::from_request(br#"{"containerId": "c1", "extra": [1, 2]}"#).unwrap();
    assert_eq!(r.params, ReqContainer { container_id: "c1".to_string() });
}

#[test]
fn binding_rejects_a_body_that_is_no_utf8() {
    let r = ApiReq::<ReqRunContainer>::from_request(&[0x7b, 0xff, 0x7d]);
    assert_eq!(r, Err((400, "invalid utf-8 sequence of 1 bytes from index 1".to_string())));
}

#[test]
fn binding_rejects_a_body_that_is_no_json() {
    let r = ApiReq::<ReqRunContainer>::from_request(b"image=nginx");
    assert_eq!(r, Err((400, "expected value at line 1 column 1".to_string())));
    let r = ApiReq::<ReqRunContainer>::from_request(b"");
    assert_eq!(r, Err((400, "EOF while parsing a value at line 1 column 0".to_string())));
}

#[test]
fn binding_rejects_a_document_of_the_wrong_shape() {
    let r = ApiReq::<ReqRunContainer>::from_request(br#"{"img": "nginx"}"#);
    assert_eq!(r, Err((400, "missing field `image`".to_string())));
    let r = ApiReq::<ReqRunContainer>::from_request(br#"{"image": 5}"#);
    assert_eq!(r, Err((400, "invalid type for field `image`".to_string())));
    let r = ApiReq::<ReqRunContainer>::from_request(br#"["nginx"]"#);
    assert_eq!(r, Err((400, "invalid type: expected an object".to_string())));
    let r = ApiReq::<ReqContainer>::from_request(br#"{"container_id": "c1"}"#);
    assert_eq!(r, Err((400, "missing field `containerId`".to_string())));
}

#[test]
fn binding_an_exec_request_reads_the_command() {
    let r = ApiReq::<ReqExecContainer>::from_request(br#"{"containerId": "c1", "command": ["ls", "-l"]}"#).unwrap();
    assert_eq!(r.params, exec_request("c1", Some(vec!["ls", "-l"])));
    let r = ApiReq::<ReqExecContainer>::from_request(br#"{"containerId": "c1"}"#).unwrap();
    assert_eq!(r.params, exec_request("c1", None));
    let r = ApiReq::<ReqExecContainer>::from_request(br#"{"containerId": "c1", "command": null}"#).unwrap();
    assert_eq!(r.params, exec_request("c1", None));
    let r = ApiReq::<ReqExecContainer>::from_request(br#"{"containerId": "c1", "command": []}"#).unwrap();
    assert_eq!(r.params, exec_request("c1", Some(vec![])));
}

#[test]
fn binding_an_exec_request_complains_about_the_identifier_first() {
    let r = ApiReq::<ReqExecContainer>::from_request(br#"{"command": "ls"}"#);
    assert_eq!(r, Err((400, "missing field `containerId`".to_string())));
    let r = ApiReq::<ReqExecContainer>::from_request(br#"{"containerId": "c1", "command": "ls"}"#);
    assert_eq!(r, Err((400, "invalid type for field `command`".to_string())));
    let r = ApiReq::<ReqExecContainer>::from_request(br#"{"containerId": "c1", "command": ["ls", 1]}"#);
    assert_eq!(r, Err((400, "invalid type for field `command`".to_string())));
}

#[test]
fn from_document_binds_a_tree() {
    let doc = Json::Object(vec![member("image", text("redis:7"))]);
    assert_eq!(
        ApiReq::<ReqRunContainer>::from_document(&doc),
        Ok(ApiReq::bound(ReqRunContainer { image: "redis:7".to_string() }))
    );
    assert_eq!(
        ApiReq::<ReqRunContainer>::from_document(&Json::Null),
        Err((400, "invalid type: expected an object".to_string()))
    );
}

#[test]
fn from_parsed_hands_the_parser_s_complaint_on() {
    assert_eq!(
        ApiReq::<ReqContainer>::from_parsed(Err("trailing characters".to_string())),
        Err((400, "trailing characters".to_string()))
    );
    assert_eq!(
        ApiReq::<ReqContainer>::from_parsed(Ok(Json::Object(vec![member("containerId", text("c9"))]))),
        Ok(ApiReq::bound(ReqContainer { container_id: "c9".to_string() }))
    );
}

#[test]
fn requests_are_written_with_their_wire_names() {
    let req = ApiReq { page_no: Some(2), page_size: None, params: exec_request("c1", Some(vec!["sh"])) };
    assert_eq!(
        req.to_json(),
        Json::Object(vec![
            member("pageNo", Json::Unsigned(2)),
            member("containerId", text("c1")),
            member("command", Json::List(vec![text("sh")])),
        ])
    );
    let req = ApiReq { page_no: None, page_size: Some(5), params: ReqRunContainer { image: "a".to_string() } };
    assert_eq!(req.to_json(), Json::Object(vec![member("pageSize", Json::Unsigned(5)), member("image", text("a"))]));
}

#[test]
fn an_absent_command_is_written_as_null() {
    assert_eq!(
        exec_request("c1", None).to_fields(),
        vec![member("containerId", text("c1")), member("command", Json::Null)]
    );
}

#[test]
fn text_lists_are_written_as_lists_of_texts() {
    assert_eq!(text_list_to_json(&vec!["a".to_string(), "".to_string()]), Json::List(vec![text("a"), text("")]));
    assert_eq!(text_list_to_json(&vec![]), Json::List(vec![]));
}

#[test]
fn binding_what_was_written_gives_the_payload_back() {
    let run = ApiReq { page_no: Some(9), page_size: Some(9), params: ReqRunContainer { image: "repo:tag".to_string() } };
    assert_eq!(ApiReq::<ReqRunContainer>::from_document(&run.to_json()), Ok(ApiReq::bound(run.params.clone())));
    let one = ApiReq { page_no: None, page_size: None, params: ReqContainer { container_id: "abc".to_string() } };
    assert_eq!(ApiReq::<ReqContainer>::from_document(&one.to_json()), Ok(ApiReq::bound(one.params.clone())));
    let with = ApiReq { page_no: None, page_size: Some(1), params: exec_request("abc", Some(vec!["echo", "hi"])) };
    assert_eq!(ApiReq::<ReqExecContainer>::from_document(&with.to_json()), Ok(ApiReq::bound(with.params.clone())));
    let without = ApiReq { page_no: Some(4), page_size: None, params: exec_request("abc", None) };
    assert_eq!(ApiReq::<ReqExecContainer>::from_document(&without.to_json()), Ok(ApiReq::bound(without.params.clone())));
}

#[test]
fn payloads_read_back_behind_members_in_front() {
    let mut members = vec![member("command", Json::List(vec![text("old")])), member("containerId", text("old"))];
    members.extend(exec_request("new", None).to_fields());
    assert_eq!(ReqExecContainer::from_json(&Json::Object(members)), Ok(exec_request("new", None)));
}

#[test]
fn reading_a_request_keeps_the_pagination_it_names() {
    let doc = Json::Object(vec![
        member("pageNo", Json::Unsigned(3)),
        member("pageSize", Json::Unsigned(50)),
        member("image", text("a")),
    ]);
    let req = ApiReq::<ReqRunContainer>::from_json(&doc).unwrap();
    assert_eq!(req, ApiReq { page_no: Some(3), page_size: Some(50), params: ReqRunContainer { image: "a".to_string() } });
    assert_eq!(req.page(), 3);
    assert_eq!(req.size(), 50);
}

#[test]
fn reading_a_request_without_pagination_gives_page_1_and_size_20() {
    let doc = Json::Object(vec![member("containerId", text("c1"))]);
    let req = ApiReq::<ReqContainer>::from_json(&doc).unwrap();
    assert_eq!(req.page_no, None);
    assert_eq!(req.page_size, None);
    assert_eq!(req.page(), 1);
    assert_eq!(req.size(), 20);
    let doc = Json::Object(vec![member("pageNo", Json::Null), member("containerId", text("c1"))]);
    let req = ApiReq::<ReqContainer>::from_json(&doc).unwrap();
    assert_eq!(req.page(), 1);
}

#[test]
fn reading_a_request_complains_about_pagination_that_is_no_number() {
    let doc = Json::Object(vec![member("pageNo", text("3")), member("image", text("a"))]);
    assert_eq!(ApiReq::<ReqRunContainer>::from_json(&doc), Err("invalid type for field `pageNo`".to_string()));
    let doc = Json::Object(vec![member("pageSize", Json::Signed(-1)), member("image", text("a"))]);
    assert_eq!(ApiReq::<ReqRunContainer>::from_json(&doc), Err("invalid type for field `pageSize`".to_string()));
    let doc = Json::Object(vec![member("pageSize", Json::Decimal("1.5".to_string())), member("image", text("a"))]);
    assert_eq!(ApiReq::<ReqRunContainer>::from_json(&doc), Err("invalid type for field `pageSize`".to_string()));
    let doc = Json::Object(vec![member("pageNo", Json::Unsigned(1))]);
    assert_eq!(ApiReq::<ReqRunContainer>::from_json(&doc), Err("missing field `image`".to_string()));
    assert_eq!(ApiReq::<ReqRunContainer>::from_json(&Json::Null), Err("invalid type: expected an object".to_string()));
}

#[test]
fn reading_what_was_written_gives_the_request_back() {
    let run = ApiReq { page_no: Some(9), page_size: None, params: ReqRunContainer { image: "repo:tag".to_string() } };
    assert_eq!(ApiReq::<ReqRunContainer>::from_json(&run.to_json()), Ok(run));
    let with = ApiReq { page_no: None, page_size: Some(usize::MAX), params: exec_request("abc", Some(vec!["echo", "hi"])) };
    assert_eq!(ApiReq::<ReqExecContainer>::from_json(&with.to_json()), Ok(with));
    let without = ApiReq { page_no: Some(0), page_size: Some(0), params: exec_request("abc", None) };
    assert_eq!(ApiReq::<ReqExecContainer>::from_json(&without.to_json()), Ok(without));
}
