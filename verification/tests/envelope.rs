use dockers::api::docker::conclude;
use dockers::api::docker::reply;
use dockers::api::docker::respond;
use dockers::common::errors::MessageError;
use dockers::common::json::Json;
use dockers::common::resp::api_resp_fail;
use dockers::common::resp::api_resp_sucess;
use dockers::common::resp::BaseResponse;
use dockers::schema::docker::DockerVersionInfo;
use dockers::service::docker::Report;

fn member(key: &str, value: Json) -> (String, Json) {
    (key.to_string(), value)
}

#[test]
fn success_envelope_has_code_200_and_data() {
    let r = api_resp_sucess(7u32).unwrap();
    assert_eq!(r.code, 200);
    assert_eq!(r.message, "operation succeeded");
    assert_eq!(r.data, Some(7u32));
}

#[test]
fn success_envelope_of_unit_has_data_present() {
    let r = api_resp_sucess(()).unwrap();
    assert_eq!(r, BaseResponse { code: 200, message: "operation succeeded".to_string(), data: Some(()) });
}

#[test]
fn failure_envelope_has_code_message_and_no_data() {
    let r = api_resp_fail::<String>(503, "boom").unwrap();
    assert_eq!(r, BaseResponse { code: 503, message: "boom".to_string(), data: None });
}

#[test]
fn reply_wraps_data_in_success_envelope() {
    let r = reply(Ok(vec![1u8, 2, 3])).unwrap();
    assert_eq!(r.code, 200);
    assert_eq!(r.data, Some(vec![1u8, 2, 3]));
}

#[test]
fn reply_hands_the_error_on() {
    let r = reply::<u8>(Err(MessageError::Common("no".to_string())));
    assert_eq!(r, Err(MessageError::Common("no".to_string())));
}

#[test]
fn respond_keeps_a_success_envelope() {
    let envelope = api_resp_sucess("x".to_string()).unwrap();
    assert_eq!(respond(Ok(envelope.clone())), envelope);
}

#[test]
fn respond_turns_an_error_into_a_failure_envelope() {
    let r = respond::<u8>(Err(MessageError::HttpRequestError(Some(404), "gone".to_string())));
    assert_eq!(r, BaseResponse { code: 404, message: "gone".to_string(), data: None });
}

#[test]
fn conclude_success_has_code_200_and_data() {
    let r = conclude(Ok(5i64));
    assert_eq!(r.code, 200);
    assert_eq!(r.data, Some(5i64));
}

#[test]
fn conclude_failure_has_no_data_and_another_code() {
    let r = conclude::<i64>(Err(MessageError::new("container exec failed")));
    assert_eq!(r.code, 500);
    assert_ne!(r.code, 200);
    assert_eq!(r.message, "container exec failed");
    assert_eq!(r.data, None);
}

#[test]
fn envelope_json_has_code_message_data_in_order() {
    let r = api_resp_sucess("hi".to_string()).unwrap();
    assert_eq!(
        r.to_json(),
        Json::Object(vec![
            member("code", Json::Unsigned(200)),
            member("message", Json::Text("operation succeeded".to_string())),
            member("data", Json::Text("hi".to_string())),
        ])
    );
}

#[test]
fn failure_envelope_json_has_null_data() {
    let r = api_resp_fail::<String>(404, "requested route does not exist").unwrap();
    assert_eq!(
        r.to_json(),
        Json::Object(vec![
            member("code", Json::Unsigned(404)),
            member("message", Json::Text("requested route does not exist".to_string())),
            member("data", Json::Null),
        ])
    );
}

#[test]
fn unit_data_is_written_as_null() {
    let r = api_resp_sucess(()).unwrap();
    assert_eq!(
        r.to_json(),
        Json::Object(vec![
            member("code", Json::Unsigned(200)),
            member("message", Json::Text("operation succeeded".to_string())),
            member("data", Json::Null),
        ])
    );
}

#[test]
fn version_json_keeps_engine_names_and_omits_absent_fields() {
    let info = DockerVersionInfo::new(Some("24.0.7".to_string()), None, Some("amd64".to_string()), None);
    assert_eq!(
        info.to_json(),
        Json::Object(vec![
            member("Version", Json::Text("24.0.7".to_string())),
            member("Arch", Json::Text("amd64".to_string())),
        ])
    );
}

#[test]
fn version_json_with_all_fields() {
    let info = DockerVersionInfo::new(
        Some("24.0.7".to_string()),
        Some("linux".to_string()),
        Some("amd64".to_string()),
        Some("6.1.0".to_string()),
    );
    assert_eq!(
        info.to_json(),
        Json::Object(vec![
            member("Version", Json::Text("24.0.7".to_string())),
            member("Os", Json::Text("linux".to_string())),
            member("Arch", Json::Text("amd64".to_string())),
            member("KernelVersion", Json::Text("6.1.0".to_string())),
        ])
    );
}

#[test]
fn version_json_of_an_empty_report_is_an_empty_object() {
    let info = DockerVersionInfo::new(None, None, None, None);
    assert_eq!(info.to_json(), Json::Object(vec![]));
}

#[test]
fn reports_are_written_as_the_data_of_the_envelope() {
    let info = DockerVersionInfo::new(None, Some("linux".to_string()), None, None);
    assert_eq!(
        conclude(Ok(Report::Version(info))).to_json(),
        Json::Object(vec![
            member("code", Json::Unsigned(200)),
            member("message", Json::Text("operation succeeded".to_string())),
            member("data", Json::Object(vec![member("Os", Json::Text("linux".to_string()))])),
        ])
    );
    assert_eq!(
        conclude(Ok(Report::Listing(Json::List(vec![Json::Unsigned(1)])))).to_json(),
        Json::Object(vec![
            member("code", Json::Unsigned(200)),
            member("message", Json::Text("operation succeeded".to_string())),
            member("data", Json::List(vec![Json::Unsigned(1)])),
        ])
    );
    assert_eq!(
        conclude(Ok(Report::Nothing)).to_json(),
        Json::Object(vec![
            member("code", Json::Unsigned(200)),
            member("message", Json::Text("operation succeeded".to_string())),
            member("data", Json::Null),
        ])
    );
    assert_eq!(
        conclude::<Report>(Err(MessageError::new("container exec failed"))).to_json(),
        Json::Object(vec![
            member("code", Json::Unsigned(500)),
            member("message", Json::Text("container exec failed".to_string())),
            member("data", Json::Null),
        ])
    );
}

#[test]
fn version_envelope_carries_the_report_as_given() {
    let info = DockerVersionInfo::new(None, Some("linux".to_string()), None, None);
    let first = conclude(Ok(info.clone()));
    let second = conclude(Ok(info.clone()));
    assert_eq!(first, second);
    assert_eq!(first.data, Some(info));
}
