use youtube_search_api::delegate::{
    after_first_parse, after_second_parse, command, payload_of, read_output, respond,
    take_result, FirstStage, Operation, ProcessOutput,
};
use youtube_search_api::error::ServiceError;
use youtube_search_api::json::{Json, Member};
use youtube_search_api::response::{Payload, ResponseEnvelope};

fn text(s: &str) -> Json {
    Json::Text(s.to_string())
}

fn number(n: u64) -> Json {
    Json::Number(serde_json::Number::from(n))
}

fn object(members: Vec<(&str, Json)>) -> Json {
    Json::Object(members.into_iter().map(|(k, v)| Member { key: k.to_string(), value: v }).collect())
}

fn output(success: bool, stdout: &str, stderr: &str) -> ProcessOutput {
    ProcessOutput { success, stdout: stdout.as_bytes().to_vec(), stderr: stderr.as_bytes().to_vec() }
}

#[test]
fn command_names_program_script_and_function() {
    let c = command(Operation::SimilaritySearch, "rust tutorial");
    assert_eq!(c.program, "./venv/bin/python");
    assert_eq!(c.directory, ".");
    assert_eq!(c.script, "my_mcp_client.py");
    assert_eq!(c.function, "search_similar_youtube_video");
    assert_eq!(c.argument, "{\"query\":\"rust tutorial\"}");
}

#[test]
fn command_of_each_operation() {
    let c = command(Operation::VideoSearch, "cats");
    assert_eq!((c.function.as_str(), c.argument.as_str()), ("search_youtube_videos", "{\"query\":\"cats\"}"));
    let c = command(Operation::ChannelInfo, "https://youtu.be/dQw4w9WgXcQ");
    assert_eq!(
        (c.function.as_str(), c.argument.as_str()),
        ("get_channel_info", "{\"video_url\":\"https://youtu.be/dQw4w9WgXcQ\"}")
    );
    let c = command(Operation::SaveChannel, "UC123");
    assert_eq!(
        (c.function.as_str(), c.argument.as_str()),
        ("save_channel_youtube_embeddings", "{\"channel_id\":\"UC123\"}")
    );
    let c = command(Operation::Transcript, "u");
    assert_eq!((c.function.as_str(), c.argument.as_str()), ("get_youtube_transcript", "{\"url\":\"u\"}"));
}

#[test]
fn command_escapes_the_input() {
    let c = command(Operation::VideoSearch, "say \"hi\"\n한글");
    assert_eq!(c.argument, "{\"query\":\"say \\\"hi\\\"\\n한글\"}");
}

#[test]
fn successful_output_is_trimmed() {
    assert_eq!(read_output(output(true, "  {\"a\": 1}\n", "warning")), Ok("{\"a\": 1}".to_string()));
    assert_eq!(read_output(output(true, "", "")), Ok(String::new()));
}

#[test]
fn failed_run_keeps_both_streams() {
    assert_eq!(
        read_output(output(false, " partial ", "Traceback\n")),
        Err(ServiceError::Delegation { stderr: "Traceback\n".to_string(), stdout: " partial ".to_string() })
    );
}

#[test]
fn bytes_that_are_no_utf8_are_refused() {
    let bad = vec![0xffu8, 0xfe];
    assert_eq!(
        read_output(ProcessOutput { success: true, stdout: bad.clone(), stderr: Vec::new() }),
        Err(ServiceError::DelegationEncoding)
    );
    assert_eq!(
        read_output(ProcessOutput { success: false, stdout: Vec::new(), stderr: bad.clone() }),
        Err(ServiceError::DelegationEncoding)
    );
    assert_eq!(
        read_output(ProcessOutput { success: false, stdout: bad, stderr: b"x".to_vec() }),
        Err(ServiceError::DelegationEncoding)
    );
    assert_eq!(
        read_output(ProcessOutput { success: true, stdout: b"ok".to_vec(), stderr: vec![0xff] }),
        Ok("ok".to_string())
    );
}

#[test]
fn take_result_unwraps_the_member() {
    let doc = object(vec![("status", text("ok")), ("result", object(vec![("a", number(1))]))]);
    assert_eq!(take_result(doc), (object(vec![("a", number(1))]), true));
}

#[test]
fn take_result_leaves_other_documents_whole() {
    assert_eq!(take_result(object(vec![("a", number(1))])), (object(vec![("a", number(1))]), false));
    assert_eq!(take_result(text("result")), (text("result"), false));
    assert_eq!(take_result(Json::Array(vec![text("result")])), (Json::Array(vec![text("result")]), false));
    assert_eq!(take_result(Json::Null), (Json::Null, false));
}

#[test]
fn take_result_takes_the_last_of_two() {
    let doc = object(vec![("result", number(1)), ("result", number(2))]);
    assert_eq!(take_result(doc), (number(2), true));
}

#[test]
fn take_result_keeps_a_null_result() {
    assert_eq!(take_result(object(vec![("result", Json::Null)])), (Json::Null, true));
}

#[test]
fn payload_is_the_result_member() {
    assert_eq!(
        payload_of(Operation::SimilaritySearch, "{\"result\": {\"video_id\": \"abc\"}}".to_string()),
        Ok(object(vec![("video_id", text("abc"))]))
    );
    assert_eq!(
        payload_of(Operation::ChannelInfo, "{\"channel_id\": \"UC1\"}".to_string()),
        Ok(object(vec![("channel_id", text("UC1"))]))
    );
    assert_eq!(payload_of(Operation::Transcript, "[1, 2]".to_string()), Ok(Json::Array(vec![number(1), number(2)])));
}

#[test]
fn payload_of_save_unwraps_the_result_too() {
    assert_eq!(
        payload_of(Operation::SaveChannel, "{\"result\": {\"message\": \"saved\"}}".to_string()),
        Ok(object(vec![("message", text("saved"))]))
    );
}

#[test]
fn keyword_search_decodes_a_string_result_again() {
    let out = "{\"result\": \"[{\\\"title\\\": \\\"t\\\"}]\"}".to_string();
    assert_eq!(
        payload_of(Operation::VideoSearch, out),
        Ok(Json::Array(vec![object(vec![("title", text("t"))])]))
    );
}

#[test]
fn keyword_search_keeps_a_string_that_holds_no_json() {
    assert_eq!(
        payload_of(Operation::VideoSearch, "{\"result\": \"no videos\"}".to_string()),
        Ok(text("no videos"))
    );
}

#[test]
fn keyword_search_decodes_only_the_result_member() {
    assert_eq!(payload_of(Operation::VideoSearch, "\"[1]\"".to_string()), Ok(text("[1]")));
    assert_eq!(
        payload_of(Operation::VideoSearch, "{\"data\": \"[1]\"}".to_string()),
        Ok(object(vec![("data", text("[1]"))]))
    );
}

#[test]
fn other_operations_never_decode_twice() {
    for op in [Operation::SimilaritySearch, Operation::ChannelInfo, Operation::SaveChannel, Operation::Transcript] {
        assert_eq!(payload_of(op, "{\"result\": \"[1]\"}".to_string()), Ok(text("[1]")));
    }
}

#[test]
fn plain_text_is_a_transcript_or_a_message() {
    assert_eq!(
        payload_of(Operation::Transcript, "hello world".to_string()),
        Ok(object(vec![("transcript", text("hello world"))]))
    );
    assert_eq!(
        payload_of(Operation::SaveChannel, "saved 3 videos".to_string()),
        Ok(object(vec![("message", text("saved 3 videos"))]))
    );
}

#[test]
fn plain_text_is_an_error_for_the_other_operations() {
    for op in [Operation::SimilaritySearch, Operation::VideoSearch, Operation::ChannelInfo] {
        assert_eq!(
            payload_of(op, "oops".to_string()),
            Err(ServiceError::DelegationOutput("expected value at line 1 column 1".to_string()))
        );
    }
}

#[test]
fn after_first_parse_takes_the_parser_outcome_as_given() {
    let doc = object(vec![("result", text("[1]"))]);
    assert_eq!(
        after_first_parse(Operation::VideoSearch, "ignored".to_string(), Ok(doc)),
        FirstStage::Again("[1]".to_string())
    );
    assert_eq!(
        after_first_parse(Operation::VideoSearch, "raw".to_string(), Err("bad".to_string())),
        FirstStage::Settled(Err(ServiceError::DelegationOutput("bad".to_string())))
    );
    assert_eq!(
        after_first_parse(Operation::Transcript, "raw".to_string(), Err("bad".to_string())),
        FirstStage::Settled(Ok(object(vec![("transcript", text("raw"))])))
    );
}

#[test]
fn after_second_parse_falls_back_to_the_string() {
    assert_eq!(after_second_parse("[1]".to_string(), Ok(Json::Array(vec![number(1)]))), Json::Array(vec![number(1)]));
    assert_eq!(after_second_parse("x".to_string(), Err("bad".to_string())), text("x"));
}

#[test]
fn respond_wraps_the_payload() {
    let r = respond(Operation::SimilaritySearch, output(true, "{\"result\": {\"score\": 1}}\n", ""));
    assert_eq!(
        r,
        ResponseEnvelope {
            success: true,
            data: Some(Payload::Document(object(vec![("score", number(1))]))),
            error: None
        }
    );
    assert_eq!(r.status(), 200);
}

#[test]
fn respond_reports_a_failed_run() {
    let r = respond(Operation::SimilaritySearch, output(false, "", "boom"));
    assert_eq!(
        r,
        ResponseEnvelope { success: false, data: None, error: Some("Python 함수 실행 오류: boom".to_string()) }
    );
    assert_eq!(r.status(), 500);
}

#[test]
fn respond_reports_output_that_is_no_json() {
    let r = respond(Operation::ChannelInfo, output(true, "oops", ""));
    assert_eq!(
        r,
        ResponseEnvelope {
            success: false,
            data: None,
            error: Some("JSON 파싱 오류: expected value at line 1 column 1".to_string())
        }
    );
    assert_eq!(r.status(), 500);
}
