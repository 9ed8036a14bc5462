use repo_stats::failure::{exit_status, Failure, FAILURE_STATUS, SUCCESS_STATUS};
use repo_stats::records::{Fault, Field};
use repo_stats::request::{github_request, ResponseBuffer};
use repo_stats::run::{plan_request, present_response};
use repo_stats::table::{header_line, separator_line, title_line};

fn buffer_of(chunks: &[&[u8]]) -> ResponseBuffer {
    let mut buffer = ResponseBuffer::new();
    for chunk in chunks {
        assert_eq!(buffer.write(chunk), chunk.len());
    }
    buffer
}

#[test]
fn request_for_a_user() {
    let config = vec!["me".to_string(), "secret".to_string()];
    let request = github_request(&config, "octocat").unwrap();
    assert_eq!(request.url, "https://api.github.com/users/octocat/repos");
    assert_eq!(request.username, "me");
    assert_eq!(request.password, "secret");
    assert_eq!(request.user_agent, "request");
}

#[test]
fn lines_after_the_second_are_not_read() {
    let config = vec![" me ".to_string(), "".to_string(), "x".to_string()];
    let request = github_request(&config, "a/b").unwrap();
    assert_eq!(request.url, "https://api.github.com/users/a/b/repos");
    assert_eq!(request.username, " me ");
    assert_eq!(request.password, "");
}

#[test]
fn config_of_fewer_than_two_lines() {
    assert_eq!(github_request(&Vec::new(), "u").unwrap_err(), Failure::ConfigIncomplete);
    assert_eq!(
        github_request(&vec!["me".to_string()], "u").unwrap_err(),
        Failure::ConfigIncomplete
    );
}

#[test]
fn missing_config_file_sends_nothing() {
    let failure = plan_request("octocat", None).unwrap_err();
    assert_eq!(failure, Failure::ConfigUnreadable);
    assert_ne!(exit_status(Some(failure)), 0);
}

#[test]
fn plan_of_a_good_config() {
    let request = plan_request("octocat", Some(b"me\r\ntoken\r\n".to_vec())).unwrap();
    assert_eq!(request.url, "https://api.github.com/users/octocat/repos");
    assert_eq!(request.username, "me");
    assert_eq!(request.password, "token");
}

#[test]
fn plan_of_a_bad_config() {
    assert_eq!(plan_request("u", Some(vec![0x80])).unwrap_err(), Failure::ConfigNotText);
    assert_eq!(plan_request("u", Some(b"me\n".to_vec())).unwrap_err(), Failure::ConfigIncomplete);
    assert_eq!(plan_request("u", Some(Vec::new())).unwrap_err(), Failure::ConfigIncomplete);
}

#[test]
fn buffer_joins_the_chunks() {
    let mut buffer = ResponseBuffer::new();
    assert_eq!(buffer.len(), 0);
    assert_eq!(buffer.write(b"[1,"), 3);
    assert_eq!(buffer.write(b""), 0);
    assert_eq!(buffer.write(b" 2]"), 3);
    assert_eq!(buffer.len(), 6);
    assert_eq!(buffer.into_text().unwrap(), "[1, 2]");
}

#[test]
fn character_split_over_two_chunks() {
    let buffer = buffer_of(&[&[b'a', 0xc3], &[0xa9, b'b']]);
    assert_eq!(buffer.into_text().unwrap(), "aéb");
}

#[test]
fn body_that_is_not_text() {
    let buffer = buffer_of(&[b"[\"", &[0xff], b"\"]"]);
    assert_eq!(buffer.into_text().unwrap_err(), Failure::BodyNotText);
    let out = present_response("u", Some(buffer_of(&[&[0xc3]])));
    assert_eq!(out.failure, Some(Failure::BodyNotText));
    assert!(out.lines.is_empty());
}

#[test]
fn failed_transfer_writes_nothing() {
    let out = present_response("u", None);
    assert_eq!(out.failure, Some(Failure::Transport));
    assert!(out.lines.is_empty());
}

#[test]
fn response_from_first_byte_to_table() {
    let body = br#"[{"name":"repo1","language":"Go","created_at":"2020-01-01T00:00:00Z","pushed_at":"2020-06-15T00:00:00Z","updated_at":"2020-06-16T00:00:00Z","forks_count":3,"stargazers_count":10}]"#;
    let (head, tail) = body.split_at(50);
    let out = present_response("octocat", Some(buffer_of(&[head, tail])));
    assert_eq!(out.failure, None);
    assert_eq!(exit_status(out.failure), 0);
    assert_eq!(
        out.lines,
        vec![
            title_line("octocat"),
            header_line(),
            separator_line(),
            "repo1                          |      Go      |   2020-01-01 |   2020-06-15 |   2020-06-16 |   3    |   10   |".to_string(),
        ]
    );
}

#[test]
fn error_body_is_read_like_any_other() {
    let out = present_response("u", Some(buffer_of(&[br#"{"message":"Bad credentials"}"#])));
    assert_eq!(out.failure, Some(Failure::BodyNotArray));
    assert_eq!(exit_status(out.failure), FAILURE_STATUS);
}

#[test]
fn status_is_zero_only_without_failure() {
    assert_eq!(exit_status(None), SUCCESS_STATUS);
    assert_eq!(SUCCESS_STATUS, 0);
    let failures = [
        Failure::ConfigUnreadable,
        Failure::ConfigNotText,
        Failure::ConfigIncomplete,
        Failure::Transport,
        Failure::BodyNotText,
        Failure::BodyNotJson,
        Failure::FractionTooLong,
        Failure::BodyNotArray,
        Failure::Row { index: 0, fault: Fault::Missing(Field::Name) },
        Failure::Row { index: 9, fault: Fault::ShortDate(Field::PushedAt) },
    ];
    for failure in failures {
        assert_eq!(exit_status(Some(failure)), FAILURE_STATUS);
        assert_ne!(exit_status(Some(failure)), 0);
    }
}

#[test]
fn messages() {
    assert_eq!(Failure::ConfigUnreadable.message(), "the config file cannot be read");
    assert_eq!(Failure::ConfigNotText.message(), "the config file is not UTF-8 text");
    assert_eq!(Failure::ConfigIncomplete.message(), "the config file has fewer than two lines");
    assert_eq!(Failure::Transport.message(), "the request failed");
    assert_eq!(Failure::BodyNotText.message(), "the response is not UTF-8 text");
    assert_eq!(Failure::BodyNotJson.message(), "the response is not JSON");
    assert_eq!(
        Failure::FractionTooLong.message(),
        "a number of the response has too long a fraction"
    );
    assert_eq!(Failure::BodyNotArray.message(), "the response is no JSON array");
    assert_eq!(
        Failure::Row { index: 12, fault: Fault::Missing(Field::ForksCount) }.message(),
        "repository 12: field `forks_count` is missing or holds a value of another type"
    );
    assert_eq!(
        Failure::Row { index: 0, fault: Fault::ShortDate(Field::CreatedAt) }.message(),
        "repository 0: field `created_at` is shorter than a date"
    );
    assert_eq!(Field::Name.key(), "name");
    assert_eq!(Field::PushedAt.key(), "pushed_at");
    assert_eq!(Field::UpdatedAt.key(), "updated_at");
    assert_eq!(Field::StargazersCount.key(), "stargazers_count");
}
