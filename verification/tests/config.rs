use repo_stats::config::{read_config, split_lines};
use repo_stats::failure::{exit_status, Failure};

fn std_lines(text: &str) -> Vec<String> {
    text.lines().map(|line| line.to_string()).collect()
}

#[test]
fn first_two_lines_without_terminators() {
    let lines = read_config(Some(b"octocat\nghp_token\n".to_vec())).unwrap();
    assert_eq!(lines, vec!["octocat", "ghp_token"]);
    let lines = read_config(Some(b"octocat\r\nghp_token\r\nmore\r\n".to_vec())).unwrap();
    assert_eq!(lines[0], "octocat");
    assert_eq!(lines[1], "ghp_token");
    assert_eq!(lines.len(), 3);
}

#[test]
fn last_line_may_lack_its_terminator() {
    assert_eq!(read_config(Some(b"user\ntoken".to_vec())).unwrap(), vec!["user", "token"]);
    assert_eq!(split_lines("user\ntoken\r"), vec!["user", "token\r"]);
}

#[test]
fn nothing_is_trimmed() {
    assert_eq!(split_lines(" user \n\ttoken  \n"), vec![" user ", "\ttoken  "]);
}

#[test]
fn empty_lines_are_lines() {
    assert_eq!(split_lines("\n\n"), vec!["", ""]);
    assert_eq!(split_lines("a\n\nb"), vec!["a", "", "b"]);
    assert_eq!(split_lines("\r\n"), vec![""]);
}

#[test]
fn empty_file_has_no_lines() {
    assert_eq!(split_lines(""), Vec::<String>::new());
    assert_eq!(read_config(Some(Vec::new())).unwrap(), Vec::<String>::new());
}

#[test]
fn one_return_goes_with_the_line_feed() {
    assert_eq!(split_lines("a\r\r\nb"), vec!["a\r", "b"]);
    assert_eq!(split_lines("a\rb\nc"), vec!["a\rb", "c"]);
    assert_eq!(split_lines("\r"), vec!["\r"]);
}

#[test]
fn split_lines_agrees_with_std() {
    let texts = [
        "",
        "a",
        "a\n",
        "a\nb",
        "a\r\nb\r\n",
        "a\r",
        "\r\n",
        "\n",
        "\n\n",
        "\r\n\r\n",
        "a\r\r\n",
        "a\rb\nc",
        "\r\r",
        "\n\r",
        "\n\r\n",
        "naïve\r\nütf-8 ✓\nlast",
        "one\ntwo\nthree\nfour\n",
    ];
    for text in texts {
        assert_eq!(split_lines(text), std_lines(text), "{:?}", text);
    }
}

#[test]
fn config_that_is_not_text() {
    assert_eq!(read_config(Some(vec![b'a', 0xff, b'\n'])).unwrap_err(), Failure::ConfigNotText);
    assert_eq!(read_config(Some(vec![0xc3])).unwrap_err(), Failure::ConfigNotText);
    assert_eq!(read_config(Some(vec![0xed, 0xa0, 0x80])).unwrap_err(), Failure::ConfigNotText);
    assert_eq!(read_config(Some(vec![0xc0, 0x80])).unwrap_err(), Failure::ConfigNotText);
}

#[test]
fn config_in_utf8() {
    let lines = read_config(Some("jürgen\nschlüssel\n".as_bytes().to_vec())).unwrap();
    assert_eq!(lines, vec!["jürgen", "schlüssel"]);
}

#[test]
fn missing_file_gives_no_config() {
    let failure = read_config(None).unwrap_err();
    assert_eq!(failure, Failure::ConfigUnreadable);
    assert_ne!(exit_status(Some(failure)), 0);
}

#[test]
fn empty_file_is_not_a_missing_file() {
    assert_eq!(read_config(Some(Vec::new())), Ok(Vec::new()));
}

#[test]
fn written_lines_are_read_back() {
    let lines = vec!["octocat", "", " token ", "a\rb", "é"];
    let mut text = String::new();
    for line in &lines {
        text.push_str(line);
        text.push('\n');
    }
    assert_eq!(split_lines(&text), lines);
    assert_eq!(read_config(Some(text.into_bytes())).unwrap(), lines);
}
