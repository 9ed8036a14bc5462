//! A run from end to end: the config file is read, one request is sent, and
//! the response is written as a table. The two functions here decide what
//! follows each of the two steps that the library cannot take itself.

use vstd::prelude::*;
use vstd::string::*;
use vstd::utf8::{decode_utf8, valid_utf8};
use crate::config::{
    config_of, contents_of, is_line_before, is_line_of, lemma_first_two_lines, lines_of,
    read_config,
};
use crate::document::document_of;
use crate::failure::{status_of, Failure};
use crate::request::{
    endpoint, github_request, request_of, Request, RequestView, ResponseBuffer,
};
use crate::table::{get_presentable_output, presentable_output, Output, OutputView};

verus! {

/// What follows the reading of the config file: the request to send, or the
/// failure that ends the run. `config_file` is `None` where the file could
/// not be opened or read.
pub open spec fn planned_request(target_user: Seq<char>, config_file: Option<Seq<u8>>) -> Result<
    RequestView,
    Failure,
> {
    match config_of(config_file) {
        Err(failure) => Err(failure),
        Ok(lines) => match request_of(lines, target_user) {
            Some(request) => Ok(request),
            None => Err(Failure::ConfigIncomplete),
        },
    }
}

/// What follows the request: what is written, and the failure that ends the
/// run, if there is one. `response` is `None` where the transfer failed.
pub open spec fn presented_response(
    target_user: Seq<char>,
    response: Option<Seq<u8>>,
) -> OutputView {
    match response {
        None => OutputView { lines: Seq::empty(), failure: Some(Failure::Transport) },
        Some(bytes) => if !valid_utf8(bytes) {
            OutputView { lines: Seq::empty(), failure: Some(Failure::BodyNotText) }
        } else {
            presentable_output(target_user, document_of(decode_utf8(bytes)))
        },
    }
}

/// The outcome of planning, with the view of the request.
pub open spec fn outcome_of(r: Result<Request, Failure>) -> Result<RequestView, Failure> {
    match r {
        Ok(request) => Ok(request@),
        Err(failure) => Err(failure),
    }
}

/// The bytes of the body that arrived.
pub open spec fn body_of(response: Option<ResponseBuffer>) -> Option<Seq<u8>> {
    match response {
        Some(buffer) => Some(buffer@),
        None => None,
    }
}

/// Decides what follows the reading of the config file. `config_file` holds
/// the bytes of the file, or `None` where it could not be opened or read: no
/// request comes of that.
pub fn plan_request(target_user: &str, config_file: Option<Vec<u8>>) -> (r: Result<
    Request,
    Failure,
>)
    ensures
        outcome_of(r) == planned_request(target_user@, contents_of(config_file)),
{
    match read_config(config_file) {
        Ok(lines) => github_request(&lines, target_user),
        Err(failure) => Err(failure),
    }
}

/// Decides what follows the request. `response` holds the body that
/// arrived, or `None` where the transfer failed. The status of the response
/// is not looked at: whatever body came is read as the list of repositories.
pub fn present_response(target_user: &str, response: Option<ResponseBuffer>) -> (out: Output)
    ensures
        out@ == presented_response(target_user@, body_of(response)),
{
    let buffer = match response {
        Some(buffer) => buffer,
        None => {
            let out = Output { lines: Vec::new(), failure: Some(Failure::Transport) };
            assert(out@.lines =~= Seq::empty());
            return out;
        },
    };
    match buffer.into_text() {
        Ok(text) => get_presentable_output(target_user, text.as_str()),
        Err(failure) => {
            let out = Output { lines: Vec::new(), failure: Some(failure) };
            assert(out@.lines =~= Seq::empty());
            out
        },
    }
}

/// A config file that cannot be read ends the run with a non-zero status,
/// and no request comes of it.
pub proof fn lemma_unreadable_config_sends_nothing(target_user: Seq<char>)
    ensures
        planned_request(target_user, None) is Err,
        status_of(Some(planned_request(target_user, None)->Err_0)) != 0,
{
}

/// The request carries the first line of the config file as the user name
/// and the second line as the token, each without its terminator, whatever
/// follows them in the file.
pub proof fn lemma_request_carries_first_two_lines(
    target_user: Seq<char>,
    first: Seq<char>,
    end_first: Seq<char>,
    second: Seq<char>,
    end_second: Seq<char>,
    rest: Seq<char>,
)
    requires
        is_line_before(first, end_first),
        is_line_of(second, end_second, rest),
    ensures
        request_of(lines_of(first + end_first + second + end_second + rest), target_user) == Some(
            RequestView {
                url: endpoint(target_user),
                username: first,
                password: second,
                user_agent: "request"@,
            },
        ),
{
    lemma_first_two_lines(first, end_first, second, end_second, rest);
}

} // verus!
