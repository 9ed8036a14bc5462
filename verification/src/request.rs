//! The one request of a run, and the body of its response.

use vstd::prelude::*;
use vstd::string::*;
use vstd::utf8::{decode_utf8, valid_utf8};
use crate::failure::Failure;
use crate::text::{from_utf8, texts};

verus! {

/// A GET request with basic authentication. It is sent once: there is no
/// second attempt, no second page and no timeout.
#[derive(Debug)]
pub struct Request {
    pub url: String,
    pub username: String,
    pub password: String,
    pub user_agent: String,
}

pub ghost struct RequestView {
    pub url: Seq<char>,
    pub username: Seq<char>,
    pub password: Seq<char>,
    pub user_agent: Seq<char>,
}

impl View for Request {
    type V = RequestView;

    open spec fn view(&self) -> RequestView {
        RequestView {
            url: self.url@,
            username: self.username@,
            password: self.password@,
            user_agent: self.user_agent@,
        }
    }
}

/// The address that lists the public repositories of `target_user`.
pub open spec fn endpoint(target_user: Seq<char>) -> Seq<char> {
    "https://api.github.com/users/"@ + target_user + "/repos"@
}

/// The request for the repositories of `target_user`, with the first line of
/// the config as the user name and the second as the token. A config of
/// fewer than two lines gives none.
pub open spec fn request_of(config: Seq<Seq<char>>, target_user: Seq<char>) -> Option<
    RequestView,
> {
    if config.len() < 2 {
        None
    } else {
        Some(
            RequestView {
                url: endpoint(target_user),
                username: config[0],
                password: config[1],
                user_agent: "request"@,
            },
        )
    }
}

/// Describes the request for the repositories of `target_user`. The lines of
/// the config are taken as they are; lines after the second are not read.
pub fn github_request(config_data: &Vec<String>, target_user: &str) -> (r: Result<
    Request,
    Failure,
>)
    ensures
        match r {
            Ok(request) => request_of(texts(config_data@), target_user@) == Some(request@),
            Err(failure) => failure == Failure::ConfigIncomplete && request_of(
                texts(config_data@),
                target_user@,
            ) is None,
        },
{
    if config_data.len() < 2 {
        return Err(Failure::ConfigIncomplete);
    }
    let mut url = String::from_str("https://api.github.com/users/");
    url.append(target_user);
    url.append("/repos");
    Ok(
        Request {
            url,
            username: config_data[0].clone(),
            password: config_data[1].clone(),
            user_agent: String::from_str("request"),
        },
    )
}

/// The body of the response, as far as it has arrived.
#[derive(Debug)]
pub struct ResponseBuffer {
    bytes: Vec<u8>,
}

impl View for ResponseBuffer {
    type V = Seq<u8>;

    closed spec fn view(&self) -> Seq<u8> {
        self.bytes@
    }
}

impl ResponseBuffer {
    /// A buffer that holds nothing yet.
    pub fn new() -> (buffer: ResponseBuffer)
        ensures
            buffer@ == Seq::<u8>::empty(),
    {
        ResponseBuffer { bytes: Vec::new() }
    }

    /// Takes the next chunk of the body, whole, and says how many bytes it
    /// took.
    pub fn write(&mut self, chunk: &[u8]) -> (taken: usize)
        ensures
            final(self)@ == old(self)@ + chunk@,
            taken == chunk@.len(),
    {
        self.bytes.extend_from_slice(chunk);
        chunk.len()
    }

    /// The number of bytes that have arrived.
    pub fn len(&self) -> (n: usize)
        ensures
            n == self@.len(),
    {
        self.bytes.len()
    }

    /// The body as text. Bytes that are no UTF-8 text are refused.
    pub fn into_text(self) -> (r: Result<String, Failure>)
        ensures
            match r {
                Ok(text) => valid_utf8(self@) && text@ == decode_utf8(self@),
                Err(failure) => !valid_utf8(self@) && failure == Failure::BodyNotText,
            },
    {
        match from_utf8(self.bytes) {
            Ok(text) => Ok(text),
            Err(_) => Err(Failure::BodyNotText),
        }
    }
}

} // verus!
