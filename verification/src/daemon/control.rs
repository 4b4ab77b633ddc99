//! The control socket: requests from the command line tool, relayed to the thread that can act on
//! them. It holds no device and makes no decisions beyond what a request is.

use crate::device::control::{
    request_read, why_no_request, Answer, Request, Response, SOCKET_PATH,
};
use crate::text::{join, trim_end};
use vstd::prelude::*;

verus! {

/// Longest request line accepted, in bytes. A request is a few dozen bytes; this bounds what a
/// misbehaving client can make the daemon buffer.
pub const MAX_LINE: u64 = 4_096;

/// How long a client gets to send its request, in seconds.
pub const READ_TIMEOUT: u64 = 5;

/// How long the UPS thread gets to answer, in seconds. It answers between polls, so this covers one
/// poll interval plus the device exchanges a request makes.
pub const ANSWER_TIMEOUT: u64 = 30;

/// The most leftover input, in bytes, read and discarded before closing a connection.
pub const MAX_DRAIN: u64 = 65_536;

/// Where the control socket goes.
pub fn socket_path() -> (s: &'static str)
    ensures
        s@ == SOCKET_PATH@,
{
    SOCKET_PATH
}

/// Why a line is no request.
#[derive(Clone, Debug, PartialEq, Eq)]
pub enum NotARequest {
    /// It was cut short: it does not end in a line feed.
    Incomplete,
    /// It is not a request that is understood, for this reason.
    NotUnderstood(String),
}

/// Takes what was read of a request: one complete line that is one.
pub fn read_request(line: &str) -> (r: Result<Request, NotARequest>)
    ensures
        match r {
            Ok(Request::PoweroffWithWake { at_unix }) => line@.len() > 0 && line@.last() == '\n'
                && request_read(trim_end(line@)) == Some(at_unix as nat),
            Err(NotARequest::Incomplete) => line@.len() == 0 || line@.last() != '\n',
            Err(NotARequest::NotUnderstood(why)) => line@.len() > 0 && line@.last() == '\n'
                && request_read(trim_end(line@)) is None && why@ == why_no_request(trim_end(line@)),
        },
{
    let n: usize = line.unicode_len();
    if n == 0 || line.get_char(n - 1) != '\n' {
        return Err(NotARequest::Incomplete);
    }
    match Request::from_line(line) {
        Ok(q) => Ok(q),
        Err(e) => Err(NotARequest::NotUnderstood(e.why)),
    }
}

/// The answer to a line that is no request.
pub fn not_a_request(why: &NotARequest) -> (r: Response)
    ensures
        r@ == (Answer::Error {
            message: match *why {
                NotARequest::Incomplete => "the request was not a single complete line"@,
                NotARequest::NotUnderstood(e) => "not a request argond understands: "@ + e@,
            },
        }),
{
    match why {
        NotARequest::Incomplete => Response::error("the request was not a single complete line"),
        NotARequest::NotUnderstood(e) => Response::error(
            join("not a request argond understands: ", e.as_str()).as_str(),
        ),
    }
}

/// The answer to a request that could not be read.
pub fn unreadable_request(failure: &str) -> (r: Response)
    ensures
        r@ == (Answer::Error { message: "reading the request: "@ + failure@ }),
{
    Response::error(join("reading the request: ", failure).as_str())
}

/// The answer where the UPS thread is gone.
pub fn nobody_to_act() -> (r: Response)
    ensures
        r@ == (Answer::Error {
            message: "UPS monitoring is not running, so nothing can act on this"@,
        }),
{
    Response::error("UPS monitoring is not running, so nothing can act on this")
}

/// The answer where the UPS thread did not answer in time.
pub fn no_answer_in_time() -> (r: Response)
    ensures
        r@ == (Answer::Error {
            message: "the UPS thread did not answer in time; the request may not have run"@,
        }),
{
    Response::error("the UPS thread did not answer in time; the request may not have run")
}

/// A request that was written is read as it was; and a line that was cut short is never one.
pub proof fn law_a_request_is_one_complete_line(
    q: &Request,
    line: String,
    whole: &str,
    r: Result<Request, NotARequest>,
    cut: &str,
    c: Result<Request, NotARequest>,
)
    requires
        call_ensures(Request::to_line, (q,), line),
        whole@ == line@,
        call_ensures(read_request, (whole,), r),
        cut@.len() == 0 || cut@.last() != '\n',
        call_ensures(read_request, (cut,), c),
    ensures
        r == Ok::<Request, NotARequest>(*q),
        c == Err::<Request, NotARequest>(NotARequest::Incomplete),
{
}

/// What is not a request is answered as an error, and so is one that nobody could act on.
pub proof fn law_a_failure_is_answered_as_an_error(
    why: &NotARequest,
    failure: &str,
    a: Response,
    b: Response,
    c: Response,
    d: Response,
)
    requires
        call_ensures(not_a_request, (why,), a),
        call_ensures(unreadable_request, (failure,), b),
        call_ensures(nobody_to_act, (), c),
        call_ensures(no_answer_in_time, (), d),
    ensures
        a is Error && b is Error && c is Error && d is Error,
{
}

} // verus!
