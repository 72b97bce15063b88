//! The JSON body of an error response and the response it is sent with.

use vstd::prelude::*;
use crate::clock::valid_reading;

verus! {

/// The reason phrase that goes with an HTTP status code in an error body.
pub open spec fn reason_phrase(status: u16) -> Seq<char> {
    if status == 400 {
        "Bad Request"@
    } else if status == 401 {
        "Unauthorized"@
    } else if status == 403 {
        "Forbidden"@
    } else if status == 404 {
        "Not Found"@
    } else {
        "Internal Server Error"@
    }
}

/// The body of an error response.
pub struct ErrorResponseBody<'a> {
    pub timestamp: String,
    pub status: u16,
    pub error: &'a str,
    pub message: &'a str,
    pub path: &'a str,
}

/// An error response: the HTTP status it is sent with and its body.
pub struct HttpErrorResponse<'a> {
    pub status: u16,
    pub body: ErrorResponseBody<'a>,
}

/// An ASCII decimal digit.
pub open spec fn is_digit(c: char) -> bool {
    '0' <= c && c <= '9'
}

/// The shape of a UTC time written by chrono with
/// `%Y-%m-%dT%H:%M:%S%.3f%z`: the year in at least four digits (with a sign
/// before it when it lies outside 0 to 9999), then `-MM-DDTHH:MM:SS.mmm+0000`.
pub open spec fn utc_timestamp_shaped(s: Seq<char>) -> bool {
    let n = s.len();
    let t = s.skip(n - 24);
    &&& n >= 28
    &&& forall|i: int|
        0 <= i < n - 24 ==> is_digit(#[trigger] s[i]) || (i == 0 && (s[i] == '+' || s[i] == '-'))
    &&& t[0] == '-' && is_digit(t[1]) && is_digit(t[2])
    &&& t[3] == '-' && is_digit(t[4]) && is_digit(t[5])
    &&& t[6] == 'T' && is_digit(t[7]) && is_digit(t[8])
    &&& t[9] == ':' && is_digit(t[10]) && is_digit(t[11])
    &&& t[12] == ':' && is_digit(t[13]) && is_digit(t[14])
    &&& t[15] == '.' && is_digit(t[16]) && is_digit(t[17]) && is_digit(t[18])
    &&& t.skip(19) == seq!['+', '0', '0', '0', '0']
}

/// What chrono writes with `%Y-%m-%dT%H:%M:%S%.3f%z` for the UTC time `secs`
/// seconds and `nanos` nanoseconds after the UNIX epoch (before it for
/// negative `secs`), or `None` when chrono cannot hold that time.
pub uninterp spec fn utc_timestamp_text(secs: i64, nanos: u32) -> Option<Seq<char>>;

/// Calls chrono's `DateTime::<Utc>::from_timestamp(secs, nanos)` and formats
/// the time with `%Y-%m-%dT%H:%M:%S%.3f%z`; the text is the one
/// `utc_timestamp_text` names, `None` where chrono cannot hold the time. Every
/// text has the shape `utc_timestamp_shaped` describes (chrono writes the year
/// in at least four digits, every other field in a fixed number of digits,
/// and the offset of UTC as `+0000`).
#[verifier::external_body]
fn format_utc_timestamp(secs: i64, nanos: u32) -> (r: Option<String>)
    ensures
        match r {
            Some(t) => utc_timestamp_text(secs, nanos) == Some(t@) && utc_timestamp_shaped(t@),
            None => utc_timestamp_text(secs, nanos) is None,
        },
{
    match chrono::DateTime::<chrono::Utc>::from_timestamp(secs, nanos) {
        Some(t) => Some(t.format("%Y-%m-%dT%H:%M:%S%.3f%z").to_string()),
        None => None,
    }
}

/// The UTC time of a clock reading as chrono counts it (`From<SystemTime>`):
/// seconds from the epoch and nanoseconds, a time before the epoch counted
/// down to the whole second below it; `None` for a reading of more seconds
/// than 64 signed bits hold.
pub open spec fn reading_utc_time(r: Result<(u64, u32), (u64, u32)>) -> Option<(i64, u32)> {
    match r {
        Ok((secs, nanos)) => if secs <= i64::MAX {
            Some((secs as i64, nanos))
        } else {
            None
        },
        Err((secs, nanos)) => if secs > i64::MAX {
            None
        } else if nanos == 0 {
            Some(((-secs) as i64, 0u32))
        } else {
            Some(((-secs - 1) as i64, (1_000_000_000 - nanos) as u32))
        },
    }
}

/// The timestamp written for a clock reading: chrono's text of its UTC time,
/// or the empty text for a reading chrono cannot hold (some hundred thousand
/// years away from now).
pub open spec fn reading_timestamp(r: Result<(u64, u32), (u64, u32)>) -> Seq<char> {
    match reading_utc_time(r) {
        Some((secs, nanos)) => match utc_timestamp_text(secs, nanos) {
            Some(t) => t,
            None => Seq::empty(),
        },
        None => Seq::empty(),
    }
}

/// The text is the timestamp of some clock reading, shaped as chrono writes
/// UTC times unless that reading is one chrono cannot hold.
pub open spec fn clock_timestamp(t: Seq<char>) -> bool {
    &&& exists|r: Result<(u64, u32), (u64, u32)>|
        #![trigger reading_timestamp(r)]
        valid_reading(r) && t == reading_timestamp(r)
    &&& t.len() == 0 || utc_timestamp_shaped(t)
}

/// The timestamp written for a clock reading.
pub fn timestamp_at(reading: Result<(u64, u32), (u64, u32)>) -> (t: String)
    requires
        valid_reading(reading),
    ensures
        t@ == reading_timestamp(reading),
        t@.len() == 0 || utc_timestamp_shaped(t@),
{
    let (secs, nanos): (i64, u32) = match reading {
        Ok((secs, nanos)) => {
            if secs > 9223372036854775807u64 {
                return String::new();
            }
            (secs as i64, nanos)
        },
        Err((secs, nanos)) => {
            if secs > 9223372036854775807u64 {
                return String::new();
            }
            if nanos == 0 {
                (-(secs as i64), 0)
            } else {
                (-(secs as i64) - 1, 1_000_000_000 - nanos)
            }
        },
    };
    match format_utc_timestamp(secs, nanos) {
        Some(t) => t,
        None => String::new(),
    }
}

impl<'a> ErrorResponseBody<'a> {
    /// A body stamped with the time of a clock reading.
    pub fn at_reading(
        status: u16,
        error: &'a str,
        message: &'a str,
        path: &'a str,
        reading: Result<(u64, u32), (u64, u32)>,
    ) -> (b: ErrorResponseBody<'a>)
        requires
            valid_reading(reading),
        ensures
            b.timestamp@ == reading_timestamp(reading),
            b.timestamp@.len() == 0 || utc_timestamp_shaped(b.timestamp@),
            b.status == status,
            b.error == error,
            b.message == message,
            b.path == path,
    {
        ErrorResponseBody { timestamp: timestamp_at(reading), status, error, message, path }
    }

    /// A body stamped with the current time: what `at_reading` gives for the
    /// reading of the system clock.
    pub fn new(status: u16, error: &'a str, message: &'a str, path: &'a str) -> (b: ErrorResponseBody<'a>)
        ensures
            clock_timestamp(b.timestamp@),
            b.status == status,
            b.error == error,
            b.message == message,
            b.path == path,
    {
        let reading = crate::clock::system_clock_reading();
        let b = ErrorResponseBody::at_reading(status, error, message, path, reading);
        assert(valid_reading(reading) && b.timestamp@ == reading_timestamp(reading));
        b
    }

    pub fn forbidden(path: &'a str) -> (b: ErrorResponseBody<'a>)
        ensures
            clock_timestamp(b.timestamp@),
            b.status == 403,
            b.error@ == "Forbidden"@,
            b.message@ == "Access Denied"@,
            b.path == path,
    {
        ErrorResponseBody::new(403, "Forbidden", "Access Denied", path)
    }

    pub fn unauthorized(path: &'a str) -> (b: ErrorResponseBody<'a>)
        ensures
            clock_timestamp(b.timestamp@),
            b.status == 401,
            b.error@ == "Unauthorized"@,
            b.message@ == "Access Denied"@,
            b.path == path,
    {
        ErrorResponseBody::new(401, "Unauthorized", "Access Denied", path)
    }

    pub fn internal_server_error(path: &'a str, msg: &'a str) -> (b: ErrorResponseBody<'a>)
        ensures
            clock_timestamp(b.timestamp@),
            b.status == 500,
            b.error@ == "Internal Server Error"@,
            b.message == msg,
            b.path == path,
    {
        ErrorResponseBody::new(500, "Internal Server Error", msg, path)
    }

    pub fn not_found(path: &'a str, msg: &'a str) -> (b: ErrorResponseBody<'a>)
        ensures
            clock_timestamp(b.timestamp@),
            b.status == 404,
            b.error@ == "Not Found"@,
            b.message == msg,
            b.path == path,
    {
        ErrorResponseBody::new(404, "Not Found", msg, path)
    }

    pub fn bad_request(path: &'a str, msg: &'a str) -> (b: ErrorResponseBody<'a>)
        ensures
            clock_timestamp(b.timestamp@),
            b.status == 400,
            b.error@ == "Bad Request"@,
            b.message == msg,
            b.path == path,
    {
        ErrorResponseBody::new(400, "Bad Request", msg, path)
    }
}

} // verus!
