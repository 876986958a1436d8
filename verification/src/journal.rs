//! Lines of the server's activity log.
use vstd::prelude::*;

verus! {

/// The text of one log line: the timestamp in brackets, the peer address,
/// the peer's name where one is given, and the message, ended by a newline.
pub open spec fn log_line(time: Seq<char>, address: Seq<char>, name: Option<Seq<char>>, message: Seq<char>) -> Seq<char> {
    match name {
        None => "["@ + time + "]: "@ + address + ": "@ + message + "\n"@,
        Some(n) => "["@ + time + "]: "@ + address + ":"@ + n + ": "@ + message + "\n"@,
    }
}

/// The view of an optional name.
pub open spec fn name_view(name: Option<&str>) -> Option<Seq<char>> {
    match name {
        Some(n) => Some(n@),
        None => None,
    }
}

/// The text of the UTC instant `secs` seconds and `nanos` nanoseconds after
/// the Unix epoch, as `chrono::DateTime<Utc>` renders it, or `None` where
/// that instant is out of chrono's range.
pub uninterp spec fn utc_rendering(secs: i64, nanos: u32) -> Option<Seq<char>>;

/// The view of an optional string.
pub open spec fn text_view(s: Option<String>) -> Option<Seq<char>> {
    match s {
        Some(t) => Some(t@),
        None => None,
    }
}

/// Calls `chrono::DateTime::<Utc>::from_timestamp` and renders the instant
/// through its `Display` impl.
#[verifier::external_body]
fn utc_text(secs: i64, nanos: u32) -> (r: Option<String>)
    ensures
        text_view(r) == utc_rendering(secs, nanos),
{
    chrono::DateTime::from_timestamp(secs, nanos).map(|t| t.to_string())
}

/// Reads the system clock with `std::time::SystemTime::now` and gives the
/// time since the Unix epoch in seconds and nanoseconds, or `None` where the
/// clock reads earlier than the epoch. Nothing is claimed of the reading.
#[verifier::external_body]
fn clock_since_epoch() -> Option<(u64, u32)> {
    std::time::SystemTime::now()
        .duration_since(std::time::UNIX_EPOCH)
        .ok()
        .map(|d| (d.as_secs(), d.subsec_nanos()))
}

/// The log line for `message` from `address`, stamped with `time`.
pub fn format_log_line(time: &str, address: &str, name: Option<&str>, message: &str) -> (r: String)
    ensures
        r@ == log_line(time@, address@, name_view(name), message@),
{
    let mut r = String::from_str("[");
    r.append(time);
    r.append("]: ");
    r.append(address);
    match name {
        None => {
            r.append(": ");
        },
        Some(n) => {
            r.append(":");
            r.append(n);
            r.append(": ");
        },
    }
    r.append(message);
    r.append("\n");
    r
}

/// The text of the instant `secs` seconds and `nanos` nanoseconds after the
/// Unix epoch, where chrono can represent it.
pub open spec fn instant_text(secs: u64, nanos: u32) -> Option<Seq<char>> {
    if secs <= i64::MAX {
        utc_rendering(secs as i64, nanos)
    } else {
        None
    }
}

/// The log line for `message` from `address`, stamped with the instant
/// `secs` seconds and `nanos` nanoseconds after the Unix epoch; `None` where
/// that instant cannot be rendered.
pub fn log_at(message: String, address: &str, name: Option<&str>, secs: u64, nanos: u32) -> (r:
    Option<String>)
    ensures
        match instant_text(secs, nanos) {
            Some(time) => (r matches Some(l) && l@ == log_line(
                time,
                address@,
                name_view(name),
                message@,
            )),
            None => r is None,
        },
{
    if secs > 9223372036854775807u64 {
        return None;
    }
    match utc_text(secs as i64, nanos) {
        Some(time) => Some(format_log_line(time.as_str(), address, name, message.as_str())),
        None => None,
    }
}

/// The log line for `message` from `address`, stamped with the current
/// time (the clock's reading of some instant after the Unix epoch); `None` where the clock reads earlier than the Unix epoch or beyond
/// what can be rendered.
pub fn log(message: String, address: &str, name: Option<&str>) -> (r: Option<String>)
    ensures
        r matches Some(l) ==> exists|secs: u64, nanos: u32|
            #[trigger] instant_text(secs, nanos) matches Some(time) && l@ == log_line(
                time,
                address@,
                name_view(name),
                message@,
            ),
{
    match clock_since_epoch() {
        Some((secs, nanos)) => log_at(message, address, name, secs, nanos),
        None => None,
    }
}

} // verus!
