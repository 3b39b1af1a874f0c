//! Shared request logic: the session language and the incremental log poll
//! behind the build-log and runtime-log endpoints.

pub mod auth;
pub mod builds;
pub mod project_logs;
pub mod projects;
pub mod tail;
pub mod webhook;

use vstd::prelude::*;
use vstd::string::StringExecFns;
use vstd::utf8::encode_utf8;
use crate::i18n::{catalog_lookup, catalog_text, localized_text};

verus! {

/// How many trailing lines the first poll of a log shows.
pub const LOG_TAIL_LINES: usize = 5000;

/// The language used when the session holds none.
pub open spec fn default_lang() -> Seq<char> {
    "zh"@
}

/// The language of a session: the stored one, else Chinese.
pub fn resolve_lang(stored: Option<String>) -> (lang: String)
    ensures
        lang@ == match stored {
            Some(s) => s@,
            None => default_lang(),
        },
{
    match stored {
        Some(s) => s,
        None => String::from_str("zh"),
    }
}

/// Pages other than the login page need a logged-in session: without a user
/// id the visitor is sent to the login page.
pub fn require_login(user_id: Option<i64>) -> (redirect: Option<&'static str>)
    ensures
        user_id is Some ==> redirect is None,
        user_id is None ==> (redirect matches Some(to) && to@ == "/login"@),
{
    match user_id {
        Some(_) => None,
        None => Some("/login"),
    }
}

/// The number of bytes of the UTF-8 encoding of `s`.
pub open spec fn utf8_len(s: Seq<char>) -> nat {
    encode_utf8(s).len()
}

/// The notice put before a log that is shown from its last lines on.
pub open spec fn skip_notice() -> Seq<char> {
    "... (skipping older logs, showing latest 5000 lines) ...\n"@
}

/// What was read from a log file for one poll.
pub enum LogRead {
    /// The log file could not be opened.
    Unopened,
    /// The log file was opened. `tail_start` is where its last
    /// [`LOG_TAIL_LINES`] lines begin (consulted only by a first poll, one
    /// whose offset is 0). `text` is everything from the poll's start to the
    /// end of the file, or `None` when that was not valid UTF-8.
    Opened { tail_start: u64, text: Option<String> },
}

/// Where a poll starts reading: at the tail of the log for a first poll
/// (offset 0), else at the offset the client already has.
pub open spec fn poll_start(offset: u64, tail_start: u64) -> u64 {
    if offset == 0 {
        tail_start
    } else {
        offset
    }
}

/// What a poll shows before the text it read: the skip notice when a first
/// poll starts past the beginning of the file, else nothing.
pub open spec fn poll_prefix(offset: u64, tail_start: u64) -> Seq<char> {
    if offset == 0 && tail_start > 0 {
        skip_notice()
    } else {
        Seq::empty()
    }
}

/// The text a poll answers.
pub open spec fn poll_text(offset: u64, read: LogRead) -> Seq<char> {
    match read {
        LogRead::Unopened => Seq::empty(),
        LogRead::Opened { tail_start, text } => match text {
            Some(t) => poll_prefix(offset, tail_start) + t@,
            None => poll_prefix(offset, tail_start),
        },
    }
}

/// The offset a poll answers: the start of the read, advanced by the bytes
/// read from the file when the read succeeded. The skip notice is not part
/// of the file and does not move the offset.
pub open spec fn poll_offset(offset: u64, read: LogRead) -> int {
    match read {
        LogRead::Unopened => offset as int,
        LogRead::Opened { tail_start, text } => match text {
            Some(t) => poll_start(offset, tail_start) + utf8_len(t@),
            None => poll_start(offset, tail_start) as int,
        },
    }
}

/// Every poll resumes where the file text it showed ends: the text shown is
/// the prefix (skip notice or nothing) followed by what was read from the
/// poll's start, and the next offset is that start plus the bytes read. A
/// first poll of a file read to its end answers the file's length.
pub proof fn lemma_poll_resumes_after_shown_text(
    offset: u64,
    tail_start: u64,
    text: String,
    file_len: int,
)
    requires
        poll_start(offset, tail_start) + utf8_len(text@) == file_len,
    ensures
        ({
            let read = LogRead::Opened { tail_start, text: Some(text) };
            &&& poll_text(offset, read) == poll_prefix(offset, tail_start) + text@
            &&& poll_offset(offset, read) == poll_start(offset, tail_start) + utf8_len(text@)
            &&& poll_offset(offset, read) == file_len
        }),
{
}

/// Successive polls show every byte of a log once: a first poll of a log of
/// at most the shown number of lines reads its whole text `c`; when `d` has
/// been appended since, a poll from the answered offset reads `d`. The two
/// texts shown together are `c` followed by `d`, and the second answer is
/// the length of the grown log.
pub proof fn lemma_successive_polls_cover_the_log(c: String, d: String)
    requires
        0 < utf8_len(c@) <= u64::MAX,
    ensures
        ({
            let first = LogRead::Opened { tail_start: 0, text: Some(c) };
            let next = poll_offset(0, first);
            let second = LogRead::Opened { tail_start: 0, text: Some(d) };
            &&& next == utf8_len(c@)
            &&& poll_text(0, first) + poll_text(next as u64, second) == c@ + d@
            &&& poll_offset(next as u64, second) == utf8_len(c@) + utf8_len(d@)
        }),
{
    assert(Seq::<char>::empty() + c@ =~= c@);
    assert(Seq::<char>::empty() + d@ =~= d@);
}

/// Polling a log that has not grown since the last poll shows nothing and
/// keeps the offset.
pub proof fn lemma_poll_at_end_is_idle(offset: u64, tail_start: u64, text: String)
    requires
        offset != 0,
        text@.len() == 0,
    ensures
        ({
            let read = LogRead::Opened { tail_start, text: Some(text) };
            poll_text(offset, read).len() == 0 && poll_offset(offset, read) == offset
        }),
{
    assert(Seq::<char>::empty() + text@ =~= Seq::<char>::empty());
}

/// Answers one poll of a log: the text to show and the offset to poll from
/// next. `None` when that offset would not fit in a `u64`.
pub fn log_poll(offset: u64, read: LogRead) -> (r: Option<(String, u64)>)
    ensures
        poll_offset(offset, read) <= u64::MAX ==> (r matches Some((text, next)) && text@
            == poll_text(offset, read) && next == poll_offset(offset, read)),
        poll_offset(offset, read) > u64::MAX ==> r is None,
{
    match read {
        LogRead::Unopened => Some((String::new(), offset)),
        LogRead::Opened { tail_start, text } => {
            let mut shown = String::new();
            if offset == 0 && tail_start > 0 {
                shown.append("... (skipping older logs, showing latest 5000 lines) ...\n");
            }
            let start = if offset == 0 {
                tail_start
            } else {
                offset
            };
            assert(shown@ == poll_prefix(offset, tail_start));
            match text {
                Some(t) => {
                    let len = t.as_str().as_bytes().len() as u64;
                    shown.append(t.as_str());
                    match start.checked_add(len) {
                        Some(next) => Some((shown, next)),
                        None => None,
                    }
                },
                None => Some((shown, start)),
            }
        },
    }
}

/// The messages a page shows after a save: on success the catalog text of
/// `saved_key`, on failure "Error: " followed by the error's text.
pub open spec fn save_messages_spec(
    lang: Seq<char>,
    saved_key: Seq<char>,
    outcome: Result<(), Seq<char>>,
) -> (Option<Seq<char>>, Option<Seq<char>>) {
    match outcome {
        Ok(()) => (None, Some(localized_text(saved_key, lang))),
        Err(e) => (Some("Error: "@ + e), None),
    }
}

/// The view of an optional text.
pub open spec fn opt_view(s: Option<String>) -> Option<Seq<char>> {
    match s {
        Some(x) => Some(x@),
        None => None,
    }
}

/// The error and success messages of a page after a save whose outcome is
/// `outcome` (the database error's text on failure), and whether the
/// catalog had no text for `saved_key` in `lang` (then "UNKNOWN" is shown,
/// and the caller should warn of the missing text).
pub fn save_messages(lang: &str, saved_key: &str, outcome: Result<(), String>) -> (r: (
    Option<String>,
    Option<String>,
    bool,
))
    ensures
        (opt_view(r.0), opt_view(r.1)) == save_messages_spec(
            lang@,
            saved_key@,
            match outcome {
                Ok(()) => Ok(()),
                Err(e) => Err(e@),
            },
        ),
        r.2 == (outcome is Ok && catalog_text(saved_key@, lang@) is None),
{
    match outcome {
        Ok(()) => {
            let (text, missing) = match catalog_lookup(saved_key, lang) {
                Some(text) => (text, false),
                None => ("UNKNOWN", true),
            };
            (None, Some(String::from_str(text)), missing)
        },
        Err(e) => {
            let mut msg = String::from_str("Error: ");
            msg.append(e.as_str());
            (Some(msg), None, false)
        },
    }
}

} // verus!
