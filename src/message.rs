//! Messages of the transcript, as fetched from the history store.
use chrono::TimeZone;
use vstd::prelude::*;
use crate::error::Error;
use crate::text::{concat, copy_opt_text};

verus! {

/// What a message without text stands for.
#[derive(Clone, Copy, PartialEq, Eq, Structural, Debug)]
pub enum MessageKind {
    AudioMessage,
    Image,
    Effect,
    Special,
}

/// The label the history store gives to each kind.
pub open spec fn kind_label(k: MessageKind) -> Seq<char> {
    match k {
        MessageKind::AudioMessage => "Audio Message"@,
        MessageKind::Image => "Image"@,
        MessageKind::Effect => "iMessage Effect"@,
        MessageKind::Special => "Special Message"@,
    }
}

/// The kind whose label is `s`, if any.
pub open spec fn kind_of_label(s: Seq<char>) -> Option<MessageKind> {
    if s == "Audio Message"@ {
        Some(MessageKind::AudioMessage)
    } else if s == "Image"@ {
        Some(MessageKind::Image)
    } else if s == "iMessage Effect"@ {
        Some(MessageKind::Effect)
    } else if s == "Special Message"@ {
        Some(MessageKind::Special)
    } else {
        None
    }
}

impl MessageKind {
    /// The store's label for this kind.
    pub fn label(&self) -> (r: String)
        ensures
            r@ == kind_label(*self),
    {
        match self {
            MessageKind::AudioMessage => String::from_str("Audio Message"),
            MessageKind::Image => String::from_str("Image"),
            MessageKind::Effect => String::from_str("iMessage Effect"),
            MessageKind::Special => String::from_str("Special Message"),
        }
    }

    /// The kind that the store's label names, if it names one.
    pub fn from_label(s: &str) -> (r: Option<MessageKind>)
        ensures
            r == kind_of_label(s@),
    {
        let t = s.to_owned();
        if t == String::from_str("Audio Message") {
            Some(MessageKind::AudioMessage)
        } else if t == String::from_str("Image") {
            Some(MessageKind::Image)
        } else if t == String::from_str("iMessage Effect") {
            Some(MessageKind::Effect)
        } else if t == String::from_str("Special Message") {
            Some(MessageKind::Special)
        } else {
            None
        }
    }
}

/// One row of the history store: text, send time in seconds since the Unix
/// epoch, kind label, and whether this side sent it.
pub struct MessageRow {
    pub text: Option<String>,
    pub unix_time: i64,
    pub kind: Option<String>,
    pub is_from_me: bool,
}

/// A message of the transcript.
pub struct Message {
    pub text: Option<String>,
    /// Seconds since the Unix epoch.
    pub unix_time: i64,
    /// The local wall-clock time of sending, as `HH:MM`.
    pub clock: String,
    pub kind: Option<MessageKind>,
    /// Sent from this side (outgoing) rather than received.
    pub outgoing: bool,
}

/// The body shown for a message: its text, else its bracketed kind, else a
/// placeholder.
pub open spec fn content_of(m: Message) -> Seq<char> {
    match m.text {
        Some(t) => t@,
        None => match m.kind {
            Some(k) => "["@ + kind_label(k) + "]"@,
            None => "<empty message>"@,
        },
    }
}

/// The transcript line for a message: its clock time, then its body.
pub open spec fn line_of(m: Message) -> Seq<char> {
    m.clock@ + ": "@ + content_of(m)
}

/// The message that a row describes, given the clock time of its send time.
pub open spec fn message_of(row: MessageRow, clock: Seq<char>, m: Message) -> bool {
    &&& m.text == row.text
    &&& m.unix_time == row.unix_time
    &&& m.clock@ == clock
    &&& m.kind == match row.kind {
        Some(l) => kind_of_label(l@),
        None => None,
    }
    &&& m.outgoing == row.is_from_me
}

/// Relies on chrono's `Local.timestamp_opt(t, 0)` and `format("%H:%M")`: the
/// local wall-clock time of a Unix time, or `None` where the local time zone
/// does not give exactly one such time. It depends on the machine's time zone.
#[verifier::external_body]
fn local_clock(unix_time: i64) -> (r: Option<String>) {
    match chrono::Local.timestamp_opt(unix_time, 0) {
        chrono::LocalResult::Single(dt) => Some(dt.format("%H:%M").to_string()),
        _ => None,
    }
}

impl Message {
    /// The message for a row whose send time reads `clock` on the local
    /// clock; `None` for a send time that the local clock cannot show.
    pub fn from_row_at(row: &MessageRow, clock: Option<String>) -> (r: Result<Message, Error>)
        ensures
            match clock {
                Some(c) => r matches Ok(m) && message_of(*row, c@, m),
                None => r matches Err(Error::Generic(s)) && s@ == "Invalid timestamp"@,
            },
    {
        match clock {
            Some(c) => {
                let kind = match &row.kind {
                    Some(l) => MessageKind::from_label(l.as_str()),
                    None => None,
                };
                Ok(Message {
                    text: copy_opt_text(&row.text),
                    unix_time: row.unix_time,
                    clock: c,
                    kind,
                    outgoing: row.is_from_me,
                })
            },
            None => Err(Error::Generic(String::from_str("Invalid timestamp"))),
        }
    }

    /// The message for a row, its send time read on the local clock.
    pub fn from_row(row: &MessageRow) -> (r: Result<Message, Error>)
        ensures
            match r {
                Ok(m) => message_of(*row, m.clock@, m),
                Err(e) => e matches Error::Generic(s) && s@ == "Invalid timestamp"@,
            },
    {
        let clock = local_clock(row.unix_time);
        Message::from_row_at(row, clock)
    }

    /// The body shown for this message.
    pub fn content(&self) -> (r: String)
        ensures
            r@ == content_of(*self),
    {
        match &self.text {
            Some(t) => t.clone(),
            None => match &self.kind {
                Some(k) => {
                    let label = k.label();
                    let open = concat("[", label.as_str());
                    concat(open.as_str(), "]")
                },
                None => String::from_str("<empty message>"),
            },
        }
    }

    /// The transcript line for this message.
    pub fn line(&self) -> (r: String)
        ensures
            r@ == line_of(*self),
    {
        let head = concat(self.clock.as_str(), ": ");
        let body = self.content();
        let r = concat(head.as_str(), body.as_str());
        assert(r@ =~= line_of(*self));
        r
    }
}

/// The messages for rows in the order given, each row's send time reading
/// `clocks[i]` on the local clock; the invalid-timestamp error where any
/// reading is missing.
pub fn messages_from_rows_at(rows: &Vec<MessageRow>, clocks: Vec<Option<String>>) -> (r: Result<
    Vec<Message>,
    Error,
>)
    requires
        clocks@.len() == rows@.len(),
    ensures
        (r is Ok) == (forall|i: int| 0 <= i < clocks@.len() ==> #[trigger] clocks@[i] is Some),
        r matches Ok(ms) ==> ms@.len() == rows@.len() && forall|i: int|
            0 <= i < ms@.len() ==> message_of(rows@[i], clocks@[i]->Some_0@, #[trigger] ms@[i]),
        r matches Err(e) ==> e matches Error::Generic(s) && s@ == "Invalid timestamp"@,
{
    let mut out: Vec<Message> = Vec::new();
    let n = rows.len();
    let ghost all = clocks@;
    let mut i: usize = 0;
    while i < n
        invariant
            n == rows@.len(),
            n == all.len(),
            all == clocks@,
            i <= n,
            out@.len() == i,
            forall|k: int| 0 <= k < i ==> #[trigger] all[k] is Some,
            forall|k: int| 0 <= k < i ==> message_of(rows@[k], all[k]->Some_0@, #[trigger] out@[k]),
        decreases n - i,
    {
        let reading = copy_opt_text(&clocks[i]);
        assert(reading == all[i as int]);
        match Message::from_row_at(&rows[i], reading) {
            Ok(m) => out.push(m),
            Err(e) => {
                assert(!(clocks@[i as int] is Some));
                return Err(e);
            },
        }
        i = i + 1;
    }
    Ok(out)
}

/// The messages for rows in the order given, each send time read on the
/// local clock; the invalid-timestamp error where the local clock cannot show
/// one of them. An empty page always converts.
pub fn messages_from_rows(rows: Vec<MessageRow>) -> (r: Result<Vec<Message>, Error>)
    ensures
        rows@.len() == 0 ==> (r matches Ok(ms) && ms@.len() == 0),
        match r {
            Ok(ms) => ms@.len() == rows@.len() && forall|i: int|
                0 <= i < ms@.len() ==> message_of(rows@[i], ms@[i].clock@, #[trigger] ms@[i]),
            Err(e) => e matches Error::Generic(s) && s@ == "Invalid timestamp"@,
        },
{
    let mut clocks: Vec<Option<String>> = Vec::new();
    let n = rows.len();
    let mut i: usize = 0;
    while i < n
        invariant
            n == rows@.len(),
            i <= n,
            clocks@.len() == i,
        decreases n - i,
    {
        clocks.push(local_clock(rows[i].unix_time));
        i = i + 1;
    }
    messages_from_rows_at(&rows, clocks)
}

} // verus!
