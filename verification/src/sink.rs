//! What is appended to a source's log for one observation.

use crate::amount::{is_amount_text, lemma_amount_text_is_plain, Amount};
use crate::source::SourceId;
use vstd::prelude::*;
use vstd::string::*;

verus! {

/// The text that chrono shows for the instant that lies `seconds` seconds and
/// `nanos` nanoseconds after the start of 1970 in UTC, where chrono can
/// represent that instant.
pub uninterp spec fn utc_text(seconds: i64, nanos: u32) -> Option<Seq<char>>;

/// Calls `chrono::DateTime::from_timestamp` and shows what it returns through
/// the `Display` impl of `chrono::DateTime<Utc>`, as in
/// `2015-05-15 00:00:00 UTC`.
///
/// Trusted: both depend on the two arguments alone, and the first returns
/// `None` instead of panicking where the instant is out of range.
#[verifier::external_body]
fn render_utc(seconds: i64, nanos: u32) -> (text: Option<String>)
    ensures
        match text {
            Some(shown) => utc_text(seconds, nanos) == Some(shown@),
            None => utc_text(seconds, nanos) is None,
        },
{
    match chrono::DateTime::from_timestamp(seconds, nanos) {
        Some(instant) => Some(instant.to_string()),
        None => None,
    }
}

/// An instruction to append `text` to the file named `path`, which is created
/// if it does not exist yet. Nothing that the file already holds is touched.
#[derive(Debug, PartialEq, Eq)]
pub struct LogWrite {
    pub path: String,
    pub text: String,
}

/// Why an observation could not be written to its log: the file could not be
/// opened, or the write failed.
#[derive(Debug, PartialEq, Eq)]
pub struct WriteError {
    pub message: String,
}

/// What a log file holds after `text` was appended to it. `existing` is what
/// it held before, `None` where there was no such file: it is then created.
pub open spec fn appended(existing: Option<Seq<char>>, text: Seq<char>) -> Seq<char> {
    match existing {
        Some(content) => content + text,
        None => text,
    }
}

impl SourceId {
    /// The log line for one observation of this source.
    pub open spec fn line_text(self, amount: Seq<char>, timestamp: Seq<char>) -> Seq<char> {
        self.label_text() + " Price: "@ + amount + ", Timestamp: "@ + timestamp
    }

    /// The text that one observation adds to the log: its line and a line
    /// break.
    pub open spec fn record_text(self, amount: Seq<char>, timestamp: Seq<char>) -> Seq<char> {
        self.line_text(amount, timestamp) + seq!['\n']
    }

    /// Whether `write` records an observation of this source: it goes to the
    /// log of the source and adds the record of the observation.
    pub open spec fn records(
        self,
        write: LogWrite,
        amount: Seq<char>,
        timestamp: Seq<char>,
    ) -> bool {
        &&& write.path@ == self.log_name_text()
        &&& write.text@ == self.record_text(amount, timestamp)
    }

    /// Whether `write` is what saving an observation comes to, for one made
    /// `seconds` seconds and `nanos` nanoseconds after the start of 1970 in
    /// UTC: the write that records it under that instant's date and time, or
    /// none where the instant cannot be shown as a date.
    pub open spec fn saves(
        self,
        write: Option<LogWrite>,
        amount: Seq<char>,
        seconds: i64,
        nanos: u32,
    ) -> bool {
        match utc_text(seconds, nanos) {
            Some(timestamp) => write matches Some(w) && self.records(w, amount, timestamp),
            None => write is None,
        }
    }

    /// Renders the log line for an observation made at the time that
    /// `timestamp` names.
    pub fn observation_line(self, amount: &Amount, timestamp: &str) -> (line: String)
        ensures
            line@ == self.line_text(amount@, timestamp@),
    {
        let mut line = self.label().to_owned();
        line.append(" Price: ");
        line.append(amount.as_str());
        line.append(", Timestamp: ");
        line.append(timestamp);
        line
    }

    /// The write that records an observation made at the time that
    /// `timestamp` names.
    pub fn append(self, amount: &Amount, timestamp: &str) -> (write: LogWrite)
        ensures
            self.records(write, amount@, timestamp@),
    {
        let mut text = self.observation_line(amount, timestamp);
        text.append("\n");
        proof {
            reveal_strlit("\n");
            assert("\n"@ =~= seq!['\n']);
        }
        LogWrite { path: self.log_name().to_owned(), text }
    }

    /// The write that records an observation made `seconds` seconds and
    /// `nanos` nanoseconds after the start of 1970 in UTC. There is none
    /// where that instant cannot be shown as a date.
    pub fn save_to_file(self, amount: &Amount, seconds: i64, nanos: u32) -> (write: Option<
        LogWrite,
    >)
        ensures
            self.saves(write, amount@, seconds, nanos),
    {
        match render_utc(seconds, nanos) {
            Some(timestamp) => Some(self.append(amount, timestamp.as_str())),
            None => None,
        }
    }
}

/// Where a head, a separator and a tail are joined, and the head nowhere
/// holds the character that the separator starts with, the joined text
/// determines the head and the tail.
proof fn lemma_tail_is_determined(
    head1: Seq<char>,
    tail1: Seq<char>,
    head2: Seq<char>,
    tail2: Seq<char>,
    separator: Seq<char>,
)
    requires
        separator.len() > 0,
        forall|i: int| 0 <= i < head1.len() ==> head1[i] != separator[0],
        forall|i: int| 0 <= i < head2.len() ==> head2[i] != separator[0],
        head1 + separator + tail1 == head2 + separator + tail2,
    ensures
        head1 == head2,
        tail1 == tail2,
{
    let joined1 = head1 + separator + tail1;
    let joined2 = head2 + separator + tail2;
    if head1.len() < head2.len() {
        assert(joined1[head1.len() as int] == separator[0]);
        assert(joined2[head1.len() as int] == head2[head1.len() as int]);
        assert(false);
    }
    if head2.len() < head1.len() {
        assert(joined2[head2.len() as int] == separator[0]);
        assert(joined1[head2.len() as int] == head1[head2.len() as int]);
        assert(false);
    }
    assert(head1 =~= joined1.take(head1.len() as int));
    assert(head2 =~= joined2.take(head2.len() as int));
    let skipped = head1.len() + separator.len();
    assert(tail1 =~= joined1.skip(skipped as int));
    assert(tail2 =~= joined2.skip(skipped as int));
}

/// A log line determines the amount and the timestamp that it was made from.
pub proof fn lemma_line_is_read_back(
    source: SourceId,
    amount1: Seq<char>,
    timestamp1: Seq<char>,
    amount2: Seq<char>,
    timestamp2: Seq<char>,
)
    requires
        is_amount_text(amount1),
        is_amount_text(amount2),
        source.line_text(amount1, timestamp1) == source.line_text(amount2, timestamp2),
    ensures
        amount1 == amount2,
        timestamp1 == timestamp2,
{
    let frame = source.label_text() + " Price: "@;
    let separator = ", Timestamp: "@;
    let rest1 = amount1 + separator + timestamp1;
    let rest2 = amount2 + separator + timestamp2;
    let line1 = source.line_text(amount1, timestamp1);
    let line2 = source.line_text(amount2, timestamp2);
    reveal_strlit(", Timestamp: ");
    lemma_amount_text_is_plain(amount1);
    lemma_amount_text_is_plain(amount2);
    assert(line1 =~= frame + rest1);
    assert(line2 =~= frame + rest2);
    assert(rest1 =~= (frame + rest1).skip(frame.len() as int));
    assert(rest2 =~= (frame + rest2).skip(frame.len() as int));
    lemma_tail_is_determined(amount1, timestamp1, amount2, timestamp2, separator);
}

/// A record is one line: it ends in a line break and, where the timestamp
/// holds none, holds no other.
pub proof fn lemma_record_is_one_line(source: SourceId, amount: Seq<char>, timestamp: Seq<char>)
    requires
        is_amount_text(amount),
        forall|i: int| 0 <= i < timestamp.len() ==> timestamp[i] != '\n',
    ensures
        ({
            let record = source.record_text(amount, timestamp);
            &&& record.len() > 0
            &&& record.last() == '\n'
            &&& forall|i: int| 0 <= i < record.len() - 1 ==> record[i] != '\n'
        }),
{
    let label = source.label_text();
    let record = source.record_text(amount, timestamp);
    reveal_strlit("Bitcoin");
    reveal_strlit("Ethereum");
    reveal_strlit("S&P 500");
    reveal_strlit(" Price: ");
    reveal_strlit(", Timestamp: ");
    lemma_amount_text_is_plain(amount);
    assert forall|i: int| 0 <= i < record.len() - 1 implies record[i] != '\n' by {
        let framed = label.len() + " Price: "@.len();
        let priced = framed + amount.len();
        let marked = priced + ", Timestamp: "@.len();
        if i < label.len() {
            assert(record[i] == label[i]);
        } else if i < framed {
            assert(record[i] == " Price: "@[i - label.len()]);
        } else if i < priced {
            assert(record[i] == amount[i - framed]);
        } else if i < marked {
            assert(record[i] == ", Timestamp: "@[i - priced]);
        } else {
            assert(record[i] == timestamp[i - marked]);
        }
    }
}

/// Appending is append-only: whatever a log held stays at its start, and two
/// appends leave their records behind it in the order of the calls. Records
/// made with different timestamps hold different lines, so the second is no
/// repetition of the first.
pub proof fn lemma_appends_accumulate(
    source: SourceId,
    existing: Option<Seq<char>>,
    amount1: Seq<char>,
    timestamp1: Seq<char>,
    amount2: Seq<char>,
    timestamp2: Seq<char>,
)
    requires
        is_amount_text(amount1),
        is_amount_text(amount2),
        timestamp1 != timestamp2,
    ensures
        ({
            let first = source.record_text(amount1, timestamp1);
            let second = source.record_text(amount2, timestamp2);
            let once = appended(existing, first);
            let twice = appended(Some(once), second);
            &&& existing matches Some(content) ==> content.is_prefix_of(once)
            &&& once.is_prefix_of(twice)
            &&& twice == appended(existing, first + second)
            &&& source.line_text(amount1, timestamp1) != source.line_text(amount2, timestamp2)
            &&& first != second
        }),
{
    let line1 = source.line_text(amount1, timestamp1);
    let line2 = source.line_text(amount2, timestamp2);
    let first = source.record_text(amount1, timestamp1);
    let second = source.record_text(amount2, timestamp2);
    if line1 == line2 {
        lemma_line_is_read_back(source, amount1, timestamp1, amount2, timestamp2);
    }
    if first == second {
        assert(line1 =~= first.drop_last());
        assert(line2 =~= second.drop_last());
    }
    let once = appended(existing, first);
    let twice = appended(Some(once), second);
    if let Some(content) = existing {
        assert(content =~= once.subrange(0, content.len() as int));
    }
    assert(once =~= twice.subrange(0, once.len() as int));
    assert(twice =~= appended(existing, first + second));
}

} // verus!
