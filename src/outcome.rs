//! The record of one endpoint's probe: timing, outcome and transaction data,
//! and its rendering as a report block.
use vstd::prelude::*;
use crate::text::{decimal, decimal_text, digit_char};

verus! {

/// Earliest wall-clock time, in milliseconds since the Unix epoch, that a
/// stamp may carry: the first millisecond of the year -9999.
pub const MIN_WALL_MILLIS: i64 = -377_736_739_200_000;

/// Latest wall-clock time, in milliseconds since the Unix epoch, that a stamp
/// may carry: the last millisecond of the year 9999.
pub const MAX_WALL_MILLIS: i64 = 253_402_300_799_999;

/// The three zero-padded digits of a millisecond count `m` below 1000.
pub open spec fn millis_digits(m: int) -> Seq<char> {
    seq![digit_char((m / 100) as nat), digit_char(((m / 10) % 10) as nat), digit_char((m % 10) as nat)]
}

/// The rendered time `t` shows the milliseconds of `millis`: a `.` followed
/// by the three digits of its millisecond within the second.
pub open spec fn shows_millis(t: Seq<char>, millis: int) -> bool {
    exists|i: int|
        0 <= i && i + 4 <= t.len() && t[i] == '.' && #[trigger] t.subrange(i + 1, i + 4)
            == millis_digits(millis % 1000)
}

/// A point in time read from both clocks: a monotonic reading in nanoseconds,
/// and the wall clock in milliseconds since the Unix epoch with its local-time
/// rendering.
pub struct Stamp {
    pub mono_nanos: u64,
    pub wall_millis: i64,
    pub wall_text: String,
}

pub struct StampView {
    pub mono_nanos: u64,
    pub wall_millis: i64,
    pub wall_text: Seq<char>,
}

impl View for Stamp {
    type V = StampView;

    open spec fn view(&self) -> StampView {
        StampView { mono_nanos: self.mono_nanos, wall_millis: self.wall_millis, wall_text: self.wall_text@ }
    }
}

/// Relies on chrono: `DateTime::from_timestamp_millis` (defined for every
/// millisecond in the admitted range), `with_timezone(&Local)` and `format`,
/// to render a wall-clock time in the local time zone. The pattern's `.%3f`
/// writes the millisecond zero-padded to three digits; local offsets are whole
/// seconds, so the millisecond is that of `millis` in every time zone.
#[verifier::external_body]
fn format_local_time(millis: i64) -> (r: String)
    requires
        MIN_WALL_MILLIS <= millis <= MAX_WALL_MILLIS,
    ensures
        shows_millis(r@, millis as int),
{
    let utc = chrono::DateTime::from_timestamp_millis(millis).unwrap();
    utc.with_timezone(&chrono::Local).format("%Y-%m-%d %H:%M:%S.%3f %Z").to_string()
}

/// What std's `Debug` of a `Duration` of `nanos` nanoseconds gives with two
/// decimals.
pub uninterp spec fn duration_text_of(nanos: u64) -> Seq<char>;

/// Relies on std's `Debug` for `Duration` with precision 2 (`{:.2?}`), such
/// as `1.50s` or `12.35ms`.
#[verifier::external_body]
fn duration_text(nanos: u64) -> (r: String)
    ensures
        r@ == duration_text_of(nanos),
{
    format!("{:.2?}", std::time::Duration::from_nanos(nanos))
}

impl Stamp {
    /// A stamp from a monotonic reading and a wall-clock time; the wall clock
    /// is rendered in local time when the stamp is made.
    pub fn new(mono_nanos: u64, wall_millis: i64) -> (r: Stamp)
        requires
            MIN_WALL_MILLIS <= wall_millis <= MAX_WALL_MILLIS,
        ensures
            r.mono_nanos == mono_nanos,
            r.wall_millis == wall_millis,
            shows_millis(r.wall_text@, wall_millis as int),
    {
        Stamp { mono_nanos, wall_millis, wall_text: format_local_time(wall_millis) }
    }
}

/// The outcome of probing one endpoint.
pub struct BenchmarkResult {
    pub endpoint: String,
    pub start: Stamp,
    pub end: Option<Stamp>,
    pub block_height: Option<u64>,
    pub error: Option<String>,
    pub transaction_signature: Option<String>,
    pub transaction_block_height: Option<u64>,
}

pub struct ResultView {
    pub endpoint: Seq<char>,
    pub start: StampView,
    pub end: Option<StampView>,
    pub block_height: Option<u64>,
    pub error: Option<Seq<char>>,
    pub transaction_signature: Option<Seq<char>>,
    pub transaction_block_height: Option<u64>,
}

pub open spec fn text_view(s: Option<String>) -> Option<Seq<char>> {
    match s {
        Some(t) => Some(t@),
        None => None,
    }
}

impl View for BenchmarkResult {
    type V = ResultView;

    open spec fn view(&self) -> ResultView {
        ResultView {
            endpoint: self.endpoint@,
            start: self.start@,
            end: match self.end {
                Some(e) => Some(e@),
                None => None,
            },
            block_height: self.block_height,
            error: text_view(self.error),
            transaction_signature: text_view(self.transaction_signature),
            transaction_block_height: self.transaction_block_height,
        }
    }
}

impl ResultView {
    /// A completed record ends no earlier than it started.
    pub open spec fn wf(self) -> bool {
        self.end matches Some(e) ==> e.mono_nanos >= self.start.mono_nanos
    }

    /// Elapsed monotonic time from start to end, in nanoseconds; none before
    /// completion.
    pub open spec fn duration(self) -> Option<u64> {
        match self.end {
            Some(e) => Some((e.mono_nanos - self.start.mono_nanos) as u64),
            None => None,
        }
    }

    pub open spec fn end_text(self) -> Seq<char> {
        match self.end {
            Some(e) => e.wall_text,
            None => "N/A"@,
        }
    }

    /// The status line: success with the height where one was recorded, else
    /// the error, else unknown.
    pub open spec fn status_text(self) -> Seq<char> {
        match self.block_height {
            Some(h) => "Success (Block Height: "@ + decimal(h as nat) + ")"@,
            None => match self.error {
                Some(e) => "Error: "@ + e,
                None => "Unknown Status"@,
            },
        }
    }

    pub open spec fn signature_text(self) -> Seq<char> {
        match self.transaction_signature {
            Some(s) => s,
            None => "No signature"@,
        }
    }

    pub open spec fn transaction_height_text(self) -> Seq<char> {
        match self.transaction_block_height {
            Some(h) => decimal(h as nat),
            None => "N/A"@,
        }
    }

    pub open spec fn error_details_text(self) -> Seq<char> {
        match self.error {
            Some(e) => "Error Details: "@ + e + "\n"@,
            None => Seq::empty(),
        }
    }

    pub open spec fn duration_text(self) -> Seq<char> {
        match self.duration() {
            Some(d) => duration_text_of(d),
            None => "N/A"@,
        }
    }

    /// The multi-line text block that reports this result.
    pub open spec fn block_text(self) -> Seq<char> {
        "Endpoint: "@ + self.endpoint + "\nStart Time: "@ + self.start.wall_text + "\nEnd Time: "@
            + self.end_text() + "\nStatus: "@ + self.status_text() + "\nTransaction Signature: "@
            + self.signature_text() + "\nTransaction Block Height: "@
            + self.transaction_height_text() + "\n"@ + self.error_details_text() + "Duration: "@
            + self.duration_text() + "\n"@
    }
}

impl BenchmarkResult {
    /// A fresh record for `endpoint`, started at `start`, with nothing recorded.
    pub fn new(endpoint: String, start: Stamp) -> (r: BenchmarkResult)
        ensures
            r@.wf(),
            r@ == (ResultView {
                endpoint: endpoint@,
                start: start@,
                end: None,
                block_height: None,
                error: None,
                transaction_signature: None,
                transaction_block_height: None,
            }),
    {
        BenchmarkResult {
            endpoint,
            start,
            end: None,
            block_height: None,
            error: None,
            transaction_signature: None,
            transaction_block_height: None,
        }
    }

    /// Finalizes the record: the end is set once, to `now`, which follows the
    /// start.
    pub fn complete(&mut self, now: Stamp)
        requires
            old(self).end is None,
            now.mono_nanos >= old(self).start.mono_nanos,
        ensures
            final(self)@.wf(),
            final(self)@ == (ResultView { end: Some(now@), ..old(self)@ }),
    {
        self.end = Some(now);
    }

    /// Elapsed nanoseconds between start and end, once completed.
    pub fn duration(&self) -> (r: Option<u64>)
        requires
            self@.wf(),
        ensures
            r == self@.duration(),
    {
        match &self.end {
            Some(e) => Some(e.mono_nanos - self.start.mono_nanos),
            None => None,
        }
    }

    pub fn set_error(&mut self, error: String)
        ensures
            final(self)@ == (ResultView { error: Some(error@), ..old(self)@ }),
    {
        self.error = Some(error);
    }

    pub fn set_block_height(&mut self, height: u64)
        ensures
            final(self)@ == (ResultView { block_height: Some(height), ..old(self)@ }),
    {
        self.block_height = Some(height);
    }

    pub fn set_transaction_signature(&mut self, signature: String)
        ensures
            final(self)@ == (ResultView { transaction_signature: Some(signature@), ..old(self)@ }),
    {
        self.transaction_signature = Some(signature);
    }

    pub fn set_transaction_block_height(&mut self, height: u64)
        ensures
            final(self)@ == (ResultView { transaction_block_height: Some(height), ..old(self)@ }),
    {
        self.transaction_block_height = Some(height);
    }

    fn status(&self) -> (r: String)
        ensures
            r@ == self@.status_text(),
    {
        match self.block_height {
            Some(h) => {
                let mut s = String::from_str("Success (Block Height: ");
                let digits = decimal_text(h);
                s.append(digits.as_str());
                s.append(")");
                s
            },
            None => match &self.error {
                Some(e) => {
                    let mut s = String::from_str("Error: ");
                    s.append(e.as_str());
                    s
                },
                None => String::from_str("Unknown Status"),
            },
        }
    }

    /// Renders the record as its report block. The text depends on the
    /// record's contents alone, so rendering again gives the same text.
    pub fn display(&self) -> (r: String)
        requires
            self@.wf(),
        ensures
            r@ == self@.block_text(),
    {
        let mut s = String::from_str("Endpoint: ");
        s.append(self.endpoint.as_str());
        s.append("\nStart Time: ");
        s.append(self.start.wall_text.as_str());
        s.append("\nEnd Time: ");
        match &self.end {
            Some(e) => s.append(e.wall_text.as_str()),
            None => s.append("N/A"),
        }
        s.append("\nStatus: ");
        let status = self.status();
        s.append(status.as_str());
        s.append("\nTransaction Signature: ");
        match &self.transaction_signature {
            Some(sig) => s.append(sig.as_str()),
            None => s.append("No signature"),
        }
        s.append("\nTransaction Block Height: ");
        match self.transaction_block_height {
            Some(h) => {
                let digits = decimal_text(h);
                s.append(digits.as_str());
            },
            None => s.append("N/A"),
        }
        s.append("\n");
        match &self.error {
            Some(e) => {
                s.append("Error Details: ");
                s.append(e.as_str());
                s.append("\n");
            },
            None => {},
        }
        s.append("Duration: ");
        match self.duration() {
            Some(d) => {
                let t = duration_text(d);
                s.append(t.as_str());
            },
            None => s.append("N/A"),
        }
        s.append("\n");
        s
    }
}

} // verus!
