//! The recovery record written while a timer runs: four lines of text that
//! survive a crash and are read back on the next start.

use vstd::prelude::*;
use vstd::string::*;
use crate::clock::Timestamp;
use crate::text::{split_on, split_ranges, range_texts, ranges_within};

verus! {

/// The name of the recovery file inside the application's data directory.
pub fn autosave_file_name() -> (name: &'static str)
    ensures
        name@ == "furtherance_autosave.txt"@,
{
    "furtherance_autosave.txt"
}

/// The RFC 3339 text, in UTC, of the moment `secs` seconds after the Unix
/// epoch, as chrono writes it; `None` where chrono cannot represent the
/// moment.
pub uninterp spec fn rfc3339_text(secs: int) -> Option<Seq<char>>;

/// Converts the seconds to a UTC date and time with chrono's
/// `DateTime::from_timestamp` and renders it with `DateTime::to_rfc3339`.
/// The result depends on the seconds alone; the contract gives it a name and
/// claims nothing else of it.
#[verifier::external_body]
pub(crate) fn rfc3339_string(t: Timestamp) -> (out: Option<String>)
    ensures
        out is Some <==> rfc3339_text(t.secs as int) is Some,
        out is Some ==> Some(out->0@) == rfc3339_text(t.secs as int),
{
    match chrono::DateTime::from_timestamp(t.secs, 0) {
        Some(moment) => Some(moment.to_rfc3339()),
        None => None,
    }
}

/// An in-progress task as it is written to the recovery file. The times are
/// RFC 3339 text.
#[derive(Clone, Debug, PartialEq, Eq)]
pub struct AutosaveRecord {
    pub task_name: String,
    pub start_time: String,
    pub stop_time: String,
    pub tag_list: String,
}

/// The four fields of a recovery record as character sequences.
pub struct RecordText {
    pub task_name: Seq<char>,
    pub start_time: Seq<char>,
    pub stop_time: Seq<char>,
    pub tag_list: Seq<char>,
}

impl View for AutosaveRecord {
    type V = RecordText;

    open spec fn view(&self) -> RecordText {
        RecordText {
            task_name: self.task_name@,
            start_time: self.start_time@,
            stop_time: self.stop_time@,
            tag_list: self.tag_list@,
        }
    }
}

/// Why a recovery file could not be read as a record.
#[derive(Clone, Copy, Debug, PartialEq, Eq, Structural)]
pub enum ReadError {
    /// The file holds fewer than three lines.
    TooFewFields,
}

/// What the recovery file means at program start.
#[derive(Clone, Debug, PartialEq, Eq)]
pub enum Restore {
    /// There is no file: nothing to restore.
    NoFile,
    /// A record was read: store it, notify the user, then delete the file.
    Restored(AutosaveRecord),
    /// The file cannot be read as a record: leave it in place.
    Unreadable(ReadError),
}

/// A field that fits on one line and is read back unchanged from a line that
/// a newline ends: no newline in it, no carriage return at its end.
pub open spec fn is_line(s: Seq<char>) -> bool {
    !s.contains('\n') && !(s.len() > 0 && s.last() == '\r')
}

impl RecordText {
    /// Every field fits on its line.
    pub open spec fn single_lines(self) -> bool {
        &&& is_line(self.task_name)
        &&& is_line(self.start_time)
        &&& is_line(self.stop_time)
        &&& !self.tag_list.contains('\n')
    }
}

/// The file text of a record: the four fields separated by newlines, with
/// no newline after the last.
pub open spec fn encoded(r: RecordText) -> Seq<char> {
    r.task_name + seq!['\n'] + r.start_time + seq!['\n'] + r.stop_time + seq!['\n'] + r.tag_list
}

/// A line without the carriage return that may precede its newline.
pub open spec fn strip_cr(s: Seq<char>) -> Seq<char> {
    if s.len() > 0 && s.last() == '\r' {
        s.drop_last()
    } else {
        s
    }
}

/// How many lines a text split on newlines into `pieces` has: what follows
/// the last newline is a line only if it is not empty.
pub open spec fn line_count(pieces: Seq<Seq<char>>) -> int {
    if pieces.last().len() == 0 {
        pieces.len() - 1
    } else {
        pieces.len() as int
    }
}

/// The lines of a text, as a buffered reader yields them: each line ends at
/// a newline, which is left out together with a carriage return before it;
/// text after the last newline is a line of its own unless it is empty.
pub open spec fn lines_of(text: Seq<char>) -> Seq<Seq<char>> {
    let pieces = split_on(text, '\n');
    Seq::new(
        line_count(pieces) as nat,
        |i: int|
            if i < pieces.len() - 1 {
                strip_cr(pieces[i])
            } else {
                pieces[i]
            },
    )
}

/// The record that a recovery file holds: its first three lines, and the
/// fourth as the tag list, or an empty tag list where there are only three.
/// Lines after the fourth are ignored. Fewer than three lines hold no record.
pub open spec fn decoded(text: Seq<char>) -> Option<RecordText> {
    let lines = lines_of(text);
    if lines.len() < 3 {
        None
    } else {
        Some(
            RecordText {
                task_name: lines[0],
                start_time: lines[1],
                stop_time: lines[2],
                tag_list: if lines.len() == 3 {
                    Seq::<char>::empty()
                } else {
                    lines[3]
                },
            },
        )
    }
}

/// Text without the delimiter is a single piece.
pub proof fn split_on_plain(b: Seq<char>, d: char)
    requires
        !b.contains(d),
    ensures
        split_on(b, d) == seq![b],
    decreases b.len(),
{
    if b.len() == 0 {
        assert(b =~= Seq::<char>::empty());
    } else {
        let front = b.drop_last();
        assert(b[b.len() - 1] != d);
        assert forall|i: int| 0 <= i < front.len() implies front[i] != d by {
            assert(b[i] == front[i]);
        }
        split_on_plain(front, d);
        assert(front.push(b.last()) =~= b);
        assert(seq![front].drop_last().push(seq![front].last().push(b.last())) =~= seq![b]);
    }
}

/// A delimiter followed by text without the delimiter adds that text as one
/// more piece.
pub proof fn split_on_next_piece(a: Seq<char>, b: Seq<char>, d: char)
    requires
        !b.contains(d),
    ensures
        split_on(a.push(d) + b, d) == split_on(a, d).push(b),
    decreases b.len(),
{
    if b.len() == 0 {
        assert(a.push(d) + b =~= a.push(d));
        assert(a.push(d).drop_last() =~= a);
        assert(b =~= Seq::<char>::empty());
    } else {
        let front = b.drop_last();
        assert(b[b.len() - 1] != d);
        assert forall|i: int| 0 <= i < front.len() implies front[i] != d by {
            assert(b[i] == front[i]);
        }
        split_on_next_piece(a, front, d);
        let whole = a.push(d) + b;
        assert(whole.drop_last() =~= a.push(d) + front);
        assert(whole.last() == b.last());
        assert(front.push(b.last()) =~= b);
        let pieces = split_on(a, d).push(front);
        assert(pieces.drop_last().push(pieces.last().push(b.last())) =~= split_on(a, d).push(b));
    }
}

/// Reading back what was written gives the record that was written: the
/// four fields unchanged, whether or not the tag list is empty.
pub proof fn decode_inverts_encode(r: RecordText)
    requires
        r.single_lines(),
    ensures
        decoded(encoded(r)) == Some(r),
{
    let nl = '\n';
    let s1 = r.task_name;
    let s2 = s1.push(nl) + r.start_time;
    let s3 = s2.push(nl) + r.stop_time;
    let s4 = s3.push(nl) + r.tag_list;
    split_on_plain(s1, nl);
    split_on_next_piece(s1, r.start_time, nl);
    split_on_next_piece(s2, r.stop_time, nl);
    split_on_next_piece(s3, r.tag_list, nl);
    assert(encoded(r) =~= s4);
    let pieces = split_on(s4, nl);
    assert(pieces =~= seq![r.task_name, r.start_time, r.stop_time, r.tag_list]);
    let lines = lines_of(s4);
    assert(lines[0] == r.task_name);
    assert(lines[1] == r.start_time);
    assert(lines[2] == r.stop_time);
    if r.tag_list.len() == 0 {
        assert(r.tag_list =~= Seq::<char>::empty());
    } else {
        assert(lines[3] == r.tag_list);
    }
}

/// A file of three lines, with or without a newline after the third, is read
/// as a record with an empty tag list.
pub proof fn three_lines_decode(name: Seq<char>, start: Seq<char>, stop: Seq<char>)
    requires
        is_line(name),
        is_line(start),
        is_line(stop),
        stop.len() > 0,
    ensures
        decoded(name + seq!['\n'] + start + seq!['\n'] + stop) == Some(
            RecordText {
                task_name: name,
                start_time: start,
                stop_time: stop,
                tag_list: Seq::<char>::empty(),
            },
        ),
        decoded(name + seq!['\n'] + start + seq!['\n'] + stop + seq!['\n']) == Some(
            RecordText {
                task_name: name,
                start_time: start,
                stop_time: stop,
                tag_list: Seq::<char>::empty(),
            },
        ),
{
    let nl = '\n';
    let r = RecordText {
        task_name: name,
        start_time: start,
        stop_time: stop,
        tag_list: Seq::<char>::empty(),
    };
    decode_inverts_encode(r);
    assert(encoded(r) =~= name + seq!['\n'] + start + seq!['\n'] + stop + seq!['\n']);
    let s2 = name.push(nl) + start;
    let s3 = s2.push(nl) + stop;
    split_on_plain(name, nl);
    split_on_next_piece(name, start, nl);
    split_on_next_piece(s2, stop, nl);
    assert(name + seq!['\n'] + start + seq!['\n'] + stop =~= s3);
    let pieces = split_on(s3, nl);
    assert(pieces =~= seq![name, start, stop]);
    let lines = lines_of(s3);
    assert(lines[0] == name);
    assert(lines[1] == start);
    assert(lines[2] == stop);
}

/// Line `i` of `text`, whose pieces between newlines are `ranges`.
fn line_at(text: &str, ranges: &Vec<(usize, usize)>, i: usize) -> (out: String)
    requires
        ranges@.len() >= 1,
        ranges_within(ranges@, text@.len()),
        range_texts(text@, ranges@) == split_on(text@, '\n'),
        i < lines_of(text@).len(),
    ensures
        out@ == lines_of(text@)[i as int],
{
    let r = ranges[i];
    proof {
        assert(range_texts(text@, ranges@)[i as int] == text@.subrange(r.0 as int, r.1 as int));
    }
    if i < ranges.len() - 1 && r.0 < r.1 && text.get_char(r.1 - 1) == '\r' {
        proof {
            assert(text@.subrange(r.0 as int, r.1 as int).drop_last() =~= text@.subrange(
                r.0 as int,
                r.1 as int - 1,
            ));
        }
        text.substring_char(r.0, r.1 - 1).to_owned()
    } else {
        text.substring_char(r.0, r.1).to_owned()
    }
}

impl AutosaveRecord {
    /// A record of the four fields.
    pub fn new(task_name: &str, start_time: &str, stop_time: &str, tag_list: &str) -> (r:
        AutosaveRecord)
        ensures
            r@ == (RecordText {
                task_name: task_name@,
                start_time: start_time@,
                stop_time: stop_time@,
                tag_list: tag_list@,
            }),
    {
        AutosaveRecord {
            task_name: task_name.to_owned(),
            start_time: start_time.to_owned(),
            stop_time: stop_time.to_owned(),
            tag_list: tag_list.to_owned(),
        }
    }

    /// The text to write to the recovery file.
    pub fn encode(&self) -> (out: String)
        ensures
            out@ == encoded(self@),
    {
        proof {
            reveal_strlit("\n");
            assert("\n"@ =~= seq!['\n']);
        }
        let mut out = self.task_name.clone();
        out.append("\n");
        out.append(self.start_time.as_str());
        out.append("\n");
        out.append(self.stop_time.as_str());
        out.append("\n");
        out.append(self.tag_list.as_str());
        out
    }

    /// Reads the text of a recovery file.
    ///
    /// Three lines give a record with an empty tag list; lines after the
    /// fourth are ignored. Fewer than three lines are an error.
    pub fn decode(text: &str) -> (out: Result<AutosaveRecord, ReadError>)
        ensures
            match out {
                Ok(r) => decoded(text@) == Some(r@),
                Err(e) => decoded(text@) is None && e == ReadError::TooFewFields,
            },
            out is Err <==> lines_of(text@).len() < 3,
    {
        let ranges = split_ranges(text, '\n');
        let last = ranges[ranges.len() - 1];
        proof {
            assert(range_texts(text@, ranges@)[ranges@.len() - 1] == text@.subrange(
                last.0 as int,
                last.1 as int,
            ));
        }
        let count: usize = if last.0 == last.1 {
            ranges.len() - 1
        } else {
            ranges.len()
        };
        assert(count == lines_of(text@).len());
        if count < 3 {
            return Err(ReadError::TooFewFields);
        }
        let task_name = line_at(text, &ranges, 0);
        let start_time = line_at(text, &ranges, 1);
        let stop_time = line_at(text, &ranges, 2);
        let tag_list = if count == 3 {
            String::new()
        } else {
            line_at(text, &ranges, 3)
        };
        Ok(AutosaveRecord { task_name, start_time, stop_time, tag_list })
    }
}

/// Decides what to do with the recovery file at program start, given its
/// text if it exists.
pub fn restore(contents: Option<&str>) -> (out: Restore)
    ensures
        match contents {
            None => out == Restore::NoFile,
            Some(text) => match decoded(text@) {
                Some(r) => out matches Restore::Restored(rec) && rec@ == r,
                None => out == Restore::Unreadable(ReadError::TooFewFields),
            },
        },
{
    match contents {
        None => Restore::NoFile,
        Some(text) => match AutosaveRecord::decode(text) {
            Ok(rec) => Restore::Restored(rec),
            Err(e) => Restore::Unreadable(e),
        },
    }
}

} // verus!
