use vstd::prelude::*;
use crate::io_error::IoError;

verus! {

/// What one attempt to read a line from an output stream of the process
/// gave.
#[derive(Debug)]
pub enum LineRead {
    /// A whole line, without its line ending.
    Line(String),
    /// The end of the stream.
    End,
    /// A failure to read.
    Failed(IoError),
}

/// The line that a log-capture task sends to its channel on `read`, if it
/// sends one: a line that was read is sent as it is, and anything else ends
/// the task.
pub open spec fn forwarded(read: LineRead) -> Option<String> {
    match read {
        LineRead::Line(line) => Some(line),
        _ => None,
    }
}

/// Everything that a log-capture task sends to its channel when its reads
/// give `reads`, in the order in which it sends it: each line up to the first
/// read that is not a line.
pub open spec fn captured(reads: Seq<LineRead>) -> Seq<String>
    decreases reads.len(),
{
    if reads.len() == 0 {
        Seq::empty()
    } else {
        match forwarded(reads.first()) {
            Some(line) => seq![line] + captured(reads.drop_first()),
            None => Seq::empty(),
        }
    }
}

/// The reads of a stream on which the process wrote `lines` and which then
/// came to its end.
pub open spec fn reads_of(lines: Seq<String>) -> Seq<LineRead> {
    lines.map_values(|line: String| LineRead::Line(line)).push(LineRead::End)
}

/// One step of a log-capture task: the line to send to the channel, or
/// `None` when the task is over.
pub fn forward(read: LineRead) -> (line: Option<String>)
    ensures
        line == forwarded(read),
{
    match read {
        LineRead::Line(line) => Some(line),
        _ => None,
    }
}

/// A log-capture task sends every line that the process wrote before the
/// end of the stream, once each, unchanged and in the order written.
pub proof fn lemma_capture_complete(lines: Seq<String>)
    ensures
        captured(reads_of(lines)) == lines,
    decreases lines.len(),
{
    let reads = reads_of(lines);
    if lines.len() == 0 {
        assert(captured(reads) =~= lines);
    } else {
        assert(reads.first() == LineRead::Line(lines.first()));
        assert(reads.drop_first() =~= reads_of(lines.drop_first()));
        lemma_capture_complete(lines.drop_first());
        assert(captured(reads) =~= lines);
    }
}

/// Nothing is sent after the first read that is not a line.
pub proof fn lemma_capture_stops(before: Seq<String>, stop: LineRead, after: Seq<LineRead>)
    requires
        !(stop is Line),
    ensures
        captured(before.map_values(|line: String| LineRead::Line(line)).push(stop) + after)
            == before,
    decreases before.len(),
{
    let reads = before.map_values(|line: String| LineRead::Line(line)).push(stop) + after;
    if before.len() == 0 {
        assert(reads.first() == stop);
        assert(captured(reads) =~= before);
    } else {
        let rest = before.drop_first();
        assert(reads.first() == LineRead::Line(before.first()));
        assert(reads.drop_first() =~= rest.map_values(|line: String| LineRead::Line(line)).push(
            stop,
        ) + after);
        lemma_capture_stops(rest, stop, after);
        assert(captured(reads) =~= before);
    }
}

} // verus!
