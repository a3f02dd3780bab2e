//! Following the engine's log: which bytes to read next, which lines they
//! hold, and when to say that the engine is gone.

use crate::error::ServerError;
use crate::instance::PROCESS_STOPPED_LINE;
use crate::text::{lemma_views_push, views};
use crate::utilities::{pid_is_live, pid_spec};
use vstd::prelude::*;
use vstd::slice::*;
use vstd::string::*;
use vstd::utf8::{encode_utf8, valid_utf8};

verus! {

broadcast use vstd::string::group_string_axioms;

/// The seconds between two looks at the log.
pub const POLL_SECONDS: u64 = 1;

/// The byte that ends a line.
pub open spec fn newline() -> u8 {
    10
}

/// The byte that may stand before the one that ends a line.
pub open spec fn carriage_return() -> u8 {
    13
}

/// The bytes behind the last line end: the beginning of a line that is
/// not complete yet.
pub open spec fn pending(data: Seq<u8>) -> Seq<u8>
    decreases data.len(),
{
    if data.len() == 0 {
        Seq::empty()
    } else if data.last() == newline() {
        Seq::empty()
    } else {
        pending(data.drop_last()).push(data.last())
    }
}

/// The complete lines of `data`, each without its line end.
pub open spec fn complete_lines(data: Seq<u8>) -> Seq<Seq<u8>>
    decreases data.len(),
{
    if data.len() == 0 {
        Seq::empty()
    } else if data.last() == newline() {
        complete_lines(data.drop_last()).push(pending(data.drop_last()))
    } else {
        complete_lines(data.drop_last())
    }
}

/// A line without the carriage return that may end it.
pub open spec fn strip_carriage_return(line: Seq<u8>) -> Seq<u8> {
    if line.len() > 0 && line.last() == carriage_return() {
        line.drop_last()
    } else {
        line
    }
}

/// The lines as they are handed on: without line end and carriage return.
pub open spec fn stripped_lines(data: Seq<u8>) -> Seq<Seq<u8>> {
    complete_lines(data).map_values(|line: Seq<u8>| strip_carriage_return(line))
}

/// Every line of `lines` is UTF-8.
pub open spec fn all_utf8(lines: Seq<Seq<u8>>) -> bool {
    forall|i: int| 0 <= i < lines.len() ==> valid_utf8(#[trigger] lines[i])
}

/// The bytes of each text.
pub open spec fn encoded(texts: Seq<Seq<char>>) -> Seq<Seq<u8>> {
    texts.map_values(|text: Seq<char>| encode_utf8(text))
}

/// Hands the bytes to `String::from_utf8`. The text comes back exactly when
/// the bytes are UTF-8, and its encoding is then those bytes.
#[verifier::external_body]
fn utf8_text(bytes: Vec<u8>) -> (text: Option<String>)
    ensures
        text is Some <==> valid_utf8(bytes@),
        text matches Some(s) ==> encode_utf8(s@) == bytes@,
{
    String::from_utf8(bytes).ok()
}

/// The lines, each with its line end behind it, one after the other.
pub open spec fn with_line_ends(lines: Seq<Seq<u8>>) -> Seq<u8>
    decreases lines.len(),
{
    if lines.len() == 0 {
        Seq::empty()
    } else {
        with_line_ends(lines.drop_last()) + lines.last().push(newline())
    }
}

/// The complete lines with their line ends, and behind them what is
/// pending, are the data: no byte is lost and none is made up.
pub proof fn lemma_lines_and_pending_are_the_data(data: Seq<u8>)
    ensures
        with_line_ends(complete_lines(data)) + pending(data) == data,
    decreases data.len(),
{
    if data.len() == 0 {
        assert(with_line_ends(complete_lines(data)) + pending(data) =~= data);
    } else {
        let init = data.drop_last();
        lemma_lines_and_pending_are_the_data(init);
        let lines = complete_lines(init);
        if data.last() == newline() {
            assert(complete_lines(data).drop_last() =~= lines);
            assert(with_line_ends(complete_lines(data)) + pending(data) =~= (with_line_ends(lines)
                + pending(init)).push(newline()));
            assert(init.push(newline()) =~= data);
        } else {
            assert(with_line_ends(lines) + pending(data) =~= (with_line_ends(lines) + pending(
                init,
            )).push(data.last()));
            assert(init.push(data.last()) =~= data);
        }
    }
}

/// Reading in two goes gives the lines that reading in one go gives: what
/// the first read left pending is read again, in front of what came after,
/// so that no line is handed on twice and none is lost.
pub proof fn lemma_read_in_two(first: Seq<u8>, second: Seq<u8>)
    ensures
        complete_lines(first + second) == complete_lines(first) + complete_lines(
            pending(first) + second,
        ),
        pending(first + second) == pending(pending(first) + second),
    decreases second.len(),
{
    if second.len() == 0 {
        assert(first + second =~= first);
        assert(pending(first) + second =~= pending(first));
        lemma_pending_alone(first);
        assert(complete_lines(first) + Seq::<Seq<u8>>::empty() =~= complete_lines(first));
    } else {
        let shorter = second.drop_last();
        lemma_read_in_two(first, shorter);
        assert((first + second).drop_last() =~= first + shorter);
        assert((pending(first) + second).drop_last() =~= pending(first) + shorter);
        assert((first + second).last() == second.last());
        assert((pending(first) + second).last() == second.last());
        if second.last() == newline() {
            assert(complete_lines(first + second) =~= complete_lines(first) + complete_lines(
                pending(first) + second,
            ));
        }
    }
}

/// What is pending holds no complete line, and all of it is pending.
pub proof fn lemma_pending_alone(data: Seq<u8>)
    ensures
        complete_lines(pending(data)) == Seq::<Seq<u8>>::empty(),
        pending(pending(data)) == pending(data),
    decreases data.len(),
{
    if data.len() == 0 {
    } else if data.last() == newline() {
    } else {
        lemma_pending_alone(data.drop_last());
        let p = pending(data);
        assert(p.drop_last() =~= pending(data.drop_last()));
        assert(p.last() == data.last());
    }
}

/// The place in the log up to which lines were handed on, and the size that
/// the log had when it was last seen to grow.
#[derive(Debug, Clone, Copy, PartialEq, Eq, Structural)]
pub struct FactorioTracker {
    pub file_pos: u64,
    pub last_size: u64,
}

/// What to do at one look at the log.
#[derive(Debug, Clone, Copy, PartialEq, Eq, Structural)]
pub struct Look {
    /// Where to read the log from, to its end; `None` if there is
    /// nothing new to read.
    pub read_from: Option<u64>,
    /// Whether to look for the process afterwards.
    pub check_process: bool,
}

/// The tracker's place after a look at a log of the given size: back at
/// the beginning if the log shrank, else where it was.
pub open spec fn place_after(tracker: FactorioTracker, size: u64) -> u64 {
    if size < tracker.last_size {
        0
    } else {
        tracker.file_pos
    }
}

/// The size that the tracker compares the log's size with: nothing if the
/// log shrank, else the size at which it was last seen to grow.
pub open spec fn known_size(tracker: FactorioTracker, size: u64) -> u64 {
    if size < tracker.last_size {
        0
    } else {
        tracker.last_size
    }
}

/// What to do at a look at the log.
pub open spec fn look_spec(tracker: FactorioTracker, size: Option<u64>) -> Look {
    match size {
        None => Look { read_from: None, check_process: false },
        Some(size) => Look {
            read_from: if size > known_size(tracker, size) {
                Some(place_after(tracker, size))
            } else {
                None
            },
            check_process: true,
        },
    }
}

/// The tracker after a look at the log.
pub open spec fn tracker_after(tracker: FactorioTracker, size: Option<u64>) -> FactorioTracker {
    match size {
        None => tracker,
        Some(size) => FactorioTracker {
            file_pos: place_after(tracker, size),
            last_size: if size > known_size(tracker, size) {
                size
            } else {
                known_size(tracker, size)
            },
        },
    }
}

/// A log that shrank and is not empty is read again from its beginning.
pub proof fn lemma_truncated_log_is_read_from_the_start(tracker: FactorioTracker, size: u64)
    requires
        0 < size < tracker.last_size,
    ensures
        look_spec(tracker, Some(size)).read_from == Some(0u64),
        tracker_after(tracker, Some(size)) == (FactorioTracker { file_pos: 0, last_size: size }),
{
}

impl FactorioTracker {
    /// A tracker at the beginning of a log that has not been seen yet.
    pub fn watch() -> (tracker: Self)
        ensures
            tracker == (FactorioTracker { file_pos: 0, last_size: 0 }),
    {
        FactorioTracker { file_pos: 0, last_size: 0 }
    }

    /// Takes the size of the log, `None` while there is no log yet. Without
    /// a log nothing is done until the next look. A log that shrank was
    /// replaced: it is read again from its beginning. A log that has grown
    /// is read from where the last read ended. Whenever there is a log, the
    /// process is looked for once the lines are handed on.
    pub fn observe_size(&mut self, size: Option<u64>) -> (look: Look)
        ensures
            look == look_spec(*old(self), size),
            *final(self) == tracker_after(*old(self), size),
    {
        let size = match size {
            Some(size) => size,
            None => {
                return Look { read_from: None, check_process: false };
            },
        };
        if size < self.last_size {
            self.last_size = 0;
            self.file_pos = 0;
        }
        if size > self.last_size {
            self.last_size = size;
            Look { read_from: Some(self.file_pos), check_process: true }
        } else {
            Look { read_from: None, check_process: true }
        }
    }

    /// Takes the bytes of the log from the tracker's place to the log's
    /// end, and hands out the complete lines among them, each without its
    /// line end and without a carriage return before it. The tracker's
    /// place moves behind the last complete line; the beginning of a line
    /// that is not complete is read again next time. A line that is not
    /// UTF-8 is an error, and the tracker then stays where it was.
    pub fn read_lines(&mut self, data: &[u8]) -> (r: Result<Vec<String>, ServerError>)
        requires
            old(self).file_pos + data@.len() <= u64::MAX,
        ensures
            final(self).last_size == old(self).last_size,
            match r {
                Ok(lines) => {
                    &&& all_utf8(stripped_lines(data@))
                    &&& encoded(views(lines@)) == stripped_lines(data@)
                    &&& final(self).file_pos == old(self).file_pos + data@.len() - pending(
                        data@,
                    ).len()
                },
                Err(e) => {
                    &&& !all_utf8(stripped_lines(data@))
                    &&& e == ServerError::Utf8Error()
                    &&& final(self).file_pos == old(self).file_pos
                },
            },
    {
        let n: usize = data.len();
        let mut lines: Vec<String> = Vec::new();
        let mut start: usize = 0;
        let mut i: usize = 0;
        assert(data@.take(0) =~= Seq::<u8>::empty());
        assert(encoded(views(lines@)) =~= stripped_lines(data@.take(0)));
        assert(data@.subrange(0, 0) =~= pending(data@.take(0)));
        while i < n
            invariant
                start <= i <= n,
                n == data@.len(),
                encoded(views(lines@)) == stripped_lines(data@.take(i as int)),
                all_utf8(stripped_lines(data@.take(i as int))),
                pending(data@.take(i as int)) == data@.subrange(start as int, i as int),
            decreases n - i,
        {
            let ghost seen = data@.take(i as int);
            let ghost next = data@.take(i + 1);
            assert(next.drop_last() =~= seen);
            assert(next.last() == data@[i as int]);
            if data[i] == 10 {
                let mut end: usize = i;
                if end > start && data[end - 1] == 13 {
                    end = end - 1;
                }
                let ghost raw = data@.subrange(start as int, i as int);
                assert(data@.subrange(start as int, end as int) =~= strip_carriage_return(raw));
                let bytes = slice_to_vec(slice_subrange(data, start, end));
                assert(stripped_lines(next) =~= stripped_lines(seen).push(
                    strip_carriage_return(raw),
                ));
                match utf8_text(bytes) {
                    Some(line) => {
                        proof {
                            lemma_views_push(lines@, line);
                            assert(encoded(views(lines@).push(line@)) =~= encoded(
                                views(lines@),
                            ).push(encode_utf8(line@)));
                        }
                        lines.push(line);
                    },
                    None => {
                        proof {
                            let k = stripped_lines(seen).len() as int;
                            assert(!valid_utf8(stripped_lines(next)[k]));
                            lemma_lines_prefix(data@, i + 1);
                            assert(stripped_lines(data@)[k] == stripped_lines(next)[k]);
                        }
                        return Err(ServerError::Utf8Error());
                    },
                }
                start = i + 1;
                assert(data@.subrange(start as int, i + 1) =~= pending(next));
            } else {
                assert(data@.subrange(start as int, i + 1) =~= pending(next));
                assert(stripped_lines(next) =~= stripped_lines(seen));
            }
            i = i + 1;
        }
        assert(data@.take(n as int) =~= data@);
        self.file_pos = self.file_pos + start as u64;
        Ok(lines)
    }

    /// The line that says that the engine is gone, if it is: what to send,
    /// and then to stop following the log.
    pub fn farewell(alive: bool) -> (line: Option<String>)
        ensures
            alive ==> line is None,
            !alive ==> line is Some && line->0@ == PROCESS_STOPPED_LINE@,
    {
        if alive {
            None
        } else {
            Some(String::from_str(PROCESS_STOPPED_LINE))
        }
    }

    /// Looks at the pidfile once the lines are handed on (`None` where
    /// there is no pidfile yet). A pidfile that names a process that is gone
    /// ends the following with the farewell line; without a pidfile, or
    /// with a live process, it goes on.
    pub fn check_process(pid_file: Option<&str>) -> (r: Result<Option<String>, ServerError>)
        ensures
            match pid_file {
                None => r matches Ok(None),
                Some(text) => if pid_spec(text@) is None {
                    r matches Err(ServerError::ParseIntError(t)) && t@ == text@
                } else {
                    r matches Ok(line) && (line matches Some(l) ==> l@ == PROCESS_STOPPED_LINE@)
                },
            },
    {
        match pid_file {
            None => Ok(None),
            Some(text) => match pid_is_live(text) {
                Ok(alive) => Ok(Self::farewell(alive)),
                Err(e) => Err(e),
            },
        }
    }
}

/// The lines of a prefix are the first lines of the whole.
pub proof fn lemma_lines_prefix(data: Seq<u8>, k: int)
    requires
        0 <= k <= data.len(),
    ensures
        stripped_lines(data.take(k)).len() <= stripped_lines(data).len(),
        forall|j: int|
            0 <= j < stripped_lines(data.take(k)).len() ==> #[trigger] stripped_lines(
                data.take(k),
            )[j] == stripped_lines(data)[j],
    decreases data.len() - k,
{
    if k == data.len() {
        assert(data.take(k) =~= data);
    } else {
        lemma_lines_prefix(data.drop_last(), k);
        assert(data.drop_last().take(k) =~= data.take(k));
    }
}

} // verus!
