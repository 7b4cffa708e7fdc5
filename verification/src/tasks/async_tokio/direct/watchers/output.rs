//! The output watcher: each line read from stdout or stderr becomes an
//! Output event, and the first line holding the ready indicator in the
//! configured stream also makes the task Ready.
use vstd::prelude::*;
use crate::tasks::config::StreamSource;
use crate::tasks::event::TaskEvent;
use crate::text::{has_substr, str_contains};

verus! {

/// The state of the watcher of one output stream.
#[derive(Debug)]
pub struct OutputWatcher {
    /// The stream watched.
    pub src: StreamSource,
    /// The text whose appearance means the task is ready, if any.
    pub ready_indicator: Option<String>,
    /// The stream in which the ready indicator counts.
    pub ready_indicator_source: StreamSource,
    /// Whether the ready indicator has been seen already.
    pub ready_found: bool,
}

/// Whether `line` makes the task Ready: the indicator has not been seen
/// yet, this watcher's stream is the one it counts in, and the line holds it.
pub open spec fn ready_hit(w: OutputWatcher, line: Seq<char>) -> bool {
    &&& !w.ready_found
    &&& w.ready_indicator_source == w.src
    &&& w.ready_indicator matches Some(i)
    &&& has_substr(line, i@)
}

/// The watcher after reading `line`.
pub open spec fn watch_next(w: OutputWatcher, line: Seq<char>) -> OutputWatcher {
    OutputWatcher { ready_found: w.ready_found || ready_hit(w, line), ..w }
}

/// For each of `lines` read in turn, whether it makes the task Ready.
pub open spec fn ready_flags(w: OutputWatcher, lines: Seq<Seq<char>>) -> Seq<bool>
    decreases lines.len(),
{
    if lines.len() == 0 {
        Seq::empty()
    } else {
        seq![ready_hit(w, lines[0])] + ready_flags(watch_next(w, lines[0]), lines.drop_first())
    }
}

impl OutputWatcher {
    /// A watcher of stream `src`; the ready indicator counts in
    /// `ready_indicator_source`, stdout when unset.
    pub fn new(src: StreamSource, ready_indicator: Option<String>, ready_indicator_source: Option<
        StreamSource,
    >) -> (w: Self)
        ensures
            w.src == src,
            w.ready_indicator == ready_indicator,
            w.ready_indicator_source == match ready_indicator_source {
                Some(s) => s,
                None => StreamSource::Stdout,
            },
            !w.ready_found,
    {
        let source = match ready_indicator_source {
            Some(s) => s,
            None => StreamSource::Stdout,
        };
        OutputWatcher { src, ready_indicator, ready_indicator_source: source, ready_found: false }
    }

    /// Reads one line: gives its Output event, and whether the line makes
    /// the task Ready (then the task moves to Ready and a Ready event follows
    /// the Output event).
    pub fn on_line(&mut self, line: String) -> (r: (TaskEvent, bool))
        ensures
            r.0 == (TaskEvent::Output { line: line, src: old(self).src }),
            r.1 == ready_hit(*old(self), line@),
            *final(self) == watch_next(*old(self), line@),
    {
        let hit = if !self.ready_found && self.ready_indicator_source == self.src {
            match &self.ready_indicator {
                Some(i) => str_contains(line.as_str(), i.as_str()),
                None => false,
            }
        } else {
            false
        };
        if hit {
            self.ready_found = true;
        }
        (TaskEvent::Output { line, src: self.src }, hit)
    }
}

/// The watchers to spawn for a child's output streams: one for stdout when
/// the child's stdout is piped, then one for stderr when its stderr is
/// piped, each with the task's ready indicator and its stream.
pub fn spawn_output_watchers(
    has_stdout: bool,
    has_stderr: bool,
    ready_indicator: Option<String>,
    ready_indicator_source: Option<StreamSource>,
) -> (ws: Vec<OutputWatcher>)
    ensures
        ws@.len() == (if has_stdout { 1int } else { 0 }) + (if has_stderr { 1int } else { 0 }),
        forall|k: int|
            0 <= k < ws@.len() ==> {
                &&& (#[trigger] ws@[k]).src == (if has_stdout && k == 0 {
                    StreamSource::Stdout
                } else {
                    StreamSource::Stderr
                })
                &&& ws@[k].ready_indicator == ready_indicator
                &&& ws@[k].ready_indicator_source == match ready_indicator_source {
                    Some(s) => s,
                    None => StreamSource::Stdout,
                }
                &&& !ws@[k].ready_found
            },
{
    let mut ws: Vec<OutputWatcher> = Vec::new();
    if has_stdout {
        let indicator = match &ready_indicator {
            Some(i) => Some(i.clone()),
            None => None,
        };
        ws.push(OutputWatcher::new(StreamSource::Stdout, indicator, ready_indicator_source));
    }
    if has_stderr {
        ws.push(OutputWatcher::new(StreamSource::Stderr, ready_indicator, ready_indicator_source));
    }
    ws
}

/// Ready is raised at most once over any run of lines.
pub proof fn ready_at_most_once(w: OutputWatcher, lines: Seq<Seq<char>>, i: int, j: int)
    requires
        0 <= i < j < lines.len(),
    ensures
        ready_flags(w, lines).len() == lines.len(),
        !(ready_flags(w, lines)[i] && ready_flags(w, lines)[j]),
    decreases lines.len(),
{
    lemma_flags_len(w, lines);
    let n = watch_next(w, lines[0]);
    lemma_flags_len(n, lines.drop_first());
    if i == 0 {
        if ready_hit(w, lines[0]) {
            lemma_found_silent(n, lines.drop_first(), j - 1);
        }
    } else {
        ready_at_most_once(n, lines.drop_first(), i - 1, j - 1);
    }
}

/// Ready is raised for a line exactly when it is the first line holding the
/// indicator, the indicator had not been seen before, and the watched stream
/// is the one the indicator counts in.
pub proof fn ready_on_first_match(w: OutputWatcher, lines: Seq<Seq<char>>, i: int)
    requires
        0 <= i < lines.len(),
    ensures
        ready_flags(w, lines).len() == lines.len(),
        ready_flags(w, lines)[i] <==> {
            &&& !w.ready_found
            &&& w.ready_indicator_source == w.src
            &&& w.ready_indicator matches Some(ind)
            &&& has_substr(lines[i], ind@)
            &&& forall|k: int| 0 <= k < i ==> !has_substr(#[trigger] lines[k], ind@)
        },
    decreases lines.len(),
{
    lemma_flags_len(w, lines);
    let n = watch_next(w, lines[0]);
    if i > 0 {
        ready_on_first_match(n, lines.drop_first(), i - 1);
        lemma_flags_len(n, lines.drop_first());
        if ready_hit(w, lines[0]) {
            lemma_found_silent(n, lines.drop_first(), i - 1);
        }
        match w.ready_indicator {
            Some(ind) => {
                let rest = lines.drop_first();
                if forall|k: int| 0 <= k < i - 1 ==> !has_substr(#[trigger] rest[k], ind@) {
                    assert forall|k: int| 0 <= k < i && k > 0 implies !has_substr(#[trigger] lines[k], ind@) by {
                        assert(lines[k] == rest[k - 1]);
                    }
                }
                assert forall|k: int| 0 <= k < i - 1 && !has_substr(lines[k + 1], ind@) implies !has_substr(#[trigger] rest[k], ind@) by {
                    assert(lines[k + 1] == rest[k]);
                }
            },
            None => {},
        }
    }
}

/// The number of flags is the number of lines.
proof fn lemma_flags_len(w: OutputWatcher, lines: Seq<Seq<char>>)
    ensures
        ready_flags(w, lines).len() == lines.len(),
    decreases lines.len(),
{
    if lines.len() > 0 {
        lemma_flags_len(watch_next(w, lines[0]), lines.drop_first());
    }
}

/// Once the indicator has been seen, no line raises Ready.
proof fn lemma_found_silent(w: OutputWatcher, lines: Seq<Seq<char>>, j: int)
    requires
        w.ready_found,
        0 <= j < lines.len(),
    ensures
        !ready_flags(w, lines)[j],
    decreases lines.len(),
{
    lemma_flags_len(w, lines);
    if j > 0 {
        lemma_found_silent(watch_next(w, lines[0]), lines.drop_first(), j - 1);
        lemma_flags_len(watch_next(w, lines[0]), lines.drop_first());
    }
}

/// The events a watcher in state `w` sends for `lines` read in turn: each
/// line's Output event, followed by a Ready event when the line makes the
/// task Ready.
pub open spec fn stream_events(w: OutputWatcher, lines: Seq<String>) -> Seq<TaskEvent>
    decreases lines.len(),
{
    if lines.len() == 0 {
        Seq::empty()
    } else {
        seq![TaskEvent::Output { line: lines[0], src: w.src }] + (if ready_hit(w, lines[0]@) {
            seq![TaskEvent::Ready]
        } else {
            Seq::empty()
        }) + stream_events(watch_next(w, lines[0]@), lines.drop_first())
    }
}

/// The number of Ready events in `evs`.
pub open spec fn ready_count(evs: Seq<TaskEvent>) -> nat
    decreases evs.len(),
{
    if evs.len() == 0 {
        0
    } else {
        (if evs.last() == TaskEvent::Ready { 1nat } else { 0nat }) + ready_count(evs.drop_last())
    }
}

proof fn lemma_ready_count_add(a: Seq<TaskEvent>, b: Seq<TaskEvent>)
    ensures
        ready_count(a + b) == ready_count(a) + ready_count(b),
    decreases b.len(),
{
    if b.len() > 0 {
        lemma_ready_count_add(a, b.drop_last());
        assert((a + b).drop_last() =~= a + b.drop_last());
    } else {
        assert(a + b =~= a);
    }
}

/// Over a whole stream, a watcher sends at most one Ready event, none once
/// the indicator has been seen, and none at all when its stream is not the
/// one the ready indicator counts in. With one watcher per stream, all
/// watching for the same indicator in the same stream, a run therefore
/// sends Ready at most once.
pub proof fn stream_ready_at_most_once(w: OutputWatcher, lines: Seq<String>)
    ensures
        ready_count(stream_events(w, lines)) <= 1,
        w.ready_found ==> ready_count(stream_events(w, lines)) == 0,
        w.src != w.ready_indicator_source ==> ready_count(stream_events(w, lines)) == 0,
    decreases lines.len(),
{
    if lines.len() > 0 {
        let n = watch_next(w, lines[0]@);
        stream_ready_at_most_once(n, lines.drop_first());
        let out = seq![TaskEvent::Output { line: lines[0], src: w.src }];
        let rdy = if ready_hit(w, lines[0]@) {
            seq![TaskEvent::Ready]
        } else {
            Seq::<TaskEvent>::empty()
        };
        lemma_ready_count_add(out + rdy, stream_events(n, lines.drop_first()));
        lemma_ready_count_add(out, rdy);
        assert(ready_count(out) == 0) by {
            assert(out.last() != TaskEvent::Ready);
            assert(out.drop_last() =~= Seq::<TaskEvent>::empty());
            assert(ready_count(out.drop_last()) == 0);
        }
        if ready_hit(w, lines[0]@) {
            assert(ready_count(rdy) == 1) by {
                assert(rdy.last() == TaskEvent::Ready);
                assert(rdy.drop_last() =~= Seq::<TaskEvent>::empty());
                assert(ready_count(rdy.drop_last()) == 0);
            }
        }
    }
}

/// Each line's Output event comes first among the events it causes, and a
/// line that makes the task Ready is followed at once by the Ready event.
pub proof fn stream_events_of_first_line(w: OutputWatcher, lines: Seq<String>)
    requires
        lines.len() > 0,
    ensures
        stream_events(w, lines)[0] == (TaskEvent::Output { line: lines[0], src: w.src }),
        ready_hit(w, lines[0]@) ==> stream_events(w, lines)[1] == TaskEvent::Ready,
{
}

} // verus!
