//! The server's recent output, kept as a bounded log: each line the sidecar
//! prints is stored with the stream it came from, and only the newest
//! `MAX_LOG_ENTRIES` entries are kept.

use crate::text::{contains_text, has_substring};
use std::collections::VecDeque;
use vstd::prelude::*;

verus! {

/// How many entries the log keeps.
pub const MAX_LOG_ENTRIES: usize = 200;

/// The stream a line of server output came from.
#[derive(Clone, Copy, PartialEq, Eq, Structural, Debug)]
pub enum LogStream {
    Stdout,
    Stderr,
}

/// The tag that an entry from `stream` starts with.
pub open spec fn stream_tag(stream: LogStream) -> Seq<char> {
    match stream {
        LogStream::Stdout => "[STDOUT] "@,
        LogStream::Stderr => "[STDERR] "@,
    }
}

/// The entry stored for a line printed on `stream`.
pub open spec fn log_entry(stream: LogStream, line: Seq<char>) -> Seq<char> {
    stream_tag(stream) + line
}

/// The last `n` elements of `s`, or all of `s` when it is no longer.
pub open spec fn keep_newest<A>(s: Seq<A>, n: nat) -> Seq<A> {
    if s.len() <= n {
        s
    } else {
        s.subrange(s.len() - n, s.len() as int)
    }
}

/// The texts of `s` written one after another.
pub open spec fn concat_all(s: Seq<Seq<char>>) -> Seq<char>
    decreases s.len(),
{
    if s.len() == 0 {
        Seq::empty()
    } else {
        concat_all(s.drop_last()) + s.last()
    }
}

/// The texts by which the server reports that it could not take its port.
pub open spec fn reports_bind_failure(logs: Seq<char>) -> bool {
    has_substring(logs, "Failed to start server on port"@) || has_substring(
        logs,
        "address already in use"@,
    )
}

/// The newest lines of the server's output, oldest first.
pub struct LogBuffer {
    entries: VecDeque<String>,
}

impl View for LogBuffer {
    type V = Seq<Seq<char>>;

    closed spec fn view(&self) -> Seq<Seq<char>> {
        self.entries@.map_values(|e: String| e@)
    }
}

impl LogBuffer {
    #[verifier::type_invariant]
    spec fn bounded(self) -> bool {
        self.entries@.len() <= MAX_LOG_ENTRIES
    }

    /// An empty log.
    pub fn new() -> (log: Self)
        ensures
            log@ == Seq::<Seq<char>>::empty(),
    {
        let log = LogBuffer { entries: VecDeque::new() };
        assert(log@ =~= Seq::<Seq<char>>::empty());
        log
    }

    /// The number of entries held, never more than `MAX_LOG_ENTRIES`.
    pub fn len(&self) -> (n: usize)
        ensures
            n == self@.len(),
            n <= MAX_LOG_ENTRIES,
    {
        proof {
            use_type_invariant(self);
        }
        self.entries.len()
    }

    /// Records a line printed on `stream`: its tagged entry becomes the newest,
    /// and the oldest entries are dropped so that at most `MAX_LOG_ENTRIES` stay.
    pub fn record(&mut self, stream: LogStream, line: &str)
        ensures
            final(self)@ == keep_newest(old(self)@.push(log_entry(stream, line@)), MAX_LOG_ENTRIES as nat),
    {
        proof {
            use_type_invariant(&*self);
        }
        let mut entry = String::new();
        match stream {
            LogStream::Stdout => {
                proof {
                    reveal_strlit("[STDOUT] ");
                }
                entry.append("[STDOUT] ");
            },
            LogStream::Stderr => {
                proof {
                    reveal_strlit("[STDERR] ");
                }
                entry.append("[STDERR] ");
            },
        }
        entry.append(line);
        let ghost entry_view = entry@;
        assert(entry_view == log_entry(stream, line@));
        let ghost old_view = self@;
        let mut entries: VecDeque<String> = VecDeque::new();
        std::mem::swap(&mut entries, &mut self.entries);
        assert(entries@.map_values(|e: String| e@) == old_view);
        entries.push_back(entry);
        let ghost full = old_view.push(entry_view);
        assert(entries@.map_values(|e: String| e@) =~= full);
        let ghost mut dropped: int = 0;
        while entries.len() > MAX_LOG_ENTRIES
            invariant
                0 <= dropped,
                full.len() == entries@.len() + dropped,
                dropped > 0 ==> entries@.len() >= MAX_LOG_ENTRIES,
                entries@.map_values(|e: String| e@) =~= full.subrange(dropped, full.len() as int),
            decreases entries@.len(),
        {
            let ghost before = entries@;
            entries.pop_front();
            proof {
                assert(entries@.map_values(|e: String| e@) =~= before.map_values(
                    |e: String| e@,
                ).subrange(1, before.len() as int));
                dropped = dropped + 1;
            }
        }
        self.entries = entries;
        assert(self@ =~= keep_newest(full, MAX_LOG_ENTRIES as nat));
    }

    /// All entries written one after another, oldest first.
    pub fn joined(&self) -> (all: String)
        ensures
            all@ == concat_all(self@),
    {
        let mut all = String::new();
        let n = self.entries.len();
        let mut i: usize = 0;
        while i < n
            invariant
                n == self.entries@.len(),
                i <= n,
                all@ == concat_all(self@.take(i as int)),
            decreases n - i,
        {
            assert(self@.take(i + 1).drop_last() =~= self@.take(i as int));
            all.append(self.entries[i].as_str());
            i = i + 1;
        }
        assert(self@.take(n as int) =~= self@);
        all
    }
}

/// Whether the server's output says that it could not take its port.
pub fn bind_failure_reported(logs: &str) -> (reported: bool)
    ensures
        reported == reports_bind_failure(logs@),
{
    proof {
        reveal_strlit("Failed to start server on port");
        reveal_strlit("address already in use");
    }
    contains_text(logs, "Failed to start server on port") || contains_text(
        logs,
        "address already in use",
    )
}

/// Recording an entry keeps the newest entries in order: the recorded entry is
/// the last one, the log grows by one until it holds `n` entries, and the
/// entries before it are the newest of those held before.
pub proof fn lemma_record_keeps_newest<A>(s: Seq<A>, e: A, n: nat)
    requires
        s.len() <= n,
        n > 0,
    ensures
        keep_newest(s.push(e), n).last() == e,
        keep_newest(s.push(e), n).len() == if s.len() < n { s.len() + 1 } else { n },
        keep_newest(s.push(e), n).drop_last() == keep_newest(s, (n - 1) as nat),
{
    let t = keep_newest(s.push(e), n);
    assert(t.drop_last() =~= keep_newest(s, (n - 1) as nat));
}


/// The entries that the lines of `lines` (each a stream and a line) are
/// recorded as.
pub open spec fn tagged_entries(lines: Seq<(LogStream, Seq<char>)>) -> Seq<Seq<char>> {
    lines.map_values(|l: (LogStream, Seq<char>)| log_entry(l.0, l.1))
}

/// The log that recording `lines` one after another leaves when it starts as
/// `log`: each step is what `LogBuffer::record` does.
pub open spec fn record_all(log: Seq<Seq<char>>, lines: Seq<(LogStream, Seq<char>)>) -> Seq<Seq<char>>
    decreases lines.len(),
{
    if lines.len() == 0 {
        log
    } else {
        record_all(
            keep_newest(log.push(log_entry(lines[0].0, lines[0].1)), MAX_LOG_ENTRIES as nat),
            lines.drop_first(),
        )
    }
}

proof fn lemma_keep_newest_push<A>(s: Seq<A>, e: A, n: nat)
    requires
        n > 0,
    ensures
        keep_newest(keep_newest(s, n).push(e), n) == keep_newest(s.push(e), n),
{
    if s.len() > n {
        assert(keep_newest(keep_newest(s, n).push(e), n) =~= keep_newest(s.push(e), n));
    }
}

proof fn lemma_keep_newest_idle<A>(s: Seq<A>, n: nat)
    ensures
        keep_newest(keep_newest(s, n), n) == keep_newest(s, n),
{
}

proof fn lemma_record_all_from(s: Seq<Seq<char>>, lines: Seq<(LogStream, Seq<char>)>)
    ensures
        record_all(keep_newest(s, MAX_LOG_ENTRIES as nat), lines) == keep_newest(
            s + tagged_entries(lines),
            MAX_LOG_ENTRIES as nat,
        ),
    decreases lines.len(),
{
    let n = MAX_LOG_ENTRIES as nat;
    if lines.len() == 0 {
        assert(s + tagged_entries(lines) =~= s);
        lemma_keep_newest_idle(s, n);
    } else {
        let e = log_entry(lines[0].0, lines[0].1);
        lemma_keep_newest_push(s, e, n);
        lemma_record_all_from(s.push(e), lines.drop_first());
        assert(s.push(e) + tagged_entries(lines.drop_first()) =~= s + tagged_entries(lines));
    }
}

/// Recording a run of lines keeps the newest `MAX_LOG_ENTRIES` of all entries
/// in order: starting from a log `log`, recording `lines` one after another
/// leaves the last `MAX_LOG_ENTRIES` (or all) of `log` followed by the tagged
/// lines, and recording one more line after a run is one step of `record`.
pub proof fn lemma_log_holds_newest_lines(log: Seq<Seq<char>>, lines: Seq<(LogStream, Seq<char>)>, stream: LogStream, line: Seq<char>)
    requires
        log.len() <= MAX_LOG_ENTRIES,
    ensures
        record_all(log, lines) == keep_newest(log + tagged_entries(lines), MAX_LOG_ENTRIES as nat),
        record_all(log, lines.push((stream, line))) == keep_newest(
            record_all(log, lines).push(log_entry(stream, line)),
            MAX_LOG_ENTRIES as nat,
        ),
{
    let n = MAX_LOG_ENTRIES as nat;
    assert(keep_newest(log, n) == log);
    lemma_record_all_from(log, lines);
    lemma_record_all_from(log, lines.push((stream, line)));
    let e = log_entry(stream, line);
    assert(tagged_entries(lines.push((stream, line))) =~= tagged_entries(lines).push(e));
    assert(log + tagged_entries(lines.push((stream, line))) =~= (log + tagged_entries(lines)).push(e));
    lemma_keep_newest_push(log + tagged_entries(lines), e, n);
}

} // verus!
