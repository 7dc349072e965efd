//! The entry queue: an ordered, growable buffer of parsed entries,
//! append-only on the producer side and drained to empty in one step on the
//! consumer side, plus the per-line ingestion step that feeds it.

use vstd::prelude::*;

use crate::parsing::LogEntry;
use crate::parsing::LogEntryView;
use crate::parsing::ParsingError;
use crate::parsing::parse_ok_at;
use crate::parsing::parse_post;

verus! {

/// Buffer of parsed entries awaiting aggregation. Its view is the sequence of
/// entries in insertion order.
pub struct EntryQueue {
    entries: Vec<LogEntry>,
}

impl View for EntryQueue {
    type V = Seq<LogEntry>;

    closed spec fn view(&self) -> Seq<LogEntry> {
        self.entries@
    }
}

impl EntryQueue {
    /// An empty queue.
    pub fn new() -> (q: EntryQueue)
        ensures
            q@ == Seq::<LogEntry>::empty(),
    {
        EntryQueue { entries: Vec::new() }
    }

    /// Number of queued entries.
    pub fn len(&self) -> (n: usize)
        ensures
            n == self@.len(),
    {
        self.entries.len()
    }

    /// Appends one entry at the back.
    pub fn append(&mut self, entry: LogEntry)
        ensures
            final(self)@ == old(self)@.push(entry),
    {
        self.entries.push(entry);
    }

    /// Takes every queued entry in one step, leaving the queue empty: the
    /// batch is exactly the entries appended since the last drain, in order.
    pub fn drain(&mut self) -> (batch: Vec<LogEntry>)
        ensures
            batch@ == old(self)@,
            final(self)@ == Seq::<LogEntry>::empty(),
    {
        let mut taken: Vec<LogEntry> = Vec::new();
        std::mem::swap(&mut self.entries, &mut taken);
        taken
    }
}

/// One ingestion step: parse one line and, on success, append the entry to
/// the queue. A failed line leaves the queue unchanged and reports its
/// failure kind; it never halts ingestion.
pub fn ingest_line(queue: &mut EntryQueue, line: String) -> (r: Result<(), ParsingError>)
    ensures
        match r {
            Ok(_) => {
                &&& final(queue)@.len() == old(queue)@.len() + 1
                &&& final(queue)@.subrange(0, old(queue)@.len() as int) == old(queue)@
                &&& parse_ok_at(line@, final(queue)@.last()@)
            },
            Err(e) => {
                &&& final(queue)@ == old(queue)@
                &&& parse_post(line@, Err::<LogEntryView, ParsingError>(e))
            },
        },
{
    match LogEntry::try_from(line) {
        Ok(entry) => {
            queue.append(entry);
            assert(final(queue)@.subrange(0, old(queue)@.len() as int) =~= old(queue)@);
            Ok(())
        },
        Err(e) => Err(e),
    }
}

/// The sequence of entries a queue holds after appending each of `xs`, in
/// order, to a queue holding `q`: by `append`'s contract, one `push` each.
pub open spec fn appended(q: Seq<LogEntry>, xs: Seq<LogEntry>) -> Seq<LogEntry> {
    q + xs
}

/// Drain atomicity. Suppose a queue holds `q0`, and `before + after` are the
/// entries appended around one drain: `before` lands before the drain and
/// `after` lands after it, in any split the interleaving produces. The drain
/// returns `appended(q0, before)` and leaves `appended(empty, after)`; batch
/// and remainder together are exactly the entries of `q0` and every append,
/// each in exactly one of the two — none lost, none duplicated, none split.
pub proof fn lemma_drain_atomicity(
    q0: Seq<LogEntry>,
    before: Seq<LogEntry>,
    after: Seq<LogEntry>,
)
    ensures
        appended(q0, before) + appended(Seq::<LogEntry>::empty(), after) == appended(
            q0,
            before + after,
        ),
{
    assert(appended(q0, before) + appended(Seq::<LogEntry>::empty(), after) =~= appended(
        q0,
        before + after,
    ));
}

} // verus!
