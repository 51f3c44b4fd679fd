//! The diagnostic log: a bounded buffer of messages, oldest first, and the
//! switch that shows or hides it.
//!
//! The log is a ring: it keeps the newest `bound` entries and evicts at the
//! head. Clearing is for what is on screen: a hidden log is not cleared.

use crate::message::{Msg, MsgView};
use std::collections::VecDeque;
use vstd::prelude::*;

verus! {

/// Number of entries a log keeps unless it is made with another bound.
pub const LOG_SIZE: usize = 4;

/// The last `n` items of `s`, in their order; all of `s` if it has no more.
pub open spec fn newest<A>(s: Seq<A>, n: nat) -> Seq<A> {
    if s.len() <= n {
        s
    } else {
        s.subrange(s.len() - n, s.len() as int)
    }
}

/// What a [`MessageLog`] stands for in contracts.
pub struct LogView {
    /// The retained entries, oldest first.
    pub entries: Seq<MsgView>,
    pub visible: bool,
    /// The most entries the log retains.
    pub bound: nat,
}

impl LogView {
    /// Holds of the view of every [`MessageLog`]: no more entries than the bound.
    pub open spec fn wf(self) -> bool {
        self.entries.len() <= self.bound
    }

    /// The log as it is made: no entries, hidden.
    pub open spec fn empty(bound: nat) -> LogView {
        LogView { entries: Seq::empty(), visible: false, bound }
    }

    /// Appends `msg`, drops what no longer fits at the old end, and shows the log.
    pub open spec fn record(self, msg: MsgView) -> LogView {
        LogView { entries: newest(self.entries.push(msg), self.bound), visible: true, ..self }
    }

    /// Records every message of `msgs`, first to last.
    pub open spec fn record_all(self, msgs: Seq<MsgView>) -> LogView
        decreases msgs.len(),
    {
        if msgs.len() == 0 {
            self
        } else {
            self.record_all(msgs.drop_last()).record(msgs.last())
        }
    }

    /// Shows a hidden log, hides a visible one; the entries stay.
    pub open spec fn toggle_visibility(self) -> LogView {
        LogView { visible: !self.visible, ..self }
    }

    /// Empties a visible log; a hidden log is left as it is.
    pub open spec fn clear(self) -> LogView {
        if self.visible {
            LogView { entries: Seq::empty(), ..self }
        } else {
            self
        }
    }

    /// The entries from the most recent back to the oldest, each with its age
    /// rank: 0 for the most recent, 1 for the one before it, and so on.
    pub open spec fn by_age(self) -> Seq<(nat, MsgView)> {
        Seq::new(
            self.entries.len(),
            |rank: int| (rank as nat, self.entries[self.entries.len() - 1 - rank]),
        )
    }
}

/// Whether `ranked`, a list as [`MessageLog::by_age`] hands it out, is the list
/// `expected`: as long, with the same rank and the same message at each place.
pub open spec fn lists(ranked: Seq<(usize, &Msg)>, expected: Seq<(nat, MsgView)>) -> bool {
    &&& ranked.len() == expected.len()
    &&& forall|i: int|
        0 <= i < ranked.len() ==> (#[trigger] ranked[i]).0 == expected[i].0 && ranked[i].1@
            == expected[i].1
}

/// Bounded message log. Entries are appended at the tail and evicted at the
/// head; `clear` works only while the log is visible.
pub struct MessageLog {
    entries: VecDeque<Msg>,
    visible: bool,
    bound: usize,
}

impl View for MessageLog {
    type V = LogView;

    closed spec fn view(&self) -> LogView {
        LogView {
            entries: self.entries@.map_values(|m: Msg| m@),
            visible: self.visible,
            bound: self.bound as nat,
        }
    }
}

impl MessageLog {
    #[verifier::type_invariant]
    spec fn within_bound(self) -> bool {
        self.entries@.len() <= self.bound
    }

    /// An empty, hidden log that keeps `LOG_SIZE` entries.
    pub fn new() -> (log: MessageLog)
        ensures
            log@ == LogView::empty(LOG_SIZE as nat),
            log@.wf(),
    {
        MessageLog::with_bound(LOG_SIZE)
    }

    /// An empty, hidden log that keeps `bound` entries.
    pub fn with_bound(bound: usize) -> (log: MessageLog)
        ensures
            log@ == LogView::empty(bound as nat),
            log@.wf(),
    {
        let log = MessageLog { entries: VecDeque::new(), visible: false, bound };
        assert(log@.entries =~= Seq::empty());
        log
    }

    /// Appends `msg` and makes the log visible, whatever it was before. When
    /// the log is full the oldest entry leaves.
    pub fn record(&mut self, msg: Msg)
        ensures
            final(self)@ == old(self)@.record(msg@),
            final(self)@.visible,
            final(self)@.wf(),
    {
        proof {
            use_type_invariant(&*self);
        }
        // Between the push and the eviction the queue is one over the bound,
        // so it is taken out of the log while it changes.
        let mut entries: VecDeque<Msg> = VecDeque::new();
        std::mem::swap(&mut self.entries, &mut entries);
        entries.push_back(msg);
        if entries.len() > self.bound {
            entries.pop_front();
        }
        self.entries = entries;
        self.visible = true;
        assert(self@.entries =~= old(self)@.record(msg@).entries);
    }

    /// Shows a hidden log, hides a visible one; the entries stay.
    pub fn toggle_visibility(&mut self)
        ensures
            final(self)@ == old(self)@.toggle_visibility(),
            final(self)@.wf(),
    {
        proof {
            use_type_invariant(&*self);
        }
        self.visible = !self.visible;
    }

    /// Empties the log if it is visible, and says whether it did.
    pub fn clear(&mut self) -> (cleared: bool)
        ensures
            final(self)@ == old(self)@.clear(),
            final(self)@.wf(),
            cleared == old(self)@.visible,
    {
        proof {
            use_type_invariant(&*self);
        }
        if self.visible {
            self.entries = VecDeque::new();
            assert(self@.entries =~= Seq::empty());
            true
        } else {
            false
        }
    }

    /// Whether the log is shown.
    pub fn is_visible(&self) -> (visible: bool)
        ensures
            visible == self@.visible,
    {
        self.visible
    }

    /// The most entries the log retains.
    pub fn bound(&self) -> (bound: usize)
        ensures
            bound == self@.bound,
    {
        self.bound
    }

    /// The number of retained entries, never more than the bound.
    pub fn len(&self) -> (len: usize)
        ensures
            len == self@.entries.len(),
            self@.wf(),
    {
        proof {
            use_type_invariant(self);
        }
        self.entries.len()
    }

    /// The entries from the most recent back to the oldest, each with its age
    /// rank. Every rank is below the bound.
    pub fn by_age(&self) -> (ranked: Vec<(usize, &Msg)>)
        ensures
            lists(ranked@, self@.by_age()),
            self@.wf(),
    {
        proof {
            use_type_invariant(self);
        }
        let len = self.entries.len();
        let mut ranked: Vec<(usize, &Msg)> = Vec::new();
        let mut rank: usize = 0;
        while rank < len
            invariant
                len == self.entries@.len(),
                rank <= len,
                ranked@.len() == rank,
                forall|i: int|
                    0 <= i < rank ==> ranked@[i].0 == i && *ranked@[i].1 == self.entries@[len - 1
                        - i],
            decreases len - rank,
        {
            ranked.push((rank, &self.entries[len - 1 - rank]));
            rank += 1;
        }
        ranked
    }
}

/// Recording into a kept window: keeping the newest `bound` after each push
/// is keeping the newest `bound` of everything pushed.
proof fn lemma_newest_after_push<A>(s: Seq<A>, item: A, bound: nat)
    ensures
        newest(newest(s, bound).push(item), bound) == newest(s.push(item), bound),
{
    assert(newest(newest(s, bound).push(item), bound) =~= newest(s.push(item), bound));
}

/// After any run of `record` calls the log holds the newest `bound` of what it
/// held before followed by what was recorded, in that order.
pub proof fn lemma_record_all_keeps_newest(log: LogView, msgs: Seq<MsgView>)
    requires
        log.wf(),
    ensures
        log.record_all(msgs).entries == newest(log.entries + msgs, log.bound),
        log.record_all(msgs).bound == log.bound,
        log.record_all(msgs).wf(),
    decreases msgs.len(),
{
    if msgs.len() == 0 {
        assert(log.entries + msgs =~= log.entries);
    } else {
        let earlier = msgs.drop_last();
        lemma_record_all_keeps_newest(log, earlier);
        lemma_newest_after_push(log.entries + earlier, msgs.last(), log.bound);
        assert((log.entries + earlier).push(msgs.last()) =~= log.entries + msgs);
    }
}

/// The log is append-only with a bound: once at least `bound` messages have
/// been recorded, the log holds exactly `bound` entries, and they are the last
/// `bound` of the recorded messages in the order they were recorded.
pub proof fn lemma_full_log_is_last_recorded(log: LogView, msgs: Seq<MsgView>)
    requires
        log.wf(),
        msgs.len() >= log.bound,
    ensures
        log.record_all(msgs).entries.len() == log.bound,
        log.record_all(msgs).entries == msgs.subrange(
            msgs.len() - log.bound,
            msgs.len() as int,
        ),
{
    lemma_record_all_keeps_newest(log, msgs);
    assert(newest(log.entries + msgs, log.bound) =~= msgs.subrange(
        msgs.len() - log.bound,
        msgs.len() as int,
    ));
}

/// Recording surfaces the log: whether it was hidden or shown, and whatever the
/// severity of the message, the log is visible afterwards.
pub proof fn lemma_record_makes_visible(log: LogView, msg: MsgView)
    ensures
        log.record(msg).visible,
{
}

} // verus!
