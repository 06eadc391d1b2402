//! The bounded, append-only transcript: an insertion-ordered buffer of at
//! most twenty text entries, each capped at 512 characters, with strict FIFO
//! eviction of the oldest entry when a twenty-first arrives.

use vstd::prelude::*;

verus! {

/// Most entries the log ever holds at once.
pub const LOG_CAPACITY: usize = 20;

/// Longest entry the log ever stores; longer text is cut at this length.
pub const ENTRY_CAPACITY: usize = 512;

/// A candidate entry cut down to the entry capacity.
pub open spec fn truncate_entry(m: Seq<char>) -> Seq<char> {
    if m.len() <= ENTRY_CAPACITY {
        m
    } else {
        m.subrange(0, ENTRY_CAPACITY as int)
    }
}

/// One append: the truncated entry goes to the end, and when the log is
/// full the oldest entry is evicted first.
pub open spec fn log_append(l: Seq<Seq<char>>, m: Seq<char>) -> Seq<Seq<char>> {
    let e = truncate_entry(m);
    if l.len() < LOG_CAPACITY {
        l.push(e)
    } else {
        l.drop_first().push(e)
    }
}

/// A whole sequence of appends, oldest first.
pub open spec fn log_append_all(l: Seq<Seq<char>>, msgs: Seq<Seq<char>>) -> Seq<Seq<char>>
    decreases msgs.len(),
{
    if msgs.len() == 0 {
        l
    } else {
        log_append_all(log_append(l, msgs.first()), msgs.drop_first())
    }
}

/// The newest `LOG_CAPACITY` entries of a sequence.
pub open spec fn keep_newest(s: Seq<Seq<char>>) -> Seq<Seq<char>> {
    if s.len() <= LOG_CAPACITY {
        s
    } else {
        s.subrange(s.len() - LOG_CAPACITY, s.len() as int)
    }
}

/// The visible transcript, oldest entry first.
pub struct MessageLog {
    entries: Vec<String>,
}

impl View for MessageLog {
    type V = Seq<Seq<char>>;

    closed spec fn view(&self) -> Seq<Seq<char>> {
        self.entries@.map_values(|s: String| s@)
    }
}

impl MessageLog {
    /// The log never exceeds its capacity and never stores an over-long
    /// entry.
    pub open spec fn wf(&self) -> bool {
        &&& self@.len() <= LOG_CAPACITY
        &&& forall|i: int| 0 <= i < self@.len() ==> #[trigger] self@[i].len() <= ENTRY_CAPACITY
    }

    pub fn new() -> (r: Self)
        ensures
            r@ == Seq::<Seq<char>>::empty(),
            r.wf(),
    {
        let r = MessageLog { entries: Vec::new() };
        proof {
            assert(r@ =~= Seq::<Seq<char>>::empty());
        }
        r
    }

    pub fn len(&self) -> (n: usize)
        ensures
            n == self@.len(),
    {
        self.entries.len()
    }

    /// The entry at a position, position 0 being the oldest.
    pub fn entry(&self, i: usize) -> (r: &String)
        requires
            i < self@.len(),
        ensures
            r@ == self@[i as int],
    {
        &self.entries[i]
    }

    /// Appends an entry, truncating it to the entry capacity and evicting
    /// the oldest entry when the log is full.
    pub fn append(&mut self, msg: &str)
        requires
            old(self).wf(),
        ensures
            final(self)@ == log_append(old(self)@, msg@),
            final(self).wf(),
    {
        let e = clip_entry(msg);
        if self.entries.len() >= LOG_CAPACITY {
            self.entries.remove(0);
            proof {
                assert(self.entries@ =~= old(self).entries@.drop_first());
                assert(self@ =~= old(self)@.drop_first());
            }
        }
        let ghost before = self@;
        self.entries.push(e);
        proof {
            assert(self@ =~= before.push(truncate_entry(msg@)));
            assert(final(self)@ =~= log_append(old(self)@, msg@));
        }
    }

    /// Empties the log; its capacity is unchanged.
    pub fn clear(&mut self)
        ensures
            final(self)@ == Seq::<Seq<char>>::empty(),
            final(self).wf(),
    {
        self.entries.clear();
        proof {
            assert(self@ =~= Seq::<Seq<char>>::empty());
        }
    }

    /// The entries in reverse insertion order, the order they are rendered
    /// in; the log itself is unchanged.
    pub fn newest_first(&self) -> (r: Vec<String>)
        ensures
            r@.len() == self@.len(),
            forall|i: int| 0 <= i < r@.len() ==> #[trigger] r@[i]@ == self@[self@.len() - 1 - i],
    {
        let n = self.entries.len();
        let mut r: Vec<String> = Vec::new();
        let mut i: usize = 0;
        while i < n
            invariant
                n == self@.len(),
                i <= n,
                r@.len() == i,
                forall|j: int| 0 <= j < i ==> #[trigger] r@[j]@ == self@[self@.len() - 1 - j],
            decreases n - i,
        {
            r.push(self.entries[n - 1 - i].clone());
            i = i + 1;
        }
        r
    }
}

proof fn lemma_log_append_all_model(l: Seq<Seq<char>>, msgs: Seq<Seq<char>>)
    requires
        l.len() <= LOG_CAPACITY,
    ensures
        log_append_all(l, msgs) == keep_newest(l + msgs.map_values(|m: Seq<char>| truncate_entry(m))),
    decreases msgs.len(),
{
    let t = msgs.map_values(|m: Seq<char>| truncate_entry(m));
    if msgs.len() == 0 {
        assert(l + t =~= l);
    } else {
        let m0 = msgs.first();
        let l1 = log_append(l, m0);
        let rest = msgs.drop_first();
        let trest = rest.map_values(|m: Seq<char>| truncate_entry(m));
        lemma_log_append_all_model(l1, rest);
        assert(trest =~= t.drop_first());
        if l.len() < LOG_CAPACITY {
            assert(l1 + trest =~= l + t);
        } else {
            let a = l1 + trest;
            let b = l + t;
            assert(forall|k: int| 0 <= k < a.len() ==> #[trigger] a[k] == b[k + 1]);
            assert(keep_newest(a) =~= keep_newest(b));
        }
    }
}

/// The FIFO eviction law: starting from an empty log, a sequence of appends
/// keeps every entry while there are at most `LOG_CAPACITY` of them; beyond
/// that the log holds exactly the newest `LOG_CAPACITY` entries, so the
/// oldest surviving entry after `n` appends is the `(n - LOG_CAPACITY + 1)`th
/// appended one.
pub proof fn lemma_fifo_eviction(msgs: Seq<Seq<char>>)
    ensures
        log_append_all(Seq::empty(), msgs) == keep_newest(
            msgs.map_values(|m: Seq<char>| truncate_entry(m)),
        ),
        msgs.len() <= LOG_CAPACITY ==> log_append_all(Seq::empty(), msgs).len() == msgs.len(),
        msgs.len() > LOG_CAPACITY ==> {
            &&& log_append_all(Seq::empty(), msgs).len() == LOG_CAPACITY
            &&& log_append_all(Seq::empty(), msgs)[0] == truncate_entry(
                msgs[msgs.len() - LOG_CAPACITY],
            )
        },
{
    lemma_log_append_all_model(Seq::empty(), msgs);
    let t = msgs.map_values(|m: Seq<char>| truncate_entry(m));
    assert(Seq::<Seq<char>>::empty() + t =~= t);
}

fn clip_entry(msg: &str) -> (e: String)
    ensures
        e@ == truncate_entry(msg@),
{
    let n = msg.unicode_len();
    if n <= ENTRY_CAPACITY {
        msg.to_owned()
    } else {
        msg.substring_char(0, ENTRY_CAPACITY).to_owned()
    }
}

} // verus!
