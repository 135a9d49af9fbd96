use vstd::prelude::*;
use std::collections::HashMap;
use vstd::std_specs::iter::IteratorSpec;

verus! {

broadcast use vstd::std_specs::hash::group_hash_axioms;

/// For each session that ever served a chime, whether it served one since
/// the supervisor last looked.
pub struct ActivityFlags {
    flags: HashMap<u64, bool>,
}

/// Whether `needle` occurs in `items`.
pub fn contains_id(items: &Vec<u64>, needle: u64) -> (r: bool)
    ensures
        r == items@.contains(needle),
{
    let mut i: usize = 0;
    while i < items.len()
        invariant
            i <= items.len(),
            forall|j: int| 0 <= j < i ==> items@[j] != needle,
        decreases items.len() - i,
    {
        if items[i] == needle {
            return true;
        }
        i = i + 1;
    }
    false
}

impl View for ActivityFlags {
    type V = Map<u64, bool>;

    closed spec fn view(&self) -> Map<u64, bool> {
        self.flags@
    }
}

impl ActivityFlags {
    /// The sessions that a sweep disconnects: those whose flag is down and
    /// whose connection is among `open`.
    pub open spec fn idle(&self, open: Seq<u64>) -> Set<u64> {
        Set::new(|s: u64| self@.contains_key(s) && !self@[s] && open.contains(s))
    }

    /// The flags after a sweep: the same sessions, every flag down.
    pub open spec fn cleared(&self) -> Map<u64, bool> {
        Map::new(|k: u64| self@.contains_key(k), |k: u64| false)
    }

    /// No session on record.
    pub fn new() -> (f: Self)
        ensures
            f@ == Map::<u64, bool>::empty(),
    {
        ActivityFlags { flags: HashMap::new() }
    }

    /// The flag of `session_id`, where the session is on record.
    pub fn get(&self, session_id: u64) -> (r: Option<bool>)
        ensures
            r == (if self@.contains_key(session_id) {
                Some(self@[session_id])
            } else {
                None
            }),
    {
        match self.flags.get(&session_id) {
            Some(flag) => Some(*flag),
            None => None,
        }
    }

    /// The sessions on record, each once, in no particular order.
    pub fn session_ids(&self) -> (r: Vec<u64>)
        ensures
            r@.no_duplicates(),
            r@.to_set() == self@.dom(),
    {
        let mut ids: Vec<u64> = Vec::new();
        let ghost all: Seq<u64> = self.flags.keys().remaining().unref();
        for key in it: self.flags.keys()
            invariant
                it.seq().unref() == all,
                ids@ == all.take(it.index() as int),
        {
            proof {
                assert(all.take(it.index() as int + 1) =~= all.take(it.index() as int).push(*key));
            }
            ids.push(*key);
        }
        proof {
            assert(ids@ =~= all);
        }
        ids
    }

    /// Records that `session_id` has just served a chime.
    pub fn mark_active(&mut self, session_id: u64)
        ensures
            final(self)@ == old(self)@.insert(session_id, true),
    {
        self.flags.insert(session_id, true);
    }

    /// One supervisor tick over the flags. `open` lists the sessions that
    /// hold an open connection.
    ///
    /// Every flag is down afterwards. What is returned are the sessions to
    /// disconnect: those whose flag was already down and whose connection is
    /// open, each once. A session whose flag was up is spared.
    pub fn sweep(&mut self, open: &Vec<u64>) -> (leave: Vec<u64>)
        ensures
            final(self)@ == old(self).cleared(),
            leave@.no_duplicates(),
            leave@.to_set() == old(self).idle(open@),
            forall|s: u64|
                leave@.contains(s) <==> (old(self)@.contains_key(s) && !old(self)@[s]
                    && open@.contains(s)),
            forall|s: u64|
                old(self)@.contains_key(s) && old(self)@[s] ==> !leave@.contains(s) && final(self)@[s]
                    == false,
    {
        let keys = self.session_ids();
        let ghost before = self.flags@;
        let ghost pred = |s: u64| before.contains_key(s) && !before[s] && open@.contains(s);
        let mut leave: Vec<u64> = Vec::new();
        let mut i: usize = 0;
        proof {
            assert forall|j: int| 0 <= j < keys@.len() implies before.contains_key(
                #[trigger] keys@[j],
            ) by {
                assert(keys@.to_set().contains(keys@[j]));
            }
        }
        while i < keys.len()
            invariant
                i <= keys.len(),
                keys@.no_duplicates(),
                keys@.to_set() == before.dom(),
                forall|j: int| 0 <= j < keys@.len() ==> before.contains_key(#[trigger] keys@[j]),
                self.flags@.dom() == before.dom(),
                forall|j: int| 0 <= j < i ==> self.flags@[#[trigger] keys@[j]] == false,
                forall|j: int|
                    i <= j < keys@.len() ==> self.flags@[#[trigger] keys@[j]] == before[keys@[j]],
                leave@ == keys@.take(i as int).filter(pred),
                pred == (|s: u64| before.contains_key(s) && !before[s] && open@.contains(s)),
            decreases keys.len() - i,
        {
            let key = keys[i];
            let ghost during = self.flags@;
            proof {
                keys@.take(i as int).lemma_filter_push(key, pred);
                assert(keys@.take(i as int + 1) =~= keys@.take(i as int).push(key));
                assert(during.contains_key(key));
            }
            let raised = match self.flags.get(&key) {
                Some(flag) => *flag,
                None => false,
            };
            if raised {
                self.flags.insert(key, false);
                assert(self.flags@.dom() =~= before.dom());
            } else if contains_id(open, key) {
                leave.push(key);
            }
            i = i + 1;
        }
        proof {
            assert(keys@.take(i as int) =~= keys@);
            assert forall|k: u64| self.flags@.contains_key(k) implies #[trigger] self.flags@[k]
                == false by {
                assert(keys@.to_set().contains(k));
                let j = choose|j: int| 0 <= j < keys@.len() && keys@[j] == k;
                assert(self.flags@[keys@[j]] == false);
            }
            assert(self.flags@ =~= old(self).cleared());
            lemma_filter_keeps_distinct(keys@, pred);
            assert forall|s: u64| leave@.contains(s) <==> (before.contains_key(s) && !before[s]
                && open@.contains(s)) by {
                if leave@.contains(s) {
                    let j = choose|j: int| 0 <= j < leave@.len() && leave@[j] == s;
                    keys@.lemma_filter_pred(pred, j);
                }
                if before.contains_key(s) && !before[s] && open@.contains(s) {
                    assert(keys@.to_set().contains(s));
                    let j = choose|j: int| 0 <= j < keys@.len() && keys@[j] == s;
                    keys@.lemma_filter_contains(pred, j);
                }
            }
            assert(leave@.to_set() =~= old(self).idle(open@));
        }
        leave
    }
}

/// Filtering a sequence without repeats leaves one without repeats.
pub proof fn lemma_filter_keeps_distinct(s: Seq<u64>, pred: spec_fn(u64) -> bool)
    requires
        s.no_duplicates(),
    ensures
        s.filter(pred).no_duplicates(),
    decreases s.len(),
{
    reveal(Seq::filter);
    if s.len() > 0 {
        let rest = s.drop_last();
        assert(rest.no_duplicates());
        lemma_filter_keeps_distinct(rest, pred);
        if pred(s.last()) {
            let kept = rest.filter(pred);
            assert forall|i: int| 0 <= i < kept.len() implies kept[i] != s.last() by {
                assert(kept.contains(kept[i]));
                rest.lemma_filter_contains_rev(pred, kept[i]);
                let a = choose|a: int| 0 <= a < rest.len() && rest[a] == kept[i];
                assert(s[a] == kept[i]);
            }
        }
    }
}

/// A session whose flag is up at the start of a tick is not disconnected in
/// that tick, and its flag is down right after it.
pub proof fn lemma_active_session_is_spared(flags: ActivityFlags, open: Seq<u64>, session_id: u64)
    requires
        flags@.contains_key(session_id),
        flags@[session_id],
    ensures
        !flags.idle(open).contains(session_id),
        flags.cleared()[session_id] == false,
{
}

/// Two ticks in a row with no chime between them: a session that was on
/// record at the first and holds an open connection at the second is
/// disconnected by the second, whatever its flag was at the first.
pub proof fn lemma_idle_session_is_disconnected(
    first: ActivityFlags,
    second: ActivityFlags,
    open: Seq<u64>,
    session_id: u64,
)
    requires
        second@ == first.cleared(),
        first@.contains_key(session_id),
        open.contains(session_id),
    ensures
        second.idle(open).contains(session_id),
{
}

/// Once a session has been disconnected and its connection is no longer
/// open, further idle ticks do not ask for it again.
pub proof fn lemma_closed_session_is_left_alone(flags: ActivityFlags, open: Seq<u64>, session_id: u64)
    requires
        !open.contains(session_id),
    ensures
        !flags.idle(open).contains(session_id),
{
}

} // verus!
