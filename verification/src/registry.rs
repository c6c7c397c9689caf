//! The process registry: a mapping from session identifier to the OS
//! process id of that session's live agent.
//!
//! The registry itself is pure data; the caller wraps it in whatever lock
//! it needs and delivers termination signals to the process ids that
//! `stop` and `stop_all` hand back, outside the lock.

use vstd::prelude::*;
use crate::text::string_eq;

verus! {

/// A registered agent process: the OS process id it owns.
#[derive(Clone, Copy)]
pub struct ProcessEntry {
    pub pid: u32,
}

/// At most one live process per session identifier; the single source of
/// truth for "is this session's agent still running".
pub struct ProcessRegistry {
    entries: Vec<(String, ProcessEntry)>,
}

/// Whether some entry of `s` has key `k`.
spec fn has_key(s: Seq<(String, ProcessEntry)>, k: Seq<char>) -> bool {
    exists|i: int| 0 <= i < s.len() && s[i].0@ == k
}

/// No two entries of `s` share a key.
spec fn unique_keys(s: Seq<(String, ProcessEntry)>) -> bool {
    forall|i: int, j: int| 0 <= i < j < s.len() ==> s[i].0@ != s[j].0@
}

/// The mapping that an entry list denotes; later entries win.
spec fn map_of(s: Seq<(String, ProcessEntry)>) -> Map<Seq<char>, u32>
    decreases s.len(),
{
    if s.len() == 0 {
        Map::empty()
    } else {
        map_of(s.drop_last()).insert(s.last().0@, s.last().1.pid)
    }
}

proof fn lemma_map_of_contains(s: Seq<(String, ProcessEntry)>, k: Seq<char>)
    ensures
        map_of(s).contains_key(k) <==> has_key(s, k),
    decreases s.len(),
{
    if s.len() > 0 {
        lemma_map_of_contains(s.drop_last(), k);
        if has_key(s.drop_last(), k) {
            let i = choose|i: int| 0 <= i < s.drop_last().len() && s.drop_last()[i].0@ == k;
            assert(s[i].0@ == k);
        }
        if has_key(s, k) && s.last().0@ != k {
            let i = choose|i: int| 0 <= i < s.len() && s[i].0@ == k;
            assert(s.drop_last()[i].0@ == k);
        }
    }
}

proof fn lemma_map_of_index(s: Seq<(String, ProcessEntry)>, i: int)
    requires
        unique_keys(s),
        0 <= i < s.len(),
    ensures
        map_of(s).contains_key(s[i].0@),
        map_of(s)[s[i].0@] == s[i].1.pid,
    decreases s.len(),
{
    if i < s.len() - 1 {
        assert(s.drop_last()[i] == s[i]);
        lemma_map_of_index(s.drop_last(), i);
    }
}

proof fn lemma_map_of_push(s: Seq<(String, ProcessEntry)>, x: (String, ProcessEntry))
    ensures
        map_of(s.push(x)) == map_of(s).insert(x.0@, x.1.pid),
{
    assert(s.push(x).drop_last() =~= s);
}

proof fn lemma_map_of_remove(s: Seq<(String, ProcessEntry)>, i: int)
    requires
        unique_keys(s),
        0 <= i < s.len(),
    ensures
        map_of(s.remove(i)) == map_of(s).remove(s[i].0@),
    decreases s.len(),
{
    if i == s.len() - 1 {
        assert(s.remove(i) =~= s.drop_last());
        lemma_map_of_contains(s.drop_last(), s[i].0@);
        assert(map_of(s.drop_last()) =~= map_of(s).remove(s[i].0@));
    } else {
        let t = s.remove(i);
        assert(t.drop_last() =~= s.drop_last().remove(i));
        assert(t.last() == s.last());
        lemma_map_of_remove(s.drop_last(), i);
        assert(map_of(s.drop_last()).remove(s[i].0@).insert(s.last().0@, s.last().1.pid)
            =~= map_of(s).remove(s[i].0@));
    }
}

proof fn lemma_unique_remove(s: Seq<(String, ProcessEntry)>, i: int)
    requires
        unique_keys(s),
        0 <= i < s.len(),
    ensures
        unique_keys(s.remove(i)),
        !has_key(s.remove(i), s[i].0@),
{
    let t = s.remove(i);
    assert forall|a: int, b: int| 0 <= a < b < t.len() implies t[a].0@ != t[b].0@ by {
        assert(t[a] == if a < i { s[a] } else { s[a + 1] });
        assert(t[b] == if b < i { s[b] } else { s[b + 1] });
    }
    assert forall|a: int| 0 <= a < t.len() implies t[a].0@ != s[i].0@ by {
        assert(t[a] == if a < i { s[a] } else { s[a + 1] });
    }
}

proof fn lemma_map_of_dom(s: Seq<(String, ProcessEntry)>)
    requires
        unique_keys(s),
    ensures
        map_of(s).dom().len() == s.len(),
        map_of(s).dom() == s.map_values(|e: (String, ProcessEntry)| e.0@).to_set(),
    decreases s.len(),
{
    let ks = s.map_values(|e: (String, ProcessEntry)| e.0@);
    if s.len() == 0 {
        assert(map_of(s).dom() =~= ks.to_set());
    } else {
        lemma_map_of_dom(s.drop_last());
        lemma_map_of_contains(s.drop_last(), s.last().0@);
        assert(!has_key(s.drop_last(), s.last().0@)) by {
            if has_key(s.drop_last(), s.last().0@) {
                let i = choose|i: int|
                    0 <= i < s.drop_last().len() && s.drop_last()[i].0@ == s.last().0@;
                assert(s[i].0@ == s[s.len() - 1].0@);
            }
        }
        assert(s.drop_last().map_values(|e: (String, ProcessEntry)| e.0@) =~= ks.drop_last());
        assert(map_of(s).dom() =~= map_of(s.drop_last()).dom().insert(s.last().0@));
        assert(ks.to_set() =~= ks.drop_last().to_set().insert(ks.last())) by {
            assert forall|k: Seq<char>| #[trigger] ks.to_set().contains(k) implies
                ks.drop_last().to_set().contains(k) || k == ks.last() by {
                let i = choose|i: int| 0 <= i < ks.len() && ks[i] == k;
                if i < ks.len() - 1 {
                    assert(ks.drop_last()[i] == k);
                }
            }
            assert forall|k: Seq<char>| ks.drop_last().to_set().contains(k) implies
                #[trigger] ks.to_set().contains(k) by {
                let i = choose|i: int| 0 <= i < ks.drop_last().len() && ks.drop_last()[i] == k;
                assert(ks[i] == k);
            }
        }
    }
}

impl View for ProcessRegistry {
    type V = Map<Seq<char>, u32>;

    closed spec fn view(&self) -> Map<Seq<char>, u32> {
        map_of(self.entries@)
    }
}

impl ProcessRegistry {
    /// Well-formedness: no two entries share a session identifier.
    /// `new` establishes it and every method preserves it.
    pub closed spec fn wf(&self) -> bool {
        unique_keys(self.entries@)
    }

    /// The keys of the registered entries, in insertion order.
    pub closed spec fn spec_keys(&self) -> Seq<Seq<char>> {
        self.entries@.map_values(|e: (String, ProcessEntry)| e.0@)
    }

    /// The process ids of the registered entries, in insertion order.
    pub closed spec fn spec_pids(&self) -> Seq<u32> {
        self.entries@.map_values(|e: (String, ProcessEntry)| e.1.pid)
    }

    /// An empty registry.
    pub fn new() -> (r: ProcessRegistry)
        ensures
            r.wf(),
            r@ == Map::<Seq<char>, u32>::empty(),
    {
        let r = ProcessRegistry { entries: Vec::new() };
        proof {
            assert(r@ =~= Map::<Seq<char>, u32>::empty());
        }
        r
    }

    fn position_of(&self, id: &String) -> (r: Option<usize>)
        ensures
            match r {
                Some(i) => i < self.entries@.len() && self.entries@[i as int].0@ == id@,
                None => !has_key(self.entries@, id@),
            },
    {
        let mut i: usize = 0;
        while i < self.entries.len()
            invariant
                i <= self.entries@.len(),
                forall|j: int| 0 <= j < i ==> self.entries@[j].0@ != id@,
            decreases self.entries@.len() - i,
        {
            if string_eq(&self.entries[i].0, id) {
                return Some(i);
            }
            i += 1;
        }
        None
    }

    /// Inserts unconditionally, overwriting any stale entry for `id`.
    pub fn register(&mut self, id: &String, pid: u32)
        requires
            old(self).wf(),
        ensures
            final(self).wf(),
            final(self)@ == old(self)@.insert(id@, pid),
    {
        let ghost m0 = self@;
        match self.position_of(id) {
            Some(i) => {
                let ghost s = self.entries@;
                proof {
                    lemma_unique_remove(s, i as int);
                    lemma_map_of_remove(s, i as int);
                }
                self.entries.remove(i);
            }
            None => {}
        }
        let ghost s1 = self.entries@;
        let ghost x = (*id, ProcessEntry { pid });
        proof {
            lemma_map_of_push(s1, x);
            assert(!has_key(s1, id@));
            assert forall|a: int, b: int| 0 <= a < b < s1.push(x).len() implies s1.push(
                x,
            )[a].0@ != s1.push(x)[b].0@ by {
                if b < s1.len() {
                } else {
                    assert(s1.push(x)[a] == s1[a]);
                    assert(s1[a].0@ != id@);
                }
            }
        }
        self.entries.push((id.clone(), ProcessEntry { pid }));
        proof {
            assert(self.entries@ == s1.push(x));
            assert(self@ =~= m0.insert(id@, pid));
        }
    }

    /// Idempotent removal: no error, and no change, if `id` is absent.
    pub fn unregister(&mut self, id: &String)
        requires
            old(self).wf(),
        ensures
            final(self).wf(),
            final(self)@ == old(self)@.remove(id@),
    {
        match self.position_of(id) {
            Some(i) => {
                proof {
                    lemma_unique_remove(self.entries@, i as int);
                    lemma_map_of_remove(self.entries@, i as int);
                }
                self.entries.remove(i);
            }
            None => {
                proof {
                    lemma_map_of_contains(self.entries@, id@);
                    assert(self@ =~= self@.remove(id@));
                }
            }
        }
    }

    /// The process id registered for `id`, if any.
    pub fn get_pid(&self, id: &String) -> (r: Option<u32>)
        requires
            self.wf(),
        ensures
            r == if self@.contains_key(id@) {
                Some(self@[id@])
            } else {
                None::<u32>
            },
    {
        match self.position_of(id) {
            Some(i) => {
                proof {
                    lemma_map_of_index(self.entries@, i as int);
                }
                Some(self.entries[i].1.pid)
            }
            None => {
                proof {
                    lemma_map_of_contains(self.entries@, id@);
                }
                None
            }
        }
    }

    /// Removes the entry for `id` and hands back the process id that the
    /// caller must signal for termination. A session with no registered
    /// process is reported as an error and nothing is signaled.
    pub fn stop(&mut self, id: &String) -> (r: Result<u32, String>)
        requires
            old(self).wf(),
        ensures
            final(self).wf(),
            old(self)@.contains_key(id@) ==> (r matches Ok(pid) && pid == old(self)@[id@]
                && final(self)@ == old(self)@.remove(id@)),
            !old(self)@.contains_key(id@) ==> (r matches Err(m)
                && m@ == "No hay proceso activo para esa sesion"@) && *final(self) == *old(self),
    {
        match self.position_of(id) {
            Some(i) => {
                proof {
                    lemma_map_of_index(self.entries@, i as int);
                    lemma_unique_remove(self.entries@, i as int);
                    lemma_map_of_remove(self.entries@, i as int);
                }
                let pid = self.entries[i].1.pid;
                self.entries.remove(i);
                Ok(pid)
            }
            None => {
                proof {
                    lemma_map_of_contains(self.entries@, id@);
                }
                Err("No hay proceso activo para esa sesion".to_owned())
            }
        }
    }

    /// Drains the whole table and hands back every held process id,
    /// each exactly once, for the caller to signal; used at full shutdown.
    pub fn stop_all(&mut self) -> (pids: Vec<u32>)
        requires
            old(self).wf(),
        ensures
            final(self).wf(),
            final(self)@ == Map::<Seq<char>, u32>::empty(),
            pids@ == old(self).spec_pids(),
            old(self).spec_keys().no_duplicates(),
            old(self).spec_keys().len() == pids@.len(),
            old(self).spec_keys().to_set() == old(self)@.dom(),
            old(self)@.dom().len() == pids@.len(),
            forall|i: int| 0 <= i < pids@.len() ==> old(self)@.contains_key(
                #[trigger] old(self).spec_keys()[i],
            ) && old(self)@[old(self).spec_keys()[i]] == pids@[i],
    {
        proof {
            lemma_map_of_dom(self.entries@);
            assert forall|i: int| 0 <= i < self.entries@.len() implies self@.contains_key(
                #[trigger] self.spec_keys()[i],
            ) && self@[self.spec_keys()[i]] == self.spec_pids()[i] by {
                lemma_map_of_index(self.entries@, i);
            }
        }
        let mut pids: Vec<u32> = Vec::new();
        let mut i: usize = 0;
        while i < self.entries.len()
            invariant
                i <= self.entries@.len(),
                pids@.len() == i,
                forall|j: int| 0 <= j < i ==> pids@[j] == self.entries@[j].1.pid,
                self@ == old(self)@,
                self.entries@ == old(self).entries@,
            decreases self.entries@.len() - i,
        {
            pids.push(self.entries[i].1.pid);
            i += 1;
        }
        self.entries = Vec::new();
        proof {
            assert(pids@ =~= old(self).spec_pids());
            assert(self@ =~= Map::<Seq<char>, u32>::empty());
        }
        pids
    }
}

/// Law: registering a session and then immediately unregistering it
/// leaves no trace of the session; from an empty registry the result is
/// empty again. Stated over the registry view that `register` and
/// `unregister` ensure.
pub proof fn lemma_register_then_unregister(m: Map<Seq<char>, u32>, id: Seq<char>, pid: u32)
    ensures
        m.insert(id, pid).remove(id) == m.remove(id),
        m == Map::<Seq<char>, u32>::empty() ==> m.insert(id, pid).remove(id)
            == Map::<Seq<char>, u32>::empty(),
{
    assert(m.insert(id, pid).remove(id) =~= m.remove(id));
    if m == Map::<Seq<char>, u32>::empty() {
        assert(m.remove(id) =~= Map::<Seq<char>, u32>::empty());
    }
}

} // verus!
