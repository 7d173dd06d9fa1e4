//! The running instances of the emulator: which QEMU process serves which
//! instance name.
use vstd::prelude::*;
use vstd::string::*;

verus! {

/// The map that a list of (name, process id) entries describes, later
/// entries over earlier ones.
pub open spec fn map_of(entries: Seq<(Seq<char>, u32)>) -> Map<Seq<char>, u32>
    decreases entries.len(),
{
    if entries.len() == 0 {
        Map::empty()
    } else {
        map_of(entries.drop_last()).insert(entries.last().0, entries.last().1)
    }
}

pub open spec fn names_unique(entries: Seq<(Seq<char>, u32)>) -> bool {
    forall|i: int, j: int| 0 <= i < j < entries.len() ==> entries[i].0 != entries[j].0
}

proof fn lemma_map_of_absent(entries: Seq<(Seq<char>, u32)>, name: Seq<char>)
    requires
        forall|i: int| 0 <= i < entries.len() ==> entries[i].0 != name,
    ensures
        !map_of(entries).contains_key(name),
    decreases entries.len(),
{
    if entries.len() > 0 {
        lemma_map_of_absent(entries.drop_last(), name);
        assert(entries.last().0 != name);
    }
}

proof fn lemma_map_of_at(entries: Seq<(Seq<char>, u32)>, i: int)
    requires
        names_unique(entries),
        0 <= i < entries.len(),
    ensures
        map_of(entries).contains_key(entries[i].0),
        map_of(entries)[entries[i].0] == entries[i].1,
    decreases entries.len(),
{
    if i < entries.len() - 1 {
        lemma_map_of_at(entries.drop_last(), i);
        assert(entries.drop_last()[i] == entries[i]);
    }
}

proof fn lemma_map_of_remove(entries: Seq<(Seq<char>, u32)>, i: int)
    requires
        names_unique(entries),
        0 <= i < entries.len(),
    ensures
        map_of(entries.remove(i)) == map_of(entries).remove(entries[i].0),
    decreases entries.len(),
{
    let name = entries[i].0;
    if i == entries.len() - 1 {
        assert(entries.remove(i) =~= entries.drop_last());
        assert forall|j: int| 0 <= j < entries.drop_last().len() implies entries.drop_last()[j].0
            != name by {
            assert(entries.drop_last()[j] == entries[j]);
        }
        lemma_map_of_absent(entries.drop_last(), name);
        assert(map_of(entries.remove(i)) =~= map_of(entries).remove(name));
    } else {
        let short = entries.drop_last();
        lemma_map_of_remove(short, i);
        assert(entries.remove(i).drop_last() =~= short.remove(i));
        assert(entries.remove(i).last() == entries.last());
        assert(short[i] == entries[i]);
        assert(entries.last().0 != name);
        assert(map_of(entries.remove(i)) =~= map_of(entries).remove(name));
    }
}

proof fn lemma_map_of_update(entries: Seq<(Seq<char>, u32)>, i: int, pid: u32)
    requires
        names_unique(entries),
        0 <= i < entries.len(),
    ensures
        map_of(entries.update(i, (entries[i].0, pid))) == map_of(entries).insert(entries[i].0, pid),
    decreases entries.len(),
{
    let name = entries[i].0;
    let updated = entries.update(i, (name, pid));
    if i == entries.len() - 1 {
        assert(updated.drop_last() =~= entries.drop_last());
        assert(map_of(updated) =~= map_of(entries).insert(name, pid));
    } else {
        let short = entries.drop_last();
        lemma_map_of_update(short, i, pid);
        assert(updated.drop_last() =~= short.update(i, (name, pid)));
        assert(short[i] == entries[i]);
        assert(entries.last().0 != name);
        assert(map_of(updated) =~= map_of(entries).insert(name, pid));
    }
}

/// The entries of a list, with each name as its text.
pub open spec fn texts_of(entries: Seq<(String, u32)>) -> Seq<(Seq<char>, u32)> {
    entries.map_values(|e: (String, u32)| (e.0@, e.1))
}

/// What taking `name` out of the register `processes` returns.
pub open spec fn lookup(processes: Map<Seq<char>, u32>, name: Seq<char>) -> Option<u32> {
    if processes.contains_key(name) {
        Some(processes[name])
    } else {
        None
    }
}

/// The QEMU processes started for instances, by instance name.
///
/// The entries are a list that holds each name once, read as a map by
/// `map_of`. A `HashMap<String, u32>` is not kept: vstd's `HashMap`
/// specifications hold only for key types that satisfy `obeys_key_model`,
/// which vstd establishes for primitive keys but not for `String`, so
/// nothing about which process `take` returns could be proved of one.
pub struct InstanceRegistry {
    entries: Vec<(String, u32)>,
}

impl InstanceRegistry {
    /// The (name, process id) entries, as texts.
    pub closed spec fn entry_view(&self) -> Seq<(Seq<char>, u32)> {
        texts_of(self.entries@)
    }

    #[verifier::type_invariant]
    closed spec fn each_name_once(&self) -> bool {
        names_unique(self.entry_view())
    }

    /// The process id of each running instance, by name.
    pub closed spec fn processes(&self) -> Map<Seq<char>, u32> {
        map_of(self.entry_view())
    }

    /// An empty register.
    pub fn new() -> (res: InstanceRegistry)
        ensures
            res.processes() == Map::<Seq<char>, u32>::empty(),
    {
        let res = InstanceRegistry { entries: Vec::new() };
        assert(res.entry_view() =~= Seq::<(Seq<char>, u32)>::empty());
        res
    }

    fn position(&self, name: &String) -> (res: Option<usize>)
        ensures
            match res {
                Some(i) => i < self.entry_view().len() && self.entry_view()[i as int].0 == name@,
                None => forall|j: int|
                    0 <= j < self.entry_view().len() ==> self.entry_view()[j].0 != name@,
            },
    {
        let mut i: usize = 0;
        while i < self.entries.len()
            invariant
                i <= self.entries@.len(),
                self.entry_view().len() == self.entries@.len(),
                forall|j: int| 0 <= j < i ==> self.entry_view()[j].0 != name@,
            decreases self.entries@.len() - i,
        {
            if self.entries[i].0 == *name {
                return Some(i);
            }
            i = i + 1;
        }
        None
    }

    /// Removes the instance `name` from the register and returns the process
    /// that served it, if any (`HashMap::remove`).
    pub fn take(&mut self, name: &str) -> (res: Option<u32>)
        ensures
            res == lookup(old(self).processes(), name@),
            final(self).processes() == old(self).processes().remove(name@),
    {
        proof {
            use_type_invariant(&*self);
        }
        let key = String::from_str(name);
        match self.position(&key) {
            None => {
                proof {
                    lemma_map_of_absent(self.entry_view(), name@);
                    assert(self.processes().remove(name@) =~= self.processes());
                }
                None
            },
            Some(i) => {
                let ghost before = self.entry_view();
                proof {
                    lemma_map_of_at(before, i as int);
                    lemma_map_of_remove(before, i as int);
                }
                let mut entries: Vec<(String, u32)> = Vec::new();
                std::mem::swap(&mut entries, &mut self.entries);
                let (_, pid) = entries.remove(i);
                assert(texts_of(entries@) =~= before.remove(i as int));
                assert forall|a: int, b: int| 0 <= a < b < texts_of(entries@).len() implies
                    texts_of(entries@)[a].0 != texts_of(entries@)[b].0 by {
                    let a2 = if a < i { a } else { a + 1 };
                    let b2 = if b < i { b } else { b + 1 };
                    assert(texts_of(entries@)[a] == before[a2]);
                    assert(texts_of(entries@)[b] == before[b2]);
                }
                self.entries = entries;
                assert(self.entry_view() =~= before.remove(i as int));
                Some(pid)
            },
        }
    }

    /// Records that the process `pid` serves the instance `name`, in place
    /// of any earlier one (`HashMap::insert`).
    pub fn record(&mut self, name: String, pid: u32)
        ensures
            final(self).processes() == old(self).processes().insert(name@, pid),
    {
        proof {
            use_type_invariant(&*self);
        }
        let ghost before = self.entry_view();
        let ghost key = name@;
        match self.position(&name) {
            None => {
                let mut entries: Vec<(String, u32)> = Vec::new();
                std::mem::swap(&mut entries, &mut self.entries);
                entries.push((name, pid));
                assert(texts_of(entries@) =~= before.push((key, pid)));
                assert forall|a: int, b: int| 0 <= a < b < texts_of(entries@).len() implies
                    texts_of(entries@)[a].0 != texts_of(entries@)[b].0 by {
                    assert(texts_of(entries@)[a] == before[a]);
                    if b < before.len() {
                        assert(texts_of(entries@)[b] == before[b]);
                    }
                }
                self.entries = entries;
                assert(self.entry_view() =~= before.push((key, pid)));
                assert(self.entry_view().drop_last() =~= before);
            },
            Some(i) => {
                proof {
                    lemma_map_of_update(before, i as int, pid);
                }
                let mut entries: Vec<(String, u32)> = Vec::new();
                std::mem::swap(&mut entries, &mut self.entries);
                entries.set(i, (name, pid));
                assert(texts_of(entries@) =~= before.update(i as int, (key, pid)));
                assert forall|a: int, b: int| 0 <= a < b < texts_of(entries@).len() implies
                    texts_of(entries@)[a].0 != texts_of(entries@)[b].0 by {
                    assert(texts_of(entries@)[a].0 == before[a].0);
                    assert(texts_of(entries@)[b].0 == before[b].0);
                }
                self.entries = entries;
                assert(self.entry_view() =~= before.update(i as int, (key, pid)));
            },
        }
    }
}

/// A register gives back what was recorded last: after `record(name, pid)`,
/// `take(name)` returns `pid`; once taken, the name is gone; and recording
/// or taking one name leaves every other name as it was.
pub proof fn lemma_record_then_take(
    processes: Map<Seq<char>, u32>,
    name: Seq<char>,
    other: Seq<char>,
    pid: u32,
)
    ensures
        lookup(processes.insert(name, pid), name) == Some(pid),
        lookup(processes.remove(name), name) is None,
        other != name ==> lookup(processes.insert(name, pid), other) == lookup(processes, other),
        other != name ==> lookup(processes.remove(name), other) == lookup(processes, other),
{
}

} // verus!
