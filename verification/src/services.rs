//! What it takes to launch one Node service, the table of running services
//! kept by name, and the decisions taken when a service is started.

use vstd::prelude::*;
use vstd::string::*;

verus! {

/// Everything needed to launch one Node service.
#[derive(Clone)]
pub struct ServiceSpec {
    /// Logical service name.
    pub name: String,
    /// Path of the `node` runtime.
    pub node: String,
    /// Entry script, e.g. `dist/server.js` under the service directory.
    pub entry: String,
    /// Working directory (the service's own package root).
    pub cwd: String,
    /// Environment handed to the service.
    pub env: Vec<(String, String)>,
    /// Where stdout and stderr go (truncated on each start).
    pub log: String,
    /// Bound port.
    pub port: u16,
}

/// An environment entry as text.
pub open spec fn pair_view(p: (String, String)) -> (Seq<char>, Seq<char>) {
    (p.0@, p.1@)
}

/// An environment as text.
pub open spec fn env_view(env: Seq<(String, String)>) -> Seq<(Seq<char>, Seq<char>)> {
    env.map_values(|p: (String, String)| pair_view(p))
}

/// Running services by name: each name at most once.
pub struct ServiceTable<C> {
    entries: Vec<(String, C)>,
}

/// Some entry carries the name `k`.
pub open spec fn names_contain<C>(entries: Seq<(String, C)>, k: Seq<char>) -> bool {
    exists|i: int| 0 <= i < entries.len() && #[trigger] entries[i].0@ == k
}

/// No name occurs twice.
pub open spec fn names_distinct<C>(entries: Seq<(String, C)>) -> bool {
    forall|i: int, j: int|
        0 <= i < entries.len() && 0 <= j < entries.len() && i != j ==> #[trigger] entries[i].0@
            != #[trigger] entries[j].0@
}

/// The map from names to handles that the entries spell out.
pub open spec fn entries_map<C>(entries: Seq<(String, C)>) -> Map<Seq<char>, C> {
    Map::new(
        |k: Seq<char>| names_contain(entries, k),
        |k: Seq<char>|
            entries[choose|i: int| 0 <= i < entries.len() && #[trigger] entries[i].0@ == k].1,
    )
}

/// With distinct names, the entry at `j` is what the map holds for its name.
proof fn lemma_entry_in_map<C>(entries: Seq<(String, C)>, j: int)
    requires
        names_distinct(entries),
        0 <= j < entries.len(),
    ensures
        entries_map(entries).contains_key(entries[j].0@),
        entries_map(entries)[entries[j].0@] == entries[j].1,
{
    let k = entries[j].0@;
    assert(names_contain(entries, k));
    let i: int = choose|i: int| 0 <= i < entries.len() && #[trigger] entries[i].0@ == k;
    assert(i == j);
}

impl<C> View for ServiceTable<C> {
    type V = Map<Seq<char>, C>;

    closed spec fn view(&self) -> Map<Seq<char>, C> {
        entries_map(self.entries@)
    }
}

impl<C> ServiceTable<C> {
    #[verifier::type_invariant]
    closed spec fn distinct(self) -> bool {
        names_distinct(self.entries@)
    }

    /// An empty table.
    pub fn new() -> (r: Self)
        ensures
            r@ == Map::<Seq<char>, C>::empty(),
    {
        let r = ServiceTable { entries: Vec::new() };
        assert(r@ =~= Map::<Seq<char>, C>::empty());
        r
    }

    fn find(entries: &Vec<(String, C)>, name: &str) -> (r: Option<usize>)
        ensures
            match r {
                Some(i) => i < entries.len() && entries@[i as int].0@ == name@,
                None => !names_contain(entries@, name@),
            },
    {
        let mut i: usize = 0;
        while i < entries.len()
            invariant
                i <= entries.len(),
                forall|j: int| 0 <= j < i ==> #[trigger] entries@[j].0@ != name@,
            decreases entries.len() - i,
        {
            if crate::text::same_text(entries[i].0.as_str(), name) {
                return Some(i);
            }
            i = i + 1;
        }
        None
    }

    /// Whether a service of that name is in the table.
    pub fn contains(&self, name: &str) -> (r: bool)
        ensures
            r == self@.contains_key(name@),
    {
        Self::find(&self.entries, name).is_some()
    }

    /// Takes the handle kept under `name` out of the table.
    pub fn remove(&mut self, name: &str) -> (r: Option<C>)
        ensures
            match r {
                Some(c) => old(self)@.contains_key(name@) && old(self)@[name@] == c,
                None => !old(self)@.contains_key(name@),
            },
            final(self)@ == old(self)@.remove(name@),
    {
        proof {
            use_type_invariant(&*self);
        }
        let mut entries: Vec<(String, C)> = Vec::new();
        std::mem::swap(&mut entries, &mut self.entries);
        let ghost old_entries = entries@;
        match Self::find(&entries, name) {
            None => {
                self.entries = entries;
                assert(self@ =~= old(self)@.remove(name@));
                None
            },
            Some(i) => {
                proof {
                    lemma_entry_in_map(old_entries, i as int);
                }
                let (_, c) = entries.swap_remove(i);
                let ghost new_entries = entries@;
                assert(names_distinct(new_entries)) by {
                    assert forall|a: int, b: int|
                        0 <= a < new_entries.len() && 0 <= b < new_entries.len() && a != b implies #[trigger] new_entries[a].0@
                            != #[trigger] new_entries[b].0@ by {
                        let oa: int = if a == i { old_entries.len() - 1 } else { a };
                        let ob: int = if b == i { old_entries.len() - 1 } else { b };
                        assert(new_entries[a] == old_entries[oa]);
                        assert(new_entries[b] == old_entries[ob]);
                    }
                }
                self.entries = entries;
                assert(self@ =~= old(self)@.remove(name@)) by {
                    assert forall|k: Seq<char>| #[trigger] names_contain(new_entries, k) <==> (
                    names_contain(old_entries, k) && k != name@) by {
                        if names_contain(new_entries, k) {
                            let a: int = choose|a: int|
                                0 <= a < new_entries.len() && #[trigger] new_entries[a].0@ == k;
                            let oa: int = if a == i { old_entries.len() - 1 } else { a };
                            assert(new_entries[a] == old_entries[oa]);
                            assert(oa != i);
                        }
                        if names_contain(old_entries, k) && k != name@ {
                            let a: int = choose|a: int|
                                0 <= a < old_entries.len() && #[trigger] old_entries[a].0@ == k;
                            assert(a != i);
                            if a == old_entries.len() - 1 {
                                assert(new_entries[i as int] == old_entries[a]);
                            } else {
                                assert(new_entries[a] == old_entries[a]);
                            }
                        }
                    }
                    assert forall|k: Seq<char>| #[trigger] names_contain(new_entries, k) implies entries_map(
                        new_entries,
                    )[k] == entries_map(old_entries)[k] by {
                        let a: int = choose|a: int|
                            0 <= a < new_entries.len() && #[trigger] new_entries[a].0@ == k;
                        let oa: int = if a == i { old_entries.len() - 1 } else { a };
                        assert(new_entries[a] == old_entries[oa]);
                        lemma_entry_in_map(new_entries, a);
                        lemma_entry_in_map(old_entries, oa);
                    }
                }
                Some(c)
            },
        }
    }

    /// Keeps `c` under `name`, replacing what was kept there.
    pub fn insert(&mut self, name: String, c: C)
        ensures
            final(self)@ == old(self)@.insert(name@, c),
    {
        proof {
            use_type_invariant(&*self);
        }
        let mut entries: Vec<(String, C)> = Vec::new();
        std::mem::swap(&mut entries, &mut self.entries);
        let ghost old_entries = entries@;
        let ghost k0 = name@;
        match Self::find(&entries, name.as_str()) {
            Some(i) => {
                entries.set(i, (name, c));
                let ghost new_entries = entries@;
                assert(names_distinct(new_entries)) by {
                    assert forall|a: int, b: int|
                        0 <= a < new_entries.len() && 0 <= b < new_entries.len() && a != b implies #[trigger] new_entries[a].0@
                            != #[trigger] new_entries[b].0@ by {
                        assert(old_entries[i as int].0@ == k0);
                    }
                }
                self.entries = entries;
                assert(self@ =~= old(self)@.insert(k0, c)) by {
                    assert forall|k: Seq<char>| #[trigger] names_contain(new_entries, k) <==> (
                    names_contain(old_entries, k) || k == k0) by {
                        if names_contain(new_entries, k) {
                            let a: int = choose|a: int|
                                0 <= a < new_entries.len() && #[trigger] new_entries[a].0@ == k;
                            if a != i {
                                assert(old_entries[a].0@ == k);
                            }
                        }
                        if names_contain(old_entries, k) {
                            let a: int = choose|a: int|
                                0 <= a < old_entries.len() && #[trigger] old_entries[a].0@ == k;
                            if a != i {
                                assert(new_entries[a].0@ == k);
                            } else {
                                assert(new_entries[a].0@ == k0);
                            }
                        }
                        if k == k0 {
                            assert(new_entries[i as int].0@ == k0);
                        }
                    }
                    assert forall|k: Seq<char>| #[trigger] names_contain(new_entries, k) implies entries_map(
                        new_entries,
                    )[k] == old(self)@.insert(k0, c)[k] by {
                        let a: int = choose|a: int|
                            0 <= a < new_entries.len() && #[trigger] new_entries[a].0@ == k;
                        lemma_entry_in_map(new_entries, a);
                        if a != i {
                            lemma_entry_in_map(old_entries, a);
                        }
                    }
                }
            },
            None => {
                entries.push((name, c));
                let ghost new_entries = entries@;
                let ghost last = new_entries.len() - 1;
                assert(names_distinct(new_entries)) by {
                    assert forall|a: int, b: int|
                        0 <= a < new_entries.len() && 0 <= b < new_entries.len() && a != b implies #[trigger] new_entries[a].0@
                            != #[trigger] new_entries[b].0@ by {
                        if a < last && b < last {
                            assert(new_entries[a] == old_entries[a]);
                            assert(new_entries[b] == old_entries[b]);
                        } else if a < last {
                            assert(new_entries[a] == old_entries[a]);
                        } else {
                            assert(new_entries[b] == old_entries[b]);
                        }
                    }
                }
                self.entries = entries;
                assert(self@ =~= old(self)@.insert(k0, c)) by {
                    assert forall|k: Seq<char>| #[trigger] names_contain(new_entries, k) <==> (
                    names_contain(old_entries, k) || k == k0) by {
                        if names_contain(new_entries, k) {
                            let a: int = choose|a: int|
                                0 <= a < new_entries.len() && #[trigger] new_entries[a].0@ == k;
                            if a < last {
                                assert(old_entries[a] == new_entries[a]);
                            }
                        }
                        if names_contain(old_entries, k) {
                            let a: int = choose|a: int|
                                0 <= a < old_entries.len() && #[trigger] old_entries[a].0@ == k;
                            assert(new_entries[a] == old_entries[a]);
                        }
                        if k == k0 {
                            assert(new_entries[last].0@ == k0);
                        }
                    }
                    assert forall|k: Seq<char>| #[trigger] names_contain(new_entries, k) implies entries_map(
                        new_entries,
                    )[k] == old(self)@.insert(k0, c)[k] by {
                        let a: int = choose|a: int|
                            0 <= a < new_entries.len() && #[trigger] new_entries[a].0@ == k;
                        lemma_entry_in_map(new_entries, a);
                        if a < last {
                            assert(new_entries[a] == old_entries[a]);
                            lemma_entry_in_map(old_entries, a);
                        }
                    }
                }
            },
        }
    }

    /// Empties the table, handing out every name with its handle.
    pub fn drain(&mut self) -> (r: Vec<(String, C)>)
        ensures
            final(self)@ == Map::<Seq<char>, C>::empty(),
            names_distinct(r@),
            entries_map(r@) == old(self)@,
    {
        proof {
            use_type_invariant(&*self);
        }
        let mut entries: Vec<(String, C)> = Vec::new();
        std::mem::swap(&mut entries, &mut self.entries);
        assert(self@ =~= Map::<Seq<char>, C>::empty());
        entries
    }
}

/// What starting a service comes to, given whether it is already running and
/// whether its runtime and entry script exist.
pub enum StartStep {
    /// It is running: nothing to do.
    AlreadyRunning,
    /// A file it needs is missing: report this error.
    Missing(String),
    /// Open its log and spawn it.
    Launch,
}

/// The error for a missing runtime.
pub open spec fn node_missing_message(node: Seq<char>) -> Seq<char> {
    "node runtime not found at "@ + node
}

/// The error for a missing entry script.
pub open spec fn entry_missing_message(entry: Seq<char>) -> Seq<char> {
    "service entry not found at "@ + entry
}

/// Starting a service that is already running does nothing; otherwise a
/// missing runtime, then a missing entry script, is reported as an error
/// rather than a panic; otherwise the service is launched.
pub fn start_step(running: bool, node_exists: bool, entry_exists: bool, spec: &ServiceSpec) -> (r:
    StartStep)
    ensures
        running ==> r is AlreadyRunning,
        !running && !node_exists ==> (r matches StartStep::Missing(m) && m@ == node_missing_message(
            spec.node@,
        )),
        !running && node_exists && !entry_exists ==> (r matches StartStep::Missing(m) && m@
            == entry_missing_message(spec.entry@)),
        !running && node_exists && entry_exists ==> r is Launch,
{
    if running {
        StartStep::AlreadyRunning
    } else if !node_exists {
        let mut m = String::from_str("node runtime not found at ");
        m.append(spec.node.as_str());
        StartStep::Missing(m)
    } else if !entry_exists {
        let mut m = String::from_str("service entry not found at ");
        m.append(spec.entry.as_str());
        StartStep::Missing(m)
    } else {
        StartStep::Launch
    }
}

impl<C> ServiceTable<C> {
    /// Decides a start after the service's handle was taken out of the
    /// table (`child`, with `running` telling whether it still runs): a
    /// running service keeps its handle under its name and is not
    /// launched again; an exited one is let go, and then a missing runtime
    /// or entry script is an error, else it is launched.
    pub fn settle_start(
        &mut self,
        spec: &ServiceSpec,
        child: Option<C>,
        running: bool,
        node_exists: bool,
        entry_exists: bool,
    ) -> (r: StartStep)
        ensures
            (child is Some && running) ==> (r is AlreadyRunning && final(self)@ == old(self)@.insert(
                spec.name@,
                child->0,
            )),
            !(child is Some && running) ==> final(self)@ == old(self)@,
            !(child is Some && running) && !node_exists ==> (r matches StartStep::Missing(m) && m@
                == node_missing_message(spec.node@)),
            !(child is Some && running) && node_exists && !entry_exists ==> (r matches StartStep::Missing(m)
                && m@ == entry_missing_message(spec.entry@)),
            !(child is Some && running) && node_exists && entry_exists ==> r is Launch,
    {
        match child {
            Some(c) => {
                if running {
                    self.insert(spec.name.clone(), c);
                    return StartStep::AlreadyRunning;
                }
            },
            None => {},
        }
        start_step(false, node_exists, entry_exists, spec)
    }
}

/// The error for a failed spawn: `failed to spawn <name>: <reason>`.
pub fn spawn_error(name: &str, reason: &str) -> (r: String)
    ensures
        r@ == "failed to spawn "@ + name@ + ": "@ + reason@,
{
    let mut m = String::from_str("failed to spawn ");
    m.append(name);
    m.append(": ");
    m.append(reason);
    m
}

} // verus!
