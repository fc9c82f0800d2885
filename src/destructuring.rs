use vstd::prelude::*;

use crate::records::names_set;
use crate::text::copy_string;

verus! {

#[derive(Debug)]
struct Slot {
    name: String,
    props: Option<Vec<String>>,
}

spec fn slot_step(m: Map<Seq<char>, Set<Seq<char>>>, s: Slot) -> Map<Seq<char>, Set<Seq<char>>> {
    match s.props {
        Some(v) => m.insert(s.name@, names_set(v@)),
        None => m.remove(s.name@),
    }
}

spec fn slots_map(s: Seq<Slot>) -> Map<Seq<char>, Set<Seq<char>>>
    decreases s.len(),
{
    if s.len() == 0 {
        Map::empty()
    } else {
        slot_step(slots_map(s.drop_last()), s.last())
    }
}

proof fn lemma_slots_absent(s: Seq<Slot>, k: Seq<char>)
    requires
        forall|j: int| 0 <= j < s.len() ==> (#[trigger] s[j]).name@ != k,
    ensures
        !slots_map(s).contains_key(k),
    decreases s.len(),
{
    if s.len() > 0 {
        assert forall|j: int| 0 <= j < s.drop_last().len() implies (#[trigger] s.drop_last()[j]).name@ != k by {
            assert(s.drop_last()[j] == s[j]);
        }
        lemma_slots_absent(s.drop_last(), k);
    }
}

proof fn lemma_slots_last(s: Seq<Slot>, k: Seq<char>, i: int)
    requires
        0 <= i < s.len(),
        s[i].name@ == k,
        forall|j: int| i < j < s.len() ==> (#[trigger] s[j]).name@ != k,
    ensures
        match s[i].props {
            Some(v) => slots_map(s).contains_key(k) && slots_map(s)[k] == names_set(v@),
            None => !slots_map(s).contains_key(k),
        },
    decreases s.len(),
{
    if i < s.len() - 1 {
        assert forall|j: int| i < j < s.drop_last().len() implies (#[trigger] s.drop_last()[j]).name@ != k by {
            assert(s.drop_last()[j] == s[j]);
        }
        assert(s.drop_last()[i] == s[i]);
        lemma_slots_last(s.drop_last(), k, i);
        assert(s[s.len() - 1].name@ != k);
    }
}

/// Property names taken from namespace imports by destructuring, per local name, kept
/// until the next use of that name takes them.
#[derive(Debug)]
pub struct DestructuringMap {
    slots: Vec<Slot>,
}

impl View for DestructuringMap {
    type V = Map<Seq<char>, Set<Seq<char>>>;

    closed spec fn view(&self) -> Map<Seq<char>, Set<Seq<char>>> {
        slots_map(self.slots@)
    }
}

impl DestructuringMap {
    pub fn new() -> (r: DestructuringMap)
        ensures
            r@ == Map::<Seq<char>, Set<Seq<char>>>::empty(),
    {
        DestructuringMap { slots: Vec::new() }
    }

    fn find(&self, name: &String) -> (r: Option<usize>)
        ensures
            r is None ==> !self@.contains_key(name@),
            r matches Some(i) ==> i < self.slots@.len() && match self.slots@[i as int].props {
                Some(v) => self@.contains_key(name@) && self@[name@] == names_set(v@),
                None => !self@.contains_key(name@),
            },
    {
        let mut i: usize = self.slots.len();
        while i > 0
            invariant
                i <= self.slots@.len(),
                forall|j: int| i <= j < self.slots@.len() ==> (#[trigger] self.slots@[j]).name@ != name@,
            decreases i,
        {
            let same = self.slots[i - 1].name.eq(name);
            if same {
                proof {
                    lemma_slots_last(self.slots@, name@, i - 1);
                }
                return Some(i - 1);
            }
            i = i - 1;
        }
        proof {
            lemma_slots_absent(self.slots@, name@);
        }
        None
    }

    /// Adds `props` to the names kept for `name`.
    pub fn extend(&mut self, name: &String, props: Vec<String>)
        ensures
            final(self)@ == old(self)@.insert(
                name@,
                if old(self)@.contains_key(name@) {
                    old(self)@[name@].union(names_set(props@))
                } else {
                    names_set(props@)
                },
            ),
    {
        let mut all: Vec<String> = Vec::new();
        match self.find(name) {
            Some(i) => match &self.slots[i].props {
                Some(v) => {
                    let n = v.len();
                    let mut j: usize = 0;
                    while j < n
                        invariant
                            n == v@.len(),
                            0 <= j <= n,
                            all@.map_values(|s: String| s@) == v@.take(j as int).map_values(|s: String| s@),
                        decreases n - j,
                    {
                        let ghost before = all@;
                        let c = copy_string(&v[j]);
                        let ghost cv = c@;
                        all.push(c);
                        proof {
                            assert(all@.map_values(|s: String| s@) =~= before.map_values(|s: String| s@).push(cv));
                            assert(v@.take(j as int + 1).map_values(|s: String| s@) =~= v@.take(j as int).map_values(|s: String| s@).push(cv));
                            assert(all@.map_values(|s: String| s@) =~= v@.take(j as int + 1).map_values(|s: String| s@));
                        }
                        j = j + 1;
                    }
                    proof {
                        assert(v@.take(n as int) =~= v@);
                    }
                },
                None => {},
            },
            None => {},
        }
        let ghost prev = all@;
        let mut extra = props;
        all.append(&mut extra);
        proof {
            let f = |s: String| s@;
            assert(all@.map_values(f) =~= prev.map_values(f) + props@.map_values(f));
            assert(names_set(all@) =~= names_set(prev).union(names_set(props@))) by {
                let a = prev.map_values(f);
                let b = props@.map_values(f);
                assert forall|x: Seq<char>| (a + b).to_set().contains(x) <==> a.to_set().union(b.to_set()).contains(x) by {
                    if (a + b).to_set().contains(x) {
                        let j = choose|j: int| 0 <= j < (a + b).len() && (a + b)[j] == x;
                        if j < a.len() {
                            assert(a[j] == x);
                        } else {
                            assert(b[j - a.len()] == x);
                        }
                    }
                    if a.to_set().contains(x) {
                        let j = choose|j: int| 0 <= j < a.len() && a[j] == x;
                        assert((a + b)[j] == x);
                    }
                    if b.to_set().contains(x) {
                        let j = choose|j: int| 0 <= j < b.len() && b[j] == x;
                        assert((a + b)[j + a.len()] == x);
                    }
                }
            }
            if !old(self)@.contains_key(name@) {
                assert(prev.len() == 0);
                assert(names_set(prev) =~= Set::empty());
            }
        }
        self.slots.push(Slot { name: name.clone(), props: Some(all) });
        proof {
            assert(self.slots@.drop_last() =~= old(self).slots@);
        }
    }

    /// Removes and returns the names kept for `name`.
    pub fn take(&mut self, name: &String) -> (r: Option<Vec<String>>)
        ensures
            r is None <==> !old(self)@.contains_key(name@),
            r matches Some(v) ==> names_set(v@) == old(self)@[name@],
            final(self)@ == old(self)@.remove(name@),
    {
        let found = self.find(name);
        let mut result: Option<Vec<String>> = None;
        match found {
            Some(i) => match &self.slots[i].props {
                Some(v) => {
                    result = Some(v.clone());
                    proof {
                        assert(v@.map_values(|s: String| s@) =~= result.unwrap()@.map_values(|s: String| s@));
                    }
                },
                None => {},
            },
            None => {},
        }
        if result.is_some() {
            self.slots.push(Slot { name: name.clone(), props: None });
            proof {
                assert(self.slots@.drop_last() =~= old(self).slots@);
            }
        } else {
            proof {
                assert(old(self)@.remove(name@) =~= old(self)@);
            }
        }
        result
    }
}

} // verus!
