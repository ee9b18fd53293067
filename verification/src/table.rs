use vstd::prelude::*;

verus! {

/// The finite map an entry list denotes: a later entry for a name
/// shadows an earlier one.
spec fn assoc_view(s: Seq<(String, u16)>) -> Map<Seq<char>, u16>
    decreases s.len(),
{
    if s.len() == 0 {
        Map::empty()
    } else {
        assoc_view(s.drop_last()).insert(s.last().0@, s.last().1)
    }
}

/// A map from names to 16-bit values, backed by an entry list.
/// It serves both as the label table of a program and as the variable
/// store of an execution.
#[derive(Debug)]
pub struct Table {
    entries: Vec<(String, u16)>,
}

impl View for Table {
    type V = Map<Seq<char>, u16>;

    closed spec fn view(&self) -> Map<Seq<char>, u16> {
        assoc_view(self.entries@)
    }
}

/// The last entry bearing a name decides that name's value.
proof fn lemma_assoc_found(s: Seq<(String, u16)>, k: Seq<char>, j: int)
    requires
        0 <= j < s.len(),
        s[j].0@ == k,
        forall|m: int| j < m < s.len() ==> (#[trigger] s[m]).0@ != k,
    ensures
        assoc_view(s).contains_key(k),
        assoc_view(s)[k] == s[j].1,
    decreases s.len(),
{
    if j + 1 < s.len() {
        assert(s.drop_last()[j] == s[j]);
        lemma_assoc_found(s.drop_last(), k, j);
    }
}

/// A name on no entry is not in the map.
proof fn lemma_assoc_absent(s: Seq<(String, u16)>, k: Seq<char>)
    requires
        forall|m: int| 0 <= m < s.len() ==> (#[trigger] s[m]).0@ != k,
    ensures
        !assoc_view(s).contains_key(k),
    decreases s.len(),
{
    if s.len() > 0 {
        lemma_assoc_absent(s.drop_last(), k);
    }
}

impl Table {
    /// An empty table.
    pub fn new() -> (r: Table)
        ensures
            r@ == Map::<Seq<char>, u16>::empty(),
    {
        Table { entries: Vec::new() }
    }

    /// The value bound to `name`, if any.
    pub fn get(&self, name: &str) -> (r: Option<u16>)
        ensures
            match r {
                Some(v) => self@.contains_key(name@) && self@[name@] == v,
                None => !self@.contains_key(name@),
            },
    {
        let key = name.to_owned();
        let n = self.entries.len();
        let mut i = n;
        while i > 0
            invariant
                i <= n,
                n == self.entries@.len(),
                key@ == name@,
                forall|m: int| i <= m < n ==> (#[trigger] self.entries@[m]).0@ != name@,
            decreases i,
        {
            i -= 1;
            if self.entries[i].0 == key {
                proof {
                    lemma_assoc_found(self.entries@, name@, i as int);
                }
                return Some(self.entries[i].1);
            }
        }
        proof {
            lemma_assoc_absent(self.entries@, name@);
        }
        None
    }

    /// Whether `name` is bound.
    pub fn contains_key(&self, name: &str) -> (r: bool)
        ensures
            r == self@.contains_key(name@),
    {
        self.get(name).is_some()
    }

    /// Bind `name` to `value`, shadowing any earlier binding.
    pub fn insert(&mut self, name: String, value: u16)
        ensures
            final(self)@ == old(self)@.insert(name@, value),
    {
        self.entries.push((name, value));
        proof {
            assert(self.entries@.drop_last() =~= old(self).entries@);
        }
    }
}

} // verus!
