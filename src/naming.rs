//! Names of pipeline elements: a plugin name and a name local to the plugin.
use vstd::prelude::*;

verus! {

/// The name of a source, transform or output, owned by a plugin.
#[derive(Debug)]
pub struct ElementName {
    plugin: String,
    name: String,
}

pub type SourceName = ElementName;

pub type TransformName = ElementName;

pub type OutputName = ElementName;

impl View for ElementName {
    type V = (Seq<char>, Seq<char>);

    closed spec fn view(&self) -> (Seq<char>, Seq<char>) {
        (self.plugin@, self.name@)
    }
}

impl ElementName {
    pub fn new(plugin: String, name: String) -> (r: ElementName)
        ensures
            r@ == (plugin@, name@),
    {
        ElementName { plugin, name }
    }

    /// The name of the plugin that owns the element.
    pub fn plugin(&self) -> (r: &str)
        ensures
            r@ == self@.0,
    {
        self.plugin.as_str()
    }

    /// The name of the element within its plugin.
    pub fn name(&self) -> (r: &str)
        ensures
            r@ == self@.1,
    {
        self.name.as_str()
    }

    /// Whether both names are equal.
    pub fn same_as(&self, other: &ElementName) -> (r: bool)
        ensures
            r == (self@ == other@),
    {
        self.plugin == other.plugin && self.name == other.name
    }

    /// A copy with the same names.
    pub fn duplicate(&self) -> (r: ElementName)
        ensures
            r@ == self@,
    {
        ElementName { plugin: self.plugin.clone(), name: self.name.clone() }
    }
}

/// The names that occur in a sequence of element names, as a set.
pub open spec fn name_set(s: Seq<ElementName>) -> Set<(Seq<char>, Seq<char>)> {
    Set::new(|v: (Seq<char>, Seq<char>)| exists|i: int| 0 <= i < s.len() && s[i]@ == v)
}

/// Whether `n` occurs in `v` under the same names.
pub fn contains_name(v: &Vec<ElementName>, n: &ElementName) -> (r: bool)
    ensures
        r == name_set(v@).contains(n@),
{
    let mut i: usize = 0;
    while i < v.len()
        invariant
            i <= v.len(),
            forall|j: int| 0 <= j < i ==> v@[j]@ != n@,
        decreases v.len() - i,
    {
        if v[i].same_as(n) {
            return true;
        }
        i = i + 1;
    }
    false
}

/// Whether every name of `small` occurs in `big`.
pub fn covers(big: &Vec<ElementName>, small: &Vec<ElementName>) -> (r: bool)
    ensures
        r == name_set(small@).subset_of(name_set(big@)),
{
    let mut i: usize = 0;
    while i < small.len()
        invariant
            i <= small.len(),
            forall|j: int| 0 <= j < i ==> name_set(big@).contains(#[trigger] small@[j]@),
        decreases small.len() - i,
    {
        if !contains_name(big, &small[i]) {
            assert(name_set(small@).contains(small@[i as int]@));
            return false;
        }
        i = i + 1;
    }
    assert forall|v| name_set(small@).contains(v) implies name_set(big@).contains(v) by {
        let j = choose|j: int| 0 <= j < small@.len() && small@[j]@ == v;
        assert(name_set(big@).contains(small@[j]@));
    }
    true
}

/// Whether the two vectors hold the same names, as sets.
pub fn same_names(a: &Vec<ElementName>, b: &Vec<ElementName>) -> (r: bool)
    ensures
        r == (name_set(a@) == name_set(b@)),
{
    let ab = covers(a, b);
    let ba = covers(b, a);
    if ab && ba {
        assert(name_set(a@) =~= name_set(b@));
    }
    ab && ba
}

} // verus!
