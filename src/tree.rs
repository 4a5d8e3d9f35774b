use vstd::prelude::*;

verus! {

/// The value that a property node carries.
pub enum PropValue {
    /// A text value.
    Str(String),
    /// A signed byte.
    S8(i8),
    /// An array of unsigned 32-bit integers.
    U32Array(Vec<u32>),
    /// Any other value, as its type id, its array flag and its raw bytes.
    Raw { type_id: u8, is_array: bool, data: Vec<u8> },
}

/// A node of a property tree: a key, attributes, an optional value and an
/// ordered list of children.
pub struct PropNode {
    pub key: String,
    pub attributes: Vec<(String, String)>,
    pub value: Option<PropValue>,
    pub children: Vec<PropNode>,
}

/// `i` is the first position in `s` whose node has key `key`.
pub open spec fn is_first_with_key(s: Seq<PropNode>, key: Seq<char>, i: int) -> bool {
    &&& 0 <= i < s.len()
    &&& s[i].key@ == key
    &&& forall|j: int| 0 <= j < i ==> s[j].key@ != key
}

/// The first position in `s` whose node has key `key`, if any.
pub open spec fn find_key(s: Seq<PropNode>, key: Seq<char>) -> Option<int> {
    if exists|i: int| is_first_with_key(s, key, i) {
        Some(choose|i: int| is_first_with_key(s, key, i))
    } else {
        None
    }
}

/// The first child of `n` with key `key`.
pub open spec fn child(n: PropNode, key: Seq<char>) -> Option<PropNode> {
    match find_key(n.children@, key) {
        Some(i) => Some(n.children@[i]),
        None => None,
    }
}

/// The node reached from `n` by the two keys `a` then `b`.
pub open spec fn at_path(n: PropNode, a: Seq<char>, b: Seq<char>) -> Option<PropNode> {
    match child(n, a) {
        Some(c) => child(c, b),
        None => None,
    }
}

/// `new` is `old` with its child at `i` replaced by `c`, all else equal.
pub open spec fn with_child(old: PropNode, new: PropNode, i: int, c: PropNode) -> bool {
    &&& new.key == old.key
    &&& new.attributes == old.attributes
    &&& new.value == old.value
    &&& new.children@ == old.children@.update(i, c)
}

/// `n` is a leaf with key `key` and value `v`.
pub open spec fn is_leaf(n: PropNode, key: Seq<char>, v: PropValue) -> bool {
    &&& n.key@ == key
    &&& n.attributes@.len() == 0
    &&& n.value == Some(v)
    &&& n.children@.len() == 0
}

/// `n` is a text leaf with key `key` and text `text`.
pub open spec fn is_text_leaf(n: PropNode, key: Seq<char>, text: Seq<char>) -> bool {
    &&& n.key@ == key
    &&& n.attributes@.len() == 0
    &&& n.children@.len() == 0
    &&& match n.value {
        Some(PropValue::Str(s)) => s@ == text,
        _ => false,
    }
}

proof fn lemma_first_unique(s: Seq<PropNode>, key: Seq<char>, i: int)
    requires
        is_first_with_key(s, key, i),
    ensures
        find_key(s, key) == Some(i),
{
    let k = choose|k: int| is_first_with_key(s, key, k);
    assert(is_first_with_key(s, key, k));
    if k < i {
        assert(s[k].key@ != key);
    } else if i < k {
        assert(s[i].key@ != key);
    }
}

impl PropNode {
    /// A node with a key and a value, without attributes or children.
    pub fn with_value(key: &str, value: PropValue) -> (r: PropNode)
        ensures
            is_leaf(r, key@, value),
    {
        PropNode { key: key.to_owned(), attributes: Vec::new(), value: Some(value), children: Vec::new() }
    }

    /// A node with a key and children, without attributes or value.
    pub fn with_nodes(key: &str, children: Vec<PropNode>) -> (r: PropNode)
        ensures
            r.key@ == key@,
            r.attributes@.len() == 0,
            r.value is None,
            r.children@ == children@,
    {
        PropNode { key: key.to_owned(), attributes: Vec::new(), value: None, children }
    }

    /// Whether the key of this node is `key`.
    pub fn has_key(&self, key: &str) -> (r: bool)
        ensures
            r == (self.key@ == key@),
    {
        let k = key.to_owned();
        self.key == k
    }

    /// The position of the first child with key `key`.
    pub fn find_child(&self, key: &str) -> (r: Option<usize>)
        ensures
            r matches Some(i) ==> find_key(self.children@, key@) == Some(i as int),
            r is None ==> find_key(self.children@, key@) is None,
    {
        let mut i: usize = 0;
        while i < self.children.len()
            invariant
                i <= self.children@.len(),
                forall|j: int| 0 <= j < i ==> self.children@[j].key@ != key@,
            decreases self.children@.len() - i,
        {
            if self.children[i].has_key(key) {
                proof {
                    lemma_first_unique(self.children@, key@, i as int);
                }
                return Some(i);
            }
            i = i + 1;
        }
        assert(!exists|k: int| is_first_with_key(self.children@, key@, k));
        None
    }

    /// Whether the path `a`/`b` leads somewhere from this node.
    pub fn has_path(&self, a: &str, b: &str) -> (r: bool)
        ensures
            r == at_path(*self, a@, b@) is Some,
    {
        match self.find_child(a) {
            Some(i) => self.children[i].find_child(b).is_some(),
            None => false,
        }
    }
}

} // verus!
