//! The document tree that the schema pipeline reads: objects of named fields
//! (with an optional parent object consulted on lookup misses), arrays and
//! scalar values.
use vstd::prelude::*;

verus! {

/// A value in a configuration document.
pub enum Node {
    Null,
    Bool(bool),
    Str(String),
    Arr(Vec<Node>),
    Obj(DocObj),
    /// Any value of a kind that the schema never reads (numbers, characters, tuples).
    Other,
}

/// An object: field-value pairs in document order, and the object that a
/// lookup falls back to when none of the pairs carries the field.
pub struct DocObj {
    pub pairs: Vec<(String, Node)>,
    pub parent: Option<Box<DocObj>>,
}

/// The value of the first pair in `pairs` whose field is `key`.
pub open spec fn first_with_key(pairs: Seq<(String, Node)>, key: Seq<char>) -> Option<Node>
    decreases pairs.len(),
{
    if pairs.len() == 0 {
        None
    } else if pairs[0].0@ == key {
        Some(pairs[0].1)
    } else {
        first_with_key(pairs.drop_first(), key)
    }
}

/// Two values are structurally equal: the same shape, the same scalars, the
/// same strings, field names and parents.
pub open spec fn node_equiv(a: Node, b: Node) -> bool
    decreases a,
{
    match a {
        Node::Null => b is Null,
        Node::Bool(x) => b == Node::Bool(x),
        Node::Str(x) => match b {
            Node::Str(y) => x@ == y@,
            _ => false,
        },
        Node::Arr(x) => match b {
            Node::Arr(y) => x@.len() == y@.len() && forall|i: int|
                0 <= i < x@.len() ==> node_equiv(#[trigger] x@[i], y@[i]),
            _ => false,
        },
        Node::Obj(x) => match b {
            Node::Obj(y) => obj_equiv(x, y),
            _ => false,
        },
        Node::Other => b is Other,
    }
}

/// Two objects are structurally equal.
pub open spec fn obj_equiv(a: DocObj, b: DocObj) -> bool
    decreases a,
{
    &&& a.pairs@.len() == b.pairs@.len()
    &&& forall|i: int|
        0 <= i < a.pairs@.len() ==> (#[trigger] a.pairs@[i]).0@ == b.pairs@[i].0@ && node_equiv(
            a.pairs@[i].1,
            b.pairs@[i].1,
        )
    &&& match a.parent {
        None => b.parent is None,
        Some(p) => match b.parent {
            Some(q) => obj_equiv(*p, *q),
            None => false,
        },
    }
}

/// Two optional values are both absent or structurally equal.
pub open spec fn opt_node_equiv(a: Option<Node>, b: Option<Node>) -> bool {
    match a {
        None => b is None,
        Some(x) => match b {
            Some(y) => node_equiv(x, y),
            None => false,
        },
    }
}

proof fn lemma_first_with_key_equiv(ps: Seq<(String, Node)>, qs: Seq<(String, Node)>, key: Seq<char>)
    requires
        ps.len() == qs.len(),
        forall|i: int| 0 <= i < ps.len() ==> (#[trigger] ps[i]).0@ == qs[i].0@ && node_equiv(ps[i].1, qs[i].1),
    ensures
        opt_node_equiv(first_with_key(ps, key), first_with_key(qs, key)),
    decreases ps.len(),
{
    if ps.len() > 0 {
        assert(ps[0].0@ == qs[0].0@);
        let (pt, qt) = (ps.drop_first(), qs.drop_first());
        assert forall|i: int| 0 <= i < pt.len() implies (#[trigger] pt[i]).0@ == qt[i].0@ && node_equiv(
            pt[i].1,
            qt[i].1,
        ) by {
            assert(pt[i] == ps[i + 1]);
        }
        lemma_first_with_key_equiv(pt, qt, key);
    }
}

/// Structurally equal objects find structurally equal values for every field.
pub proof fn lemma_lookup_equiv(a: DocObj, b: DocObj, key: Seq<char>)
    requires
        obj_equiv(a, b),
    ensures
        opt_node_equiv(a.lookup(key), b.lookup(key)),
        a.field_str(key) == b.field_str(key),
        a.field_bool(key) == b.field_bool(key),
        a.field_obj(key) is None <==> b.field_obj(key) is None,
        a.field_obj(key) matches Some(x) ==> obj_equiv(x, b.field_obj(key).unwrap()),
        a.field_arr(key) is None <==> b.field_arr(key) is None,
        a.field_arr(key) matches Some(x) ==> x.len() == b.field_arr(key).unwrap().len() && forall|i: int|
            0 <= i < x.len() ==> node_equiv(#[trigger] x[i], b.field_arr(key).unwrap()[i]),
    decreases a,
{
    lemma_first_with_key_equiv(a.pairs@, b.pairs@, key);
    if first_with_key(a.pairs@, key) is None {
        if let Some(p) = a.parent {
            lemma_lookup_equiv(*p, *b.parent.unwrap(), key);
        }
    }
}

impl Node {
    pub open spec fn as_obj(self) -> Option<DocObj> {
        match self {
            Node::Obj(o) => Some(o),
            _ => None,
        }
    }

    pub open spec fn as_str(self) -> Option<Seq<char>> {
        match self {
            Node::Str(s) => Some(s@),
            _ => None,
        }
    }

    pub open spec fn as_bool(self) -> Option<bool> {
        match self {
            Node::Bool(b) => Some(b),
            _ => None,
        }
    }

    pub open spec fn as_arr(self) -> Option<Seq<Node>> {
        match self {
            Node::Arr(a) => Some(a@),
            _ => None,
        }
    }

    /// The object held by this value, if it is one.
    pub fn get_obj(&self) -> (r: Option<&DocObj>)
        ensures
            r matches Some(o) ==> self.as_obj() == Some(*o),
            r is None ==> self.as_obj() is None,
    {
        match self {
            Node::Obj(o) => Some(o),
            _ => None,
        }
    }

    /// The string held by this value, if it is one.
    pub fn get_str(&self) -> (r: Option<String>)
        ensures
            r matches Some(s) ==> self.as_str() == Some(s@),
            r is None ==> self.as_str() is None,
    {
        match self {
            Node::Str(s) => Some(s.clone()),
            _ => None,
        }
    }
}

impl DocObj {
    /// The value that a lookup of `key` finds: in this object's own pairs
    /// first, then in its parent chain.
    pub open spec fn lookup(self, key: Seq<char>) -> Option<Node>
        decreases self,
    {
        match first_with_key(self.pairs@, key) {
            Some(v) => Some(v),
            None => match self.parent {
                Some(p) => p.lookup(key),
                None => None,
            },
        }
    }

    pub open spec fn field_obj(self, key: Seq<char>) -> Option<DocObj> {
        match self.lookup(key) {
            Some(v) => v.as_obj(),
            None => None,
        }
    }

    pub open spec fn field_str(self, key: Seq<char>) -> Option<Seq<char>> {
        match self.lookup(key) {
            Some(v) => v.as_str(),
            None => None,
        }
    }

    pub open spec fn field_bool(self, key: Seq<char>) -> Option<bool> {
        match self.lookup(key) {
            Some(v) => v.as_bool(),
            None => None,
        }
    }

    pub open spec fn field_arr(self, key: Seq<char>) -> Option<Seq<Node>> {
        match self.lookup(key) {
            Some(v) => v.as_arr(),
            None => None,
        }
    }

    /// Looks `key` up in this object's own pairs, then in its parent chain.
    pub fn get(&self, key: &str) -> (r: Option<&Node>)
        ensures
            r matches Some(v) ==> self.lookup(key@) == Some(*v),
            r is None ==> self.lookup(key@) is None,
        decreases self,
    {
        let k = String::from_str(key);
        let mut i: usize = 0;
        assert(self.pairs@.skip(0) =~= self.pairs@);
        while i < self.pairs.len()
            invariant
                i <= self.pairs@.len(),
                k@ == key@,
                first_with_key(self.pairs@, key@) == first_with_key(self.pairs@.skip(i as int), key@),
            decreases self.pairs@.len() - i,
        {
            assert(self.pairs@.skip(i as int).drop_first() =~= self.pairs@.skip(i + 1));
            if self.pairs[i].0 == k {
                return Some(&self.pairs[i].1);
            }
            i = i + 1;
        }
        match &self.parent {
            Some(p) => p.get(key),
            None => None,
        }
    }

    /// The object at `key`, if the lookup finds one.
    pub fn get_obj(&self, key: &str) -> (r: Option<&DocObj>)
        ensures
            r matches Some(o) ==> self.field_obj(key@) == Some(*o),
            r is None ==> self.field_obj(key@) is None,
    {
        match self.get(key) {
            Some(v) => v.get_obj(),
            None => None,
        }
    }

    /// The string at `key`, if the lookup finds one.
    pub fn get_str(&self, key: &str) -> (r: Option<String>)
        ensures
            r matches Some(s) ==> self.field_str(key@) == Some(s@),
            r is None ==> self.field_str(key@) is None,
    {
        match self.get(key) {
            Some(v) => v.get_str(),
            None => None,
        }
    }

    /// The boolean at `key`, if the lookup finds one.
    pub fn get_bool(&self, key: &str) -> (r: Option<bool>)
        ensures
            r == self.field_bool(key@),
    {
        match self.get(key) {
            Some(Node::Bool(b)) => Some(*b),
            _ => None,
        }
    }

    /// The array at `key`, if the lookup finds one.
    pub fn get_arr(&self, key: &str) -> (r: Option<&Vec<Node>>)
        ensures
            r matches Some(a) ==> self.field_arr(key@) == Some(a@),
            r is None ==> self.field_arr(key@) is None,
    {
        match self.get(key) {
            Some(Node::Arr(a)) => Some(a),
            _ => None,
        }
    }
}

} // verus!
