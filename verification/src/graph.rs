use vstd::prelude::*;
use std::collections::HashMap;
use std::collections::HashSet;
use crate::ids::{Binding, DataId};
use vstd::std_specs::iter::IteratorSpec;

verus! {

broadcast use vstd::std_specs::hash::group_hash_axioms;

/// One node of the attribute tree: the raw ids of the data registered in it
/// and in all of its descendants, and its children.
pub struct AttributeNode {
    children: Vec<AttributeNode>,
    data: HashSet<u64>,
}

impl AttributeNode {
    /// The raw ids of the data registered in this node and its descendants.
    pub closed spec fn spec_data(&self) -> Set<u64> {
        self.data@
    }

    /// The children of this node.
    pub closed spec fn spec_children(&self) -> Seq<AttributeNode> {
        self.children@
    }

    /// A node with no data and no children.
    pub fn new() -> (n: Self)
        ensures
            n.spec_data() == Set::<u64>::empty(),
            n.spec_children().len() == 0,
    {
        AttributeNode { children: Vec::new(), data: HashSet::new() }
    }

    /// Record that data with this raw id is registered in this node.
    pub fn insert_data(&mut self, id: u64)
        ensures
            final(self).spec_data() == old(self).spec_data().insert(id),
            final(self).spec_children() == old(self).spec_children(),
    {
        self.data.insert(id);
    }

    /// Whether data with this raw id is registered in this node or below it.
    pub fn contains_data(&self, id: u64) -> (b: bool)
        ensures
            b == self.spec_data().contains(id),
    {
        self.data.contains(&id)
    }

    /// Append `child`; its data counts as data of this node too.
    pub fn add_child(&mut self, child: AttributeNode)
        ensures
            final(self).spec_data() == old(self).spec_data().union(child.spec_data()),
            final(self).spec_children() == old(self).spec_children().push(child),
    {
        let ghost before = self.data@;
        for id in it: child.data.iter()
            invariant
                self.children@ == old(self).children@,
                before == old(self).data@,
                it.seq() == vstd::std_specs::hash::spec_hash_keys_iter(&child.data).remaining(),
                forall|k: u64|
                    #[trigger] self.data@.contains(k) <==> (before.contains(k) || exists|i: int|
                        0 <= i < it.index() && *it.seq()[i] == k),
        {
            self.data.insert(*id);
        }
        proof {
            let r = vstd::std_specs::hash::spec_hash_keys_iter(&child.data).remaining();
            assert(r.unref().to_set() == child.data@);
            assert forall|k: u64| child.data@.contains(k) implies exists|i: int| 0 <= i < r.len() && *r[i] == k by {
                assert(r.unref().to_set().contains(k));
                assert(r.unref().contains(k));
                let i = choose|i: int| 0 <= i < r.unref().len() && r.unref()[i] == k;
                assert(*r[i] == k);
            }
            assert forall|i: int| 0 <= i < r.len() implies child.data@.contains(*r[i]) by {
                assert(r.unref()[i] == *r[i]);
                assert(r.unref().contains(*r[i]));
            }
        }
        assert(self.data@ =~= before.union(child.data@));
        self.children.push(child);
    }
}

/// Whether any changed datum is registered in `node` or below it: an update
/// pass goes into the subtree of `node` exactly then.
pub fn should_recurse(node: &AttributeNode, changes: &HashSet<u64>) -> (b: bool)
    ensures
        b == exists|id: u64| changes@.contains(id) && node.spec_data().contains(id),
{
    for id in it: changes.iter()
        invariant
            it.seq() == vstd::std_specs::hash::spec_hash_keys_iter(changes).remaining(),
            forall|i: int| 0 <= i < it.index() ==> !node.spec_data().contains(*it.seq()[i]),
    {
        if node.contains_data(*id) {
            proof {
                let r = vstd::std_specs::hash::spec_hash_keys_iter(changes).remaining();
                assert(r.unref()[it.index()] == *id);
                assert(r.unref().contains(*id));
                assert(r.unref().to_set().contains(*id));
            }
            return true;
        }
    }
    proof {
        let r = vstd::std_specs::hash::spec_hash_keys_iter(changes).remaining();
        assert(r.unref().to_set() == changes@);
        assert forall|k: u64| changes@.contains(k) implies !node.spec_data().contains(k) by {
            assert(r.unref().to_set().contains(k));
            let i = choose|i: int| 0 <= i < r.unref().len() && r.unref()[i] == k;
            assert(*r[i] == k);
        }
    }
    false
}

/// The kinds of value an attribute can hold.
#[derive(Debug, Clone, Copy, PartialEq, Eq, Structural)]
pub enum ValueKind {
    Bool,
    U64,
    I64,
    Char,
    String,
}

/// The value of an attribute.
#[derive(Debug)]
pub enum Value {
    Bool(bool),
    U64(u64),
    I64(i64),
    Char(char),
    String(String),
}

impl Value {
    /// The kind of this value.
    pub open spec fn kind(self) -> ValueKind {
        match self {
            Value::Bool(_) => ValueKind::Bool,
            Value::U64(_) => ValueKind::U64,
            Value::I64(_) => ValueKind::I64,
            Value::Char(_) => ValueKind::Char,
            Value::String(_) => ValueKind::String,
        }
    }

    /// Whether two values are of the same kind.
    pub fn is_same_type(&self, other: &Value) -> (b: bool)
        ensures
            b == (self.kind() == other.kind()),
    {
        match (self, other) {
            (Value::Bool(_), Value::Bool(_)) => true,
            (Value::U64(_), Value::U64(_)) => true,
            (Value::I64(_), Value::I64(_)) => true,
            (Value::Char(_), Value::Char(_)) => true,
            (Value::String(_), Value::String(_)) => true,
            _ => false,
        }
    }

    /// A copy of this value.
    pub fn duplicate(&self) -> (v: Value)
        ensures
            v == *self,
    {
        match self {
            Value::Bool(b) => Value::Bool(*b),
            Value::U64(n) => Value::U64(*n),
            Value::I64(n) => Value::I64(*n),
            Value::Char(c) => Value::Char(*c),
            Value::String(s) => Value::String(s.clone()),
        }
    }
}

/// A value of another kind than the binding expects.
#[derive(Debug)]
pub struct ValueTypeError {
    pub expected: ValueKind,
    pub found: Value,
}

/// A type whose values an attribute can hold.
pub trait ValueType: Sized {
    /// The kind of value that holds a `Self`.
    spec fn kind() -> ValueKind;

    /// The value that holds `self`.
    spec fn as_value(&self) -> Value;

    /// The `Self` that a value holds, if it is of the right kind.
    spec fn from_value(v: Value) -> Option<Self>;

    /// What `v` holds, or the type error when it is of another kind.
    fn try_from_value(v: &Value) -> (r: Result<Self, ValueTypeError>)
        ensures
            match r {
                Ok(x) => Self::from_value(*v) == Some(x),
                Err(e) => Self::from_value(*v) is None && e == (ValueTypeError {
                    expected: Self::kind(),
                    found: *v,
                }),
            },
    ;

    /// The value that holds `self`.
    fn to_value(&self) -> (v: Value)
        ensures
            v == self.as_value(),
    ;

    /// A value holds a `Self` exactly when it is of the right kind, and the
    /// value that holds `x` holds `x`.
    proof fn lemma_value_roundtrip(x: Self, v: Value)
        ensures
            Self::from_value(x.as_value()) == Some(x),
            x.as_value().kind() == Self::kind(),
            Self::from_value(v) is Some <==> v.kind() == Self::kind(),
    ;
}

impl ValueType for bool {
    open spec fn kind() -> ValueKind {
        ValueKind::Bool
    }

    open spec fn as_value(&self) -> Value {
        Value::Bool(*self)
    }

    open spec fn from_value(v: Value) -> Option<bool> {
        match v {
            Value::Bool(b) => Some(b),
            _ => None,
        }
    }

    fn try_from_value(v: &Value) -> (r: Result<bool, ValueTypeError>) {
        match v {
            Value::Bool(b) => Ok(*b),
            other => Err(ValueTypeError { expected: ValueKind::Bool, found: other.duplicate() }),
        }
    }

    fn to_value(&self) -> (v: Value) {
        Value::Bool(*self)
    }

    proof fn lemma_value_roundtrip(x: bool, v: Value) {
    }
}

impl ValueType for u64 {
    open spec fn kind() -> ValueKind {
        ValueKind::U64
    }

    open spec fn as_value(&self) -> Value {
        Value::U64(*self)
    }

    open spec fn from_value(v: Value) -> Option<u64> {
        match v {
            Value::U64(n) => Some(n),
            _ => None,
        }
    }

    fn try_from_value(v: &Value) -> (r: Result<u64, ValueTypeError>) {
        match v {
            Value::U64(n) => Ok(*n),
            other => Err(ValueTypeError { expected: ValueKind::U64, found: other.duplicate() }),
        }
    }

    fn to_value(&self) -> (v: Value) {
        Value::U64(*self)
    }

    proof fn lemma_value_roundtrip(x: u64, v: Value) {
    }
}

impl ValueType for i64 {
    open spec fn kind() -> ValueKind {
        ValueKind::I64
    }

    open spec fn as_value(&self) -> Value {
        Value::I64(*self)
    }

    open spec fn from_value(v: Value) -> Option<i64> {
        match v {
            Value::I64(n) => Some(n),
            _ => None,
        }
    }

    fn try_from_value(v: &Value) -> (r: Result<i64, ValueTypeError>) {
        match v {
            Value::I64(n) => Ok(*n),
            other => Err(ValueTypeError { expected: ValueKind::I64, found: other.duplicate() }),
        }
    }

    fn to_value(&self) -> (v: Value) {
        Value::I64(*self)
    }

    proof fn lemma_value_roundtrip(x: i64, v: Value) {
    }
}

impl ValueType for char {
    open spec fn kind() -> ValueKind {
        ValueKind::Char
    }

    open spec fn as_value(&self) -> Value {
        Value::Char(*self)
    }

    open spec fn from_value(v: Value) -> Option<char> {
        match v {
            Value::Char(c) => Some(c),
            _ => None,
        }
    }

    fn try_from_value(v: &Value) -> (r: Result<char, ValueTypeError>) {
        match v {
            Value::Char(c) => Ok(*c),
            other => Err(ValueTypeError { expected: ValueKind::Char, found: other.duplicate() }),
        }
    }

    fn to_value(&self) -> (v: Value) {
        Value::Char(*self)
    }

    proof fn lemma_value_roundtrip(x: char, v: Value) {
    }
}

impl ValueType for String {
    open spec fn kind() -> ValueKind {
        ValueKind::String
    }

    open spec fn as_value(&self) -> Value {
        Value::String(*self)
    }

    open spec fn from_value(v: Value) -> Option<String> {
        match v {
            Value::String(s) => Some(s),
            _ => None,
        }
    }

    fn try_from_value(v: &Value) -> (r: Result<String, ValueTypeError>) {
        match v {
            Value::String(s) => Ok(s.clone()),
            other => Err(ValueTypeError { expected: ValueKind::String, found: other.duplicate() }),
        }
    }

    fn to_value(&self) -> (v: Value) {
        Value::String(self.clone())
    }

    proof fn lemma_value_roundtrip(x: String, v: Value) {
    }
}

/// The values of the attribute graph, by the raw id of their binding, and the
/// ids whose value changed.
pub struct AttributeStore {
    storage: HashMap<u64, Value>,
    changes: HashSet<u64>,
}

impl AttributeStore {
    /// The stored values.
    pub closed spec fn spec_storage(&self) -> Map<u64, Value> {
        self.storage@
    }

    /// The ids whose value changed.
    pub closed spec fn spec_changes(&self) -> Set<u64> {
        self.changes@
    }

    /// An empty store.
    pub fn new() -> (s: Self)
        ensures
            s.spec_storage() == Map::<u64, Value>::empty(),
            s.spec_changes() == Set::<u64>::empty(),
    {
        AttributeStore { storage: HashMap::new(), changes: HashSet::new() }
    }

    /// Store the first value of a binding; a binding is stored only once.
    pub fn insert<T: ValueType>(&mut self, binding: &Binding<T>)
        requires
            !old(self).spec_storage().contains_key(binding.spec_id().raw()),
        ensures
            final(self).spec_storage() == old(self).spec_storage().insert(
                binding.spec_id().raw(),
                binding.spec_value().as_value(),
            ),
            final(self).spec_changes() == old(self).spec_changes(),
    {
        let value = binding.value().to_value();
        self.storage.insert(binding.id().to_raw(), value);
    }

    /// The stored value of a binding, or the type error when the stored value
    /// is of another kind than the binding's.
    pub fn get_value<T: ValueType>(&self, binding: &Binding<T>) -> (r: Result<T, ValueTypeError>)
        requires
            self.spec_storage().contains_key(binding.spec_id().raw()),
        ensures
            match r {
                Ok(x) => T::from_value(self.spec_storage()[binding.spec_id().raw()]) == Some(x),
                Err(e) => T::from_value(self.spec_storage()[binding.spec_id().raw()]) is None && e == (
                ValueTypeError { expected: T::kind(), found: self.spec_storage()[binding.spec_id().raw()] }),
            },
    {
        T::try_from_value(self.storage.get(&binding.id().to_raw()).unwrap())
    }

    /// Whether the stored value of a binding has the binding's kind.
    pub fn holds_kind<T: ValueType>(&self, binding: &Binding<T>) -> (b: bool)
        requires
            self.spec_storage().contains_key(binding.spec_id().raw()),
        ensures
            b == (self.spec_storage()[binding.spec_id().raw()].kind() == T::kind()),
    {
        let new = binding.value().to_value();
        proof {
            T::lemma_value_roundtrip(binding.spec_value(), new);
        }
        self.storage.get(&binding.id().to_raw()).unwrap().is_same_type(&new)
    }

    /// Replace the value of a stored binding, and record that it changed. The
    /// new value must be of the kind already stored.
    pub fn set<T: ValueType>(&mut self, binding: &Binding<T>, new: T)
        requires
            old(self).spec_storage().contains_key(binding.spec_id().raw()),
            old(self).spec_storage()[binding.spec_id().raw()].kind() == T::kind(),
        ensures
            final(self).spec_storage() == old(self).spec_storage().insert(binding.spec_id().raw(), new.as_value()),
            final(self).spec_changes() == old(self).spec_changes().insert(binding.spec_id().raw()),
    {
        let v = new.to_value();
        self.storage.insert(binding.id().to_raw(), v);
        self.changes.insert(binding.id().to_raw());
    }

    /// Whether the value of this binding changed.
    pub fn changed(&self, id: DataId) -> (b: bool)
        ensures
            b == self.spec_changes().contains(id.raw()),
    {
        self.changes.contains(&id.to_raw())
    }

    /// Whether an update pass goes into the subtree of `node`.
    pub fn should_recurse(&self, node: &AttributeNode) -> (b: bool)
        ensures
            b == exists|id: u64| self.spec_changes().contains(id) && node.spec_data().contains(id),
    {
        should_recurse(node, &self.changes)
    }
}

/// Builds the attribute tree while widgets register their bindings: a stack
/// of the nodes still open, the root at the bottom.
pub struct RegistrationCtx {
    store: AttributeStore,
    tree: Vec<AttributeNode>,
}

impl RegistrationCtx {
    /// The nodes still open, the root first.
    pub closed spec fn spec_tree(&self) -> Seq<AttributeNode> {
        self.tree@
    }

    /// The stored values.
    pub closed spec fn spec_storage(&self) -> Map<u64, Value> {
        self.store.spec_storage()
    }

    /// The ids whose value changed.
    pub closed spec fn spec_changes(&self) -> Set<u64> {
        self.store.spec_changes()
    }

    /// The store of values.
    pub fn store(&self) -> (s: &AttributeStore)
        ensures
            s.spec_storage() == self.spec_storage(),
            s.spec_changes() == self.spec_changes(),
    {
        &self.store
    }

    /// Finish registration: the store and the root of the attribute tree.
    pub fn finish(self) -> (r: (AttributeStore, AttributeNode))
        requires
            self.spec_tree().len() == 1,
        ensures
            r.0.spec_storage() == self.spec_storage(),
            r.0.spec_changes() == self.spec_changes(),
            r.1 == self.spec_tree()[0],
    {
        let mut tree = self.tree;
        let root = tree.pop().unwrap();
        (self.store, root)
    }

    /// An empty store and a tree of only the root.
    pub fn new() -> (c: Self)
        ensures
            c.spec_storage() == Map::<u64, Value>::empty(),
            c.spec_changes() == Set::<u64>::empty(),
            c.spec_tree().len() == 1,
            c.spec_tree()[0].spec_data() == Set::<u64>::empty(),
            c.spec_tree()[0].spec_children().len() == 0,
    {
        let mut tree: Vec<AttributeNode> = Vec::new();
        tree.push(AttributeNode::new());
        RegistrationCtx { store: AttributeStore::new(), tree }
    }

    /// Open a new child node.
    pub fn start_child(&mut self)
        ensures
            final(self).spec_tree().len() == old(self).spec_tree().len() + 1,
            final(self).spec_tree().drop_last() == old(self).spec_tree(),
            final(self).spec_tree().last().spec_data() == Set::<u64>::empty(),
            final(self).spec_tree().last().spec_children().len() == 0,
            final(self).spec_storage() == old(self).spec_storage(),
            final(self).spec_changes() == old(self).spec_changes(),
    {
        self.tree.push(AttributeNode::new());
    }

    /// Close the innermost node and append it to its parent.
    pub fn end_child(&mut self)
        requires
            old(self).spec_tree().len() >= 2,
        ensures
            ({
                let t = old(self).spec_tree();
                let n = t.len();
                &&& final(self).spec_tree().len() == n - 1
                &&& final(self).spec_tree().drop_last() == t.subrange(0, n - 2)
                &&& final(self).spec_tree().last().spec_data() == t[n - 2].spec_data().union(
                    t[n - 1].spec_data(),
                )
                &&& final(self).spec_tree().last().spec_children() == t[n - 2].spec_children().push(
                    t[n - 1],
                )
            }),
            final(self).spec_storage() == old(self).spec_storage(),
            final(self).spec_changes() == old(self).spec_changes(),
    {
        let child = self.tree.pop().unwrap();
        let mut parent = self.tree.pop().unwrap();
        parent.add_child(child);
        self.tree.push(parent);
    }

    /// Register a binding as the canonical store for its data: its id goes
    /// into the innermost open node, its value into the store.
    pub fn register<T: ValueType>(&mut self, binding: &Binding<T>)
        requires
            old(self).spec_tree().len() >= 1,
            !old(self).spec_storage().contains_key(binding.spec_id().raw()),
        ensures
            final(self).spec_tree().len() == old(self).spec_tree().len(),
            final(self).spec_tree().drop_last() == old(self).spec_tree().drop_last(),
            final(self).spec_tree().last().spec_data() == old(self).spec_tree().last().spec_data().insert(
                binding.spec_id().raw(),
            ),
            final(self).spec_tree().last().spec_children() == old(self).spec_tree().last().spec_children(),
            final(self).spec_storage() == old(self).spec_storage().insert(
                binding.spec_id().raw(),
                binding.spec_value().as_value(),
            ),
            final(self).spec_changes() == old(self).spec_changes(),
    {
        let mut node = self.tree.pop().unwrap();
        node.insert_data(binding.id().to_raw());
        self.tree.push(node);
        self.store.insert(binding);
    }

    /// Bind to data registered elsewhere: its id goes into the innermost open
    /// node, and the binding takes the stored value, which must be of its kind.
    pub fn bind<T: ValueType>(&mut self, binding: &mut Binding<T>)
        requires
            old(self).spec_tree().len() >= 1,
            old(self).spec_storage().contains_key(old(binding).spec_id().raw()),
            old(self).spec_storage()[old(binding).spec_id().raw()].kind() == T::kind(),
        ensures
            final(self).spec_tree().len() == old(self).spec_tree().len(),
            final(self).spec_tree().drop_last() == old(self).spec_tree().drop_last(),
            final(self).spec_tree().last().spec_data() == old(self).spec_tree().last().spec_data().insert(
                old(binding).spec_id().raw(),
            ),
            final(self).spec_tree().last().spec_children() == old(self).spec_tree().last().spec_children(),
            final(self).spec_storage() == old(self).spec_storage(),
            final(self).spec_changes() == old(self).spec_changes(),
            final(binding).spec_id() == old(binding).spec_id(),
            T::from_value(old(self).spec_storage()[old(binding).spec_id().raw()]) == Some(
                final(binding).spec_value(),
            ),
    {
        let mut node = self.tree.pop().unwrap();
        node.insert_data(binding.id().to_raw());
        self.tree.push(node);
        proof {
            T::lemma_value_roundtrip(binding.spec_value(), self.store.spec_storage()[binding.spec_id().raw()]);
        }
        match self.store.get_value(binding) {
            Ok(v) => binding.set_value(v),
            Err(_) => {},
        }
    }
}

/// Walks the attribute tree alongside an update pass: a stack of the nodes
/// entered, each with the index of its next child.
pub struct UpdateCursor<'a> {
    stack: Vec<(&'a AttributeNode, usize)>,
}

impl<'a> UpdateCursor<'a> {
    /// The nodes entered, the root first, each with its next child's index.
    pub closed spec fn spec_stack(&self) -> Seq<(AttributeNode, usize)> {
        self.stack@.map_values(|e: (&'a AttributeNode, usize)| (*e.0, e.1))
    }

    /// Start at `root`, before its first child.
    pub fn new(root: &'a AttributeNode) -> (c: Self)
        ensures
            c.spec_stack() == seq![(*root, 0usize)],
    {
        let mut stack: Vec<(&'a AttributeNode, usize)> = Vec::new();
        stack.push((root, 0));
        let c = UpdateCursor { stack };
        assert(c.spec_stack() =~= seq![(*root, 0usize)]);
        c
    }

    /// The node the update pass is in.
    pub fn current(&self) -> (n: &'a AttributeNode)
        requires
            self.spec_stack().len() >= 1,
        ensures
            *n == self.spec_stack().last().0,
    {
        self.stack[self.stack.len() - 1].0
    }

    /// Whether the update pass goes into the node it is in.
    pub fn should_recurse(&self, store: &AttributeStore) -> (b: bool)
        requires
            self.spec_stack().len() >= 1,
        ensures
            b == exists|id: u64|
                store.spec_changes().contains(id) && self.spec_stack().last().0.spec_data().contains(id),
    {
        store.should_recurse(self.current())
    }

    /// Enter the next child of the current node.
    pub fn start_child(&mut self)
        requires
            old(self).spec_stack().len() >= 1,
            old(self).spec_stack().last().1 < old(self).spec_stack().last().0.spec_children().len(),
        ensures
            final(self).spec_stack() == old(self).spec_stack().push(
                (old(self).spec_stack().last().0.spec_children()[old(self).spec_stack().last().1 as int], 0usize),
            ),
    {
        let (node, idx) = self.stack[self.stack.len() - 1];
        let child: &'a AttributeNode = &node.children[idx];
        let ghost before = self.stack@;
        self.stack.push((child, 0));
        assert(self.spec_stack() =~= old(self).spec_stack().push((*child, 0usize)));
    }

    /// Leave the current node; its parent moves on to its next child.
    pub fn end_child(&mut self)
        requires
            old(self).spec_stack().len() >= 2,
            old(self).spec_stack()[old(self).spec_stack().len() - 2].1 < usize::MAX,
        ensures
            ({
                let s = old(self).spec_stack();
                let n = s.len();
                final(self).spec_stack() == s.subrange(0, n - 2).push((s[n - 2].0, (s[n - 2].1 + 1) as usize))
            }),
    {
        let ghost s = self.stack@;
        self.stack.pop();
        let (node, idx) = self.stack.pop().unwrap();
        self.stack.push((node, idx + 1));
        assert(self.stack@ =~= s.subrange(0, s.len() - 2).push((node, (idx + 1) as usize)));
        assert(self.spec_stack() =~= old(self).spec_stack().subrange(0, s.len() - 2).push(
            (*node, (idx + 1) as usize),
        ));
    }

    /// Bring a binding up to date: when its value changed, it takes the
    /// stored value, which must be of its kind; otherwise it is left alone.
    pub fn update<T: ValueType>(&self, store: &AttributeStore, binding: &mut Binding<T>)
        requires
            store.spec_changes().contains(old(binding).spec_id().raw()) ==> {
                &&& store.spec_storage().contains_key(old(binding).spec_id().raw())
                &&& store.spec_storage()[old(binding).spec_id().raw()].kind() == T::kind()
            },
        ensures
            final(binding).spec_id() == old(binding).spec_id(),
            store.spec_changes().contains(old(binding).spec_id().raw()) ==> T::from_value(
                store.spec_storage()[old(binding).spec_id().raw()],
            ) == Some(final(binding).spec_value()),
            !store.spec_changes().contains(old(binding).spec_id().raw()) ==> final(binding).spec_value()
                == old(binding).spec_value(),
    {
        if !store.changed(binding.id()) {
            return;
        }
        proof {
            T::lemma_value_roundtrip(binding.spec_value(), store.spec_storage()[binding.spec_id().raw()]);
        }
        match store.get_value(binding) {
            Ok(v) => binding.set_value(v),
            Err(_) => {},
        }
    }

    /// How deep below the root the update pass is.
    pub fn tree_depth(&self) -> (d: usize)
        requires
            self.spec_stack().len() >= 1,
        ensures
            d == self.spec_stack().len() - 1,
    {
        self.stack.len() - 1
    }
}

/// Data registered in a subtree is visible at its parent once the subtree is
/// closed (`add_child` makes the parent's data the union of both), so an
/// update pass that would enter the subtree enters the parent too.
pub proof fn law_child_data_reaches_parent(parent: AttributeNode, child: AttributeNode, changes: Set<u64>)
    ensures
        child.spec_data().subset_of(parent.spec_data().union(child.spec_data())),
        parent.spec_data().subset_of(parent.spec_data().union(child.spec_data())),
        (exists|id: u64| changes.contains(id) && child.spec_data().contains(id)) ==> (exists|id: u64|
            changes.contains(id) && parent.spec_data().union(child.spec_data()).contains(id)),
{
}

/// What a read gives back of a write: after a binding's value is set, the
/// store gives back exactly that value for the binding, and the values of
/// other bindings are untouched; and the change is recorded, so an update
/// pass enters every node whose data holds the binding.
pub proof fn law_read_gives_back_write<T: ValueType>(
    storage: Map<u64, Value>,
    changes: Set<u64>,
    id: u64,
    new: T,
    other: u64,
    node: AttributeNode,
)
    requires
        other != id,
    ensures
        T::from_value(storage.insert(id, new.as_value())[id]) == Some(new),
        storage.insert(id, new.as_value())[id].kind() == T::kind(),
        storage.contains_key(other) ==> storage.insert(id, new.as_value())[other] == storage[other],
        node.spec_data().contains(id) ==> exists|c: u64| changes.insert(id).contains(c) && node.spec_data().contains(c),
{
    T::lemma_value_roundtrip(new, new.as_value());
    if node.spec_data().contains(id) {
        assert(changes.insert(id).contains(id));
    }
}

} // verus!
