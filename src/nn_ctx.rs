//! Host state for machine-learning inference: handle tables of loaded graphs
//! and their execution contexts.
use vstd::prelude::*;
use std::collections::HashMap;
use std::collections::hash_map::Entry;

verus! {

/// Graph encodings a guest can ask for.
#[derive(Clone, Copy, Debug, PartialEq, Eq, Structural)]
pub enum GraphEncoding {
    Openvino,
    Onnx,
    Tensorflow,
    Pytorch,
    Tensorflowlite,
    Autodetect,
}

/// Ways a guest can misuse the inference interface.
#[derive(Debug)]
pub enum UsageError {
    /// No graph was loaded before it was used.
    InvalidContext,
    /// The backend does not accept this encoding.
    InvalidEncoding(GraphEncoding),
    /// The backend expects a different number of graph builders.
    InvalidNumberOfBuilders(u32),
    /// The graph handle names no loaded graph.
    InvalidGraphHandle,
    /// The handle names no initialized execution context.
    InvalidExecutionContextHandle,
    /// The guest buffer cannot hold tensor data of this size.
    NotEnoughMemory(u32),
    /// No graph is registered under this name.
    NotFound(String),
}

/// A table of handle entries; handles are handed out in order, from 0, and
/// never reused.
pub struct Table<V> {
    entries: HashMap<u32, V>,
    next_key: u32,
}

impl<V> Default for Table<V> {
    fn default() -> (r: Table<V>)
        ensures
            r@ == Map::<u32, V>::empty(),
            r.next_key_spec() == 0,
            r.wf(),
    {
        Table { entries: HashMap::new(), next_key: 0 }
    }
}

impl<V> Table<V> {
    /// The entries, by handle.
    pub closed spec fn view(&self) -> Map<u32, V> {
        self.entries@
    }

    /// The handle the next insertion gets.
    pub closed spec fn next_key_spec(&self) -> u32 {
        self.next_key
    }

    /// Every handle in use was handed out before.
    pub closed spec fn wf(&self) -> bool {
        forall|k: u32| #[trigger] self.entries@.contains_key(k) ==> k < self.next_key
    }

    /// Stores `value` under a fresh handle and returns the handle.
    pub fn insert(&mut self, value: V) -> (key: u32)
        requires
            old(self).wf(),
            old(self).next_key_spec() < u32::MAX,
        ensures
            key == old(self).next_key_spec(),
            !old(self)@.contains_key(key),
            final(self)@ == old(self)@.insert(key, value),
            final(self).next_key_spec() == old(self).next_key_spec() + 1,
            final(self).wf(),
    {
        broadcast use vstd::std_specs::hash::group_hash_axioms;
        let key = self.use_next_key();
        self.entries.insert(key, value);
        key
    }

    /// The entry under handle `key`, to modify in place.
    pub fn get_mut(&mut self, key: u32) -> (r: Option<&mut V>)
        ensures
            final(self).next_key_spec() == old(self).next_key_spec(),
            match r {
                Some(v) => {
                    &&& old(self)@.contains_key(key)
                    &&& *v == old(self)@[key]
                    &&& final(self)@ == old(self)@.insert(key, *final(v))
                },
                None => {
                    &&& !old(self)@.contains_key(key)
                    &&& final(self)@ == old(self)@
                },
            },
    {
        broadcast use vstd::std_specs::hash::group_hash_axioms;
        match self.entries.entry(key) {
            Entry::Occupied(o) => Some(o.into_mut()),
            Entry::Vacant(_) => None,
        }
    }

    fn use_next_key(&mut self) -> (key: u32)
        requires
            old(self).next_key < u32::MAX,
        ensures
            key == old(self).next_key,
            final(self).next_key == old(self).next_key + 1,
            final(self).entries@ == old(self).entries@,
    {
        let current = self.next_key;
        self.next_key += 1;
        current
    }
}

/// The state needed to call into the inference backends: the backends, and
/// the tables of loaded graphs and of execution contexts.
pub struct WasiNnCtx<B, G, X> {
    pub backends: B,
    pub graphs: Table<G>,
    pub executions: Table<X>,
}

impl<B, G, X> WasiNnCtx<B, G, X> {
    /// A context over `backends`, with no graph and no execution context.
    pub fn new(backends: B) -> (r: Self)
        ensures
            r.backends == backends,
            r.graphs@ == Map::<u32, G>::empty(),
            r.graphs.next_key_spec() == 0,
            r.graphs.wf(),
            r.executions@ == Map::<u32, X>::empty(),
            r.executions.next_key_spec() == 0,
            r.executions.wf(),
    {
        WasiNnCtx { backends, graphs: Table::default(), executions: Table::default() }
    }
}

impl<B: Default, G, X> Default for WasiNnCtx<B, G, X> {
    fn default() -> (r: Self)
        ensures
            r.graphs@ == Map::<u32, G>::empty(),
            r.executions@ == Map::<u32, X>::empty(),
    {
        WasiNnCtx::new(B::default())
    }
}

} // verus!
