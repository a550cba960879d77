use vstd::prelude::*;

use crate::types::ModuleType;

verus! {

/// One entry of the module table: the kind of module and its index among
/// the modules of that kind.
pub type ModuleEntry = (ModuleType, usize);

/// How many entries of `entries` are of kind `t`.
pub open spec fn count_of_type(entries: Seq<ModuleEntry>, t: ModuleType) -> nat
    decreases entries.len(),
{
    if entries.len() == 0 {
        0
    } else {
        count_of_type(entries.drop_last(), t) + if entries.last().0 == t {
            1nat
        } else {
            0nat
        }
    }
}

/// The module table built from a list of requested module kinds: every kind
/// but `Output` (which is not a routable module) gets an entry, numbered
/// within its kind in the order of the request.
pub open spec fn module_layout(types: Seq<ModuleType>) -> Seq<ModuleEntry>
    decreases types.len(),
{
    if types.len() == 0 {
        Seq::empty()
    } else {
        let prev = module_layout(types.drop_last());
        let t = types.last();
        if t == ModuleType::Output {
            prev
        } else {
            prev.push((t, count_of_type(prev, t) as usize))
        }
    }
}

/// A module that produces samples: the audio output (id `0`) or a module of the table.
#[derive(Clone, Copy, Debug, PartialEq, Eq, Structural)]
pub enum ModuleRef {
    /// the audio output, which produces no samples
    AudioOut,
    /// the module of the given kind and index within its kind
    Module(ModuleType, usize),
}

/// Which module, if any, answers to module id `id` as a sample source.
pub open spec fn source_spec(entries: Seq<ModuleEntry>, id: int) -> Option<ModuleRef> {
    if id == 0 {
        Some(ModuleRef::AudioOut)
    } else if id - 1 < entries.len() && entries[id - 1].0 != ModuleType::Output {
        Some(ModuleRef::Module(entries[id - 1].0, entries[id - 1].1))
    } else {
        None
    }
}

/// Which module receives samples addressed to module id `id`.
pub open spec fn destination_spec(entries: Seq<ModuleEntry>, id: int) -> Option<ModuleEntry> {
    if id == 0 || entries[id - 1].0 == ModuleType::Output {
        None
    } else {
        Some(entries[id - 1])
    }
}

proof fn lemma_count_bounded(entries: Seq<ModuleEntry>, t: ModuleType)
    ensures
        count_of_type(entries, t) <= entries.len(),
    decreases entries.len(),
{
    if entries.len() > 0 {
        lemma_count_bounded(entries.drop_last(), t);
    }
}

/// The table of the routable modules. The entry at position `k` is the module
/// with id `k + 1`; id `0` is the audio output.
#[derive(Clone, Debug)]
pub struct Modules {
    /// the kind and per-kind index of each module, in id order
    pub indices: Vec<ModuleEntry>,
}

/// Counts the entries of kind `t`.
fn count_entries(entries: &Vec<ModuleEntry>, t: ModuleType) -> (n: usize)
    ensures
        n == count_of_type(entries@, t),
{
    let mut n: usize = 0;
    let mut j: usize = 0;
    while j < entries.len()
        invariant
            j <= entries.len(),
            n == count_of_type(entries@.take(j as int), t),
        decreases entries.len() - j,
    {
        assert(entries@.take(j + 1).drop_last() =~= entries@.take(j as int));
        proof {
            lemma_count_bounded(entries@.take(j as int), t);
        }
        if entries[j].0 == t {
            n = n + 1;
        }
        j = j + 1;
    }
    assert(entries@.take(entries.len() as int) =~= entries@);
    n
}

impl Modules {
    /// Builds the module table for the requested module kinds, in order.
    /// `Output` requests are skipped: the audio output always exists as id `0`.
    pub fn from(types: &[ModuleType]) -> (m: Modules)
        ensures
            m.indices@ == module_layout(types@),
    {
        let mut indices: Vec<ModuleEntry> = Vec::new();
        let mut i: usize = 0;
        while i < types.len()
            invariant
                i <= types.len(),
                indices@ == module_layout(types@.take(i as int)),
            decreases types.len() - i,
        {
            assert(types@.take(i + 1).drop_last() =~= types@.take(i as int));
            let t = types[i];
            if t != ModuleType::Output {
                let n = count_entries(&indices, t);
                indices.push((t, n));
            }
            i = i + 1;
        }
        assert(types@.take(types.len() as int) =~= types@);
        Modules { indices }
    }

    /// The module that produces the samples of module id `id`: the audio
    /// output for `0`, nothing for an id past the table or naming an
    /// `Output` entry.
    pub fn source_of(&self, id: usize) -> (r: Option<ModuleRef>)
        ensures
            r == source_spec(self.indices@, id as int),
    {
        if id == 0 {
            return Some(ModuleRef::AudioOut);
        }
        if id - 1 < self.indices.len() {
            let (t, i) = self.indices[id - 1];
            if t != ModuleType::Output {
                return Some(ModuleRef::Module(t, i));
            }
        }
        None
    }

    /// The number of leading module ids, starting at `0` and at most 255,
    /// that all produce samples: the ids a sample pass reads from.
    pub fn source_count(&self) -> (n: usize)
        ensures
            1 <= n <= 255,
            forall|id: int| 0 <= id < n ==> source_spec(self.indices@, id) is Some,
            n < 255 ==> source_spec(self.indices@, n as int) is None,
    {
        let mut n: usize = 1;
        while n < 255
            invariant
                1 <= n <= 255,
                forall|id: int| 0 <= id < n ==> source_spec(self.indices@, id) is Some,
            decreases 255 - n,
        {
            if self.source_of(n).is_none() {
                return n;
            }
            n = n + 1;
        }
        n
    }

    /// The module that receives samples sent to module id `id`: nothing for
    /// the audio output id `0` or an `Output` entry.
    pub fn destination_of(&self, id: usize) -> (r: Option<ModuleEntry>)
        requires
            id == 0 || id - 1 < self.indices@.len(),
        ensures
            r == destination_spec(self.indices@, id as int),
    {
        if id == 0 {
            return None;
        }
        let (t, i) = self.indices[id - 1];
        if t == ModuleType::Output {
            None
        } else {
            Some((t, i))
        }
    }
}

/// The id a module built at table position `position` is created with: its
/// own position, which sets it apart from every other module, whatever its
/// kind; truncated to a byte.
pub fn construction_id(position: usize, _kind: ModuleType) -> (id: u8)
    ensures
        id == position as u8,
{
    position as u8
}

/// The module table has at most one entry per requested kind.
pub proof fn lemma_layout_len_bounded(types: Seq<ModuleType>)
    ensures
        module_layout(types).len() <= types.len(),
    decreases types.len(),
{
    if types.len() > 0 {
        lemma_layout_len_bounded(types.drop_last());
    }
}

/// The module table numbers each kind in build order: the index of an
/// entry within its kind is the number of entries of that kind before it.
pub proof fn law_table_numbers_each_kind_in_order(types: Seq<ModuleType>, i: int)
    requires
        types.len() <= usize::MAX,
        0 <= i < module_layout(types).len(),
    ensures
        module_layout(types)[i].1 == count_of_type(
            module_layout(types).take(i),
            module_layout(types)[i].0,
        ),
    decreases types.len(),
{
    let prev = module_layout(types.drop_last());
    let t = types.last();
    if t == ModuleType::Output {
        law_table_numbers_each_kind_in_order(types.drop_last(), i);
    } else {
        let l = prev.push((t, count_of_type(prev, t) as usize));
        lemma_count_bounded(prev, t);
        lemma_layout_len_bounded(types.drop_last());
        if i < prev.len() {
            law_table_numbers_each_kind_in_order(types.drop_last(), i);
            assert(l.take(i) =~= prev.take(i));
        } else {
            assert(l.take(i) =~= prev);
        }
    }
}

/// No entry of the module table is of kind `Output`.
pub proof fn lemma_layout_has_no_output(types: Seq<ModuleType>)
    ensures
        forall|k: int|
            0 <= k < module_layout(types).len() ==> (#[trigger] module_layout(types)[k]).0
                != ModuleType::Output,
    decreases types.len(),
{
    if types.len() > 0 {
        lemma_layout_has_no_output(types.drop_last());
    }
}

/// Every module built from a list of kinds is read in a sample pass: each
/// id from `0` (the audio output) to the number of built modules answers
/// as a source, and the id after them does not.
pub proof fn law_every_built_module_is_a_source(types: Seq<ModuleType>)
    ensures
        forall|id: int|
            0 <= id <= module_layout(types).len() ==> #[trigger] source_spec(
                module_layout(types),
                id,
            ) is Some,
        source_spec(module_layout(types), module_layout(types).len() + 1int) is None,
{
    lemma_layout_has_no_output(types);
}

/// The requested kinds that get a table entry: all but `Output`, in order.
pub open spec fn routable_kinds(types: Seq<ModuleType>) -> Seq<ModuleType> {
    types.filter(|t: ModuleType| t != ModuleType::Output)
}

/// Every requested kind other than `Output` gets exactly one table entry,
/// in request order: the table is as long as the list of those kinds, and
/// its `k`-th entry is of the `k`-th such kind.
pub proof fn law_one_entry_per_routable_kind(types: Seq<ModuleType>)
    ensures
        module_layout(types).len() == routable_kinds(types).len(),
        forall|k: int|
            0 <= k < module_layout(types).len() ==> (#[trigger] module_layout(types)[k]).0
                == routable_kinds(types)[k],
    decreases types.len(),
{
    reveal_with_fuel(Seq::filter, 1);
    if types.len() > 0 {
        law_one_entry_per_routable_kind(types.drop_last());
        let prev = module_layout(types.drop_last());
        let rprev = routable_kinds(types.drop_last());
        assert(routable_kinds(types) == if types.last() != ModuleType::Output {
            rprev.push(types.last())
        } else {
            rprev
        });
        if types.last() != ModuleType::Output {
            assert forall|k: int| 0 <= k < module_layout(types).len() implies (
            #[trigger] module_layout(types)[k]).0 == routable_kinds(types)[k] by {
                if k < prev.len() {
                    assert(module_layout(types)[k] == prev[k]);
                }
            }
        }
    }
}

/// The table holds one module of kind `t` per request for `t`, for every
/// kind but `Output`, of which it holds none.
pub proof fn law_table_counts_each_requested_kind(types: Seq<ModuleType>, t: ModuleType)
    ensures
        t != ModuleType::Output ==> count_of_type(module_layout(types), t) == types.filter(
            |x: ModuleType| x == t,
        ).len(),
        count_of_type(module_layout(types), ModuleType::Output) == 0,
    decreases types.len(),
{
    reveal_with_fuel(Seq::filter, 1);
    if types.len() > 0 {
        law_table_counts_each_requested_kind(types.drop_last(), t);
        let prev = module_layout(types.drop_last());
        let e = (types.last(), count_of_type(prev, types.last()) as usize);
        assert(prev.push(e).drop_last() =~= prev);
        let f = |x: ModuleType| x == t;
        assert(types.filter(f) == if f(types.last()) {
            types.drop_last().filter(f).push(types.last())
        } else {
            types.drop_last().filter(f)
        });
    }
}

} // verus!
