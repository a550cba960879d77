use vstd::prelude::*;

use crate::common;
use crate::error::SynthError;
use crate::router::{
    count_of_type, law_table_numbers_each_kind_in_order, lemma_layout_has_no_output, module_layout,
    source_spec, destination_spec, ModuleEntry, ModuleRef, Modules,
};
use crate::synth::{entry_positions, lemma_kth_position_entry, lemma_positions_count};
use crate::types::{Connection, ModuleType};

verus! {

/// `cons` with every copy of `c` taken out, the others kept in order.
pub open spec fn without(cons: Seq<Connection>, c: Connection) -> Seq<Connection>
    decreases cons.len(),
{
    if cons.len() == 0 {
        cons
    } else if cons.last() == c {
        without(cons.drop_last(), c)
    } else {
        without(cons.drop_last(), c).push(cons.last())
    }
}

/// The connection list after a request to make connection `c`: unchanged
/// when `c` is already made, else `c` appended.
pub open spec fn connect_spec(cons: Seq<Connection>, c: Connection) -> Seq<Connection> {
    if cons.contains(c) {
        cons
    } else {
        cons.push(c)
    }
}

/// The connection list after a request to undo connection `c`.
pub open spec fn disconnect_spec(cons: Seq<Connection>, c: Connection) -> Seq<Connection> {
    without(cons, c)
}

/// The connection list after the requests `reqs` are made one after another.
pub open spec fn connect_all(cons: Seq<Connection>, reqs: Seq<Connection>) -> Seq<Connection>
    decreases reqs.len(),
{
    if reqs.len() == 0 {
        cons
    } else {
        connect_spec(connect_all(cons, reqs.drop_last()), reqs.last())
    }
}

/// The state the synthesizer's patch-bay works on: the connections that are
/// made, and the table of modules they join.
#[derive(Clone, Debug)]
pub struct Controller {
    /// the list of connections, in the order they were made
    pub connections: Vec<Connection>,
    /// the routable modules
    pub modules: Modules,
}

impl Controller {
    /// A patch-bay with no connections over the modules built from `to_build`.
    pub fn new(to_build: &[ModuleType]) -> (c: Controller)
        ensures
            c.connections@ == Seq::<Connection>::empty(),
            c.modules.indices@ == module_layout(to_build@),
    {
        Controller { connections: Vec::new(), modules: Modules::from(to_build) }
    }

    /// Connects output `src_output` of module `src_module` to input
    /// `dest_input` of module `dest_module`. Refused when that connection is
    /// already made.
    pub fn connect(&mut self, src_module: u8, src_output: u8, dest_module: u8, dest_input: u8) -> (r:
        Result<(), SynthError>)
        ensures
            ({
                let con = Connection { src_module, src_output, dest_module, dest_input };
                &&& old(self).connections@.contains(con) ==> r == Err::<(), SynthError>(
                    SynthError::AlreadyConnected,
                )
                &&& !old(self).connections@.contains(con) ==> r == Ok::<(), SynthError>(())
                &&& final(self).connections@ == connect_spec(old(self).connections@, con)
            }),
            final(self).modules == old(self).modules,
    {
        let con = Connection { src_module, src_output, dest_module, dest_input };
        if !self.is_connectable(con) {
            return Err(SynthError::NotConnectable);
        }
        if self.is_connected(con) {
            return Err(SynthError::AlreadyConnected);
        }
        self.connections.push(con);
        Ok(())
    }

    /// Undoes the connection from output `src_output` of module `src_module`
    /// to input `dest_input` of module `dest_module`. Refused when that
    /// connection is not made.
    pub fn disconnect(&mut self, src_module: u8, src_output: u8, dest_module: u8, dest_input: u8) -> (r:
        Result<(), SynthError>)
        ensures
            ({
                let con = Connection { src_module, src_output, dest_module, dest_input };
                &&& old(self).connections@.contains(con) ==> r == Ok::<(), SynthError>(())
                &&& !old(self).connections@.contains(con) ==> r == Err::<(), SynthError>(
                    SynthError::NotConnected,
                )
                &&& final(self).connections@ == disconnect_spec(old(self).connections@, con)
            }),
            final(self).modules == old(self).modules,
    {
        let con = Connection { src_module, src_output, dest_module, dest_input };
        if !self.is_connected(con) {
            proof {
                lemma_without_absent(self.connections@, con);
            }
            return Err(SynthError::NotConnected);
        }
        let mut kept: Vec<Connection> = Vec::new();
        let mut i: usize = 0;
        while i < self.connections.len()
            invariant
                i <= self.connections.len(),
                kept@ == without(self.connections@.take(i as int), con),
            decreases self.connections.len() - i,
        {
            assert(self.connections@.take(i + 1).drop_last() =~= self.connections@.take(i as int));
            let c = self.connections[i];
            if c != con {
                kept.push(c);
            }
            i = i + 1;
        }
        assert(self.connections@.take(self.connections.len() as int) =~= self.connections@);
        self.connections = kept;
        Ok(())
    }

    /// Undoes every connection.
    pub fn disconnect_all(&mut self)
        ensures
            final(self).connections@ == Seq::<Connection>::empty(),
            final(self).modules == old(self).modules,
    {
        self.connections.clear();
    }

    /// Whether the connection can be made at all; every connection can.
    fn is_connectable(&self, _connection: Connection) -> (r: bool)
        ensures
            r,
    {
        true
    }

    /// Whether the connection is already made.
    fn is_connected(&self, connection: Connection) -> (r: bool)
        ensures
            r == self.connections@.contains(connection),
    {
        let mut i: usize = 0;
        while i < self.connections.len()
            invariant
                i <= self.connections.len(),
                forall|j: int| 0 <= j < i ==> self.connections@[j] != connection,
            decreases self.connections.len() - i,
        {
            if self.connections[i] == connection {
                return true;
            }
            i = i + 1;
        }
        false
    }
}

/// The positions of `ts` that hold module kind `t`, in order.
pub open spec fn positions_of(ts: Seq<common::ModuleType>, t: common::ModuleType) -> Seq<usize>
    decreases ts.len(),
{
    if ts.len() == 0 {
        Seq::empty()
    } else if ts.last() == t {
        positions_of(ts.drop_last(), t).push((ts.len() - 1) as usize)
    } else {
        positions_of(ts.drop_last(), t)
    }
}

/// Pairs an oscillator with the envelope filter that shapes it.
#[derive(Clone, Copy, Debug)]
pub struct OscilatorId {
    /// the index of the VCO which will synthesize the note
    pub vco: usize,
    /// the index of the corresponding filter (the filter corresponding to `self.vco`)
    pub env: usize,
}

impl OscilatorId {
    /// Pairs the `k`-th VCO of `mod_types` with its `k`-th envelope filter,
    /// for as many pairs as both kinds allow.
    pub fn new_s(mod_types: &[common::ModuleType]) -> (r: Result<Vec<OscilatorId>, SynthError>)
        ensures
            r is Ok,
            ({
                let vcos = positions_of(mod_types@, common::ModuleType::Vco);
                let envs = positions_of(mod_types@, common::ModuleType::EnvFilter);
                let ids = r->Ok_0@;
                &&& ids.len() == if vcos.len() <= envs.len() {
                    vcos.len()
                } else {
                    envs.len()
                }
                &&& forall|k: int|
                    0 <= k < ids.len() ==> (#[trigger] ids[k]).vco == vcos[k] && ids[k].env == envs[k]
            }),
    {
        let mut vco_i_s: Vec<usize> = Vec::new();
        let mut filter_i_s: Vec<usize> = Vec::new();
        let mut i: usize = 0;
        while i < mod_types.len()
            invariant
                i <= mod_types.len(),
                vco_i_s@ == positions_of(mod_types@.take(i as int), common::ModuleType::Vco),
                filter_i_s@ == positions_of(
                    mod_types@.take(i as int),
                    common::ModuleType::EnvFilter,
                ),
            decreases mod_types.len() - i,
        {
            assert(mod_types@.take(i + 1).drop_last() =~= mod_types@.take(i as int));
            match mod_types[i] {
                common::ModuleType::Vco => vco_i_s.push(i),
                common::ModuleType::EnvFilter => filter_i_s.push(i),
                _ => {},
            }
            i = i + 1;
        }
        assert(mod_types@.take(mod_types.len() as int) =~= mod_types@);
        let mut ids: Vec<OscilatorId> = Vec::new();
        let mut k: usize = 0;
        while k < vco_i_s.len() && k < filter_i_s.len()
            invariant
                k <= vco_i_s.len(),
                k <= filter_i_s.len(),
                vco_i_s@ == positions_of(mod_types@, common::ModuleType::Vco),
                filter_i_s@ == positions_of(mod_types@, common::ModuleType::EnvFilter),
                ids@.len() == k,
                forall|j: int|
                    0 <= j < k ==> (#[trigger] ids@[j]).vco == vco_i_s@[j] && ids@[j].env
                        == filter_i_s@[j],
            decreases vco_i_s.len() - k,
        {
            ids.push(OscilatorId { vco: vco_i_s[k], env: filter_i_s[k] });
            k = k + 1;
        }
        Ok(ids)
    }

    /// returns (vco_id, env_id)
    pub fn get(&self) -> (r: (usize, usize))
        ensures
            r == (self.vco, self.env),
    {
        (self.vco, self.env)
    }
}

/// How a connection reads to a person: source kind, output, index within
/// its kind; destination kind, input, index within its kind.
pub type ConnectionView = (ModuleType, u8, usize, ModuleType, u8, usize);

/// A connection can be shown when its source is a module of the table and
/// its destination is the audio output or a module of the table.
pub open spec fn describable(entries: Seq<ModuleEntry>, c: Connection) -> bool {
    &&& 1 <= c.src_module <= entries.len()
    &&& c.dest_module <= entries.len()
}

/// How connection `c` reads over the module table `entries`.
pub open spec fn describe_connection(entries: Seq<ModuleEntry>, c: Connection) -> ConnectionView {
    (
        entries[c.src_module - 1].0,
        c.src_output,
        entries[c.src_module - 1].1,
        if c.dest_module >= 1 {
            entries[c.dest_module - 1].0
        } else {
            ModuleType::Output
        },
        c.dest_input,
        if c.dest_module >= 1 {
            entries[c.dest_module - 1].1
        } else {
            0
        },
    )
}

/// `k` is the first position of `key` in `entries`.
pub open spec fn first_position(entries: Seq<ModuleEntry>, key: ModuleEntry, k: int) -> bool {
    &&& 0 <= k < entries.len()
    &&& entries[k] == key
    &&& forall|j: int| 0 <= j < k ==> entries[j] != key
}

/// The module id of the `idx`-th module of kind `t`: `0` for the audio
/// output, else one more than its first position in the table.
pub open spec fn module_id_spec(entries: Seq<ModuleEntry>, t: ModuleType, idx: usize) -> Option<int> {
    if t == ModuleType::Output {
        Some(0)
    } else if exists|k: int| first_position(entries, (t, idx), k) {
        Some((choose|k: int| first_position(entries, (t, idx), k)) + 1)
    } else {
        None
    }
}

/// The module id of a found module fits in a byte.
pub open spec fn module_id_fits(entries: Seq<ModuleEntry>, t: ModuleType, idx: usize) -> bool {
    module_id_spec(entries, t, idx) matches Some(id) ==> id <= 255
}

proof fn lemma_first_position_unique(entries: Seq<ModuleEntry>, key: ModuleEntry, a: int, b: int)
    requires
        first_position(entries, key, a),
        first_position(entries, key, b),
    ensures
        a == b,
{
}

/// Finds the module id of the `idx`-th module of kind `t`.
fn find_module_id(entries: &Vec<ModuleEntry>, t: ModuleType, idx: usize) -> (r: Option<usize>)
    ensures
        match r {
            Some(id) => module_id_spec(entries@, t, idx) == Some(id as int),
            None => module_id_spec(entries@, t, idx) is None,
        },
{
    if t == ModuleType::Output {
        return Some(0);
    }
    let mut k: usize = 0;
    while k < entries.len()
        invariant
            k <= entries.len(),
            t != ModuleType::Output,
            forall|j: int| 0 <= j < k ==> entries@[j] != (t, idx),
        decreases entries.len() - k,
    {
        if entries[k].0 == t && entries[k].1 == idx {
            proof {
                assert(first_position(entries@, (t, idx), k as int));
                assert(exists|c: int| first_position(entries@, (t, idx), c));
                let c = choose|k: int| first_position(entries@, (t, idx), k);
                lemma_first_position_unique(entries@, (t, idx), c, k as int);
            }
            return Some(k + 1);
        }
        k = k + 1;
    }
    None
}

impl Controller {
    /// The module id of the `idx`-th module of kind `t` (see `module_id_spec`).
    pub fn module_id(&self, t: ModuleType, idx: usize) -> (r: Option<usize>)
        ensures
            match r {
                Some(id) => module_id_spec(self.modules.indices@, t, idx) == Some(id as int),
                None => module_id_spec(self.modules.indices@, t, idx) is None,
            },
    {
        find_module_id(&self.modules.indices, t, idx)
    }

    /// Whether every connection can be shown (see `describable`).
    pub fn connections_describable(&self) -> (r: bool)
        ensures
            r == forall|i: int|
                0 <= i < self.connections@.len() ==> describable(
                    self.modules.indices@,
                    #[trigger] self.connections@[i],
                ),
    {
        let n = self.modules.indices.len();
        let mut i: usize = 0;
        while i < self.connections.len()
            invariant
                i <= self.connections@.len(),
                n == self.modules.indices@.len(),
                forall|j: int|
                    0 <= j < i ==> describable(
                        self.modules.indices@,
                        #[trigger] self.connections@[j],
                    ),
            decreases self.connections.len() - i,
        {
            let c = self.connections[i];
            if c.src_module < 1 || c.src_module as usize > n || c.dest_module as usize > n {
                assert(!describable(self.modules.indices@, self.connections@[i as int]));
                return false;
            }
            i = i + 1;
        }
        true
    }

    /// Every connection, as it reads to a person (see `describe_connection`).
    pub fn connection_list(&self) -> (r: Vec<ConnectionView>)
        requires
            forall|i: int|
                0 <= i < self.connections@.len() ==> describable(
                    self.modules.indices@,
                    #[trigger] self.connections@[i],
                ),
        ensures
            r@.len() == self.connections@.len(),
            forall|i: int|
                0 <= i < r@.len() ==> #[trigger] r@[i] == describe_connection(
                    self.modules.indices@,
                    self.connections@[i],
                ),
    {
        let mut r: Vec<ConnectionView> = Vec::new();
        let mut i: usize = 0;
        while i < self.connections.len()
            invariant
                i <= self.connections.len(),
                r@.len() == i,
                forall|i: int|
                    0 <= i < self.connections@.len() ==> describable(
                        self.modules.indices@,
                        #[trigger] self.connections@[i],
                    ),
                forall|j: int|
                    0 <= j < i ==> #[trigger] r@[j] == describe_connection(
                        self.modules.indices@,
                        self.connections@[j],
                    ),
            decreases self.connections.len() - i,
        {
            let con = self.connections[i];
            assert(describable(self.modules.indices@, con));
            let src = self.modules.indices[(con.src_module - 1) as usize];
            let (dest_type, dest_index) = if con.dest_module >= 1 {
                self.modules.indices[(con.dest_module - 1) as usize]
            } else {
                (ModuleType::Output, 0)
            };
            r.push((src.0, con.src_output, src.1, dest_type, con.dest_input, dest_index));
            i = i + 1;
        }
        r
    }

    /// Connects the output `src_mod.2` of the `src_mod.1`-th module of kind
    /// `src_mod.0` to the input `dest_mod.2` of the `dest_mod.1`-th module of
    /// kind `dest_mod.0`: `None` when either module is not in the table;
    /// otherwise the connection is requested with `connect` on their module
    /// ids and `Some(())` is returned, whether or not it was already made.
    pub fn connect_modules(&mut self, src_mod: (ModuleType, usize, u8), dest_mod: (
        ModuleType,
        usize,
        u8,
    )) -> (r: Option<()>)
        requires
            module_id_fits(old(self).modules.indices@, src_mod.0, src_mod.1),
            module_id_fits(old(self).modules.indices@, dest_mod.0, dest_mod.1),
        ensures
            final(self).modules == old(self).modules,
            ({
                let e = old(self).modules.indices@;
                let s = module_id_spec(e, src_mod.0, src_mod.1);
                let d = module_id_spec(e, dest_mod.0, dest_mod.1);
                let con = Connection {
                    src_module: s->Some_0 as u8,
                    src_output: src_mod.2,
                    dest_module: d->Some_0 as u8,
                    dest_input: dest_mod.2,
                };
                &&& (s is None || d is None) ==> r is None && final(self).connections@ == old(
                    self,
                ).connections@
                &&& (s is Some && d is Some) ==> {
                    &&& r == Some(())
                    &&& final(self).connections@ == connect_spec(old(self).connections@, con)
                }
            }),
    {
        let src_i = match find_module_id(&self.modules.indices, src_mod.0, src_mod.1) {
            Some(i) => i,
            None => return None,
        };
        let dest_i = match find_module_id(&self.modules.indices, dest_mod.0, dest_mod.1) {
            Some(i) => i,
            None => return None,
        };
        let _ = self.connect(src_i as u8, src_mod.2, dest_i as u8, dest_mod.2);
        Some(())
    }

    /// Undoes the connection from the output `src_mod.2` of the `src_mod.1`-th
    /// module of kind `src_mod.0` to the input `dest_mod.2` of the
    /// `dest_mod.1`-th module of kind `dest_mod.0`. `None` when either module
    /// is not in the table; otherwise the request is made with `disconnect`
    /// on their module ids and `Some(())` is returned, whether or not the
    /// connection was made.
    pub fn disconnect_modules(&mut self, src_mod: (ModuleType, usize, u8), dest_mod: (
        ModuleType,
        usize,
        u8,
    )) -> (r: Option<()>)
        requires
            module_id_fits(old(self).modules.indices@, src_mod.0, src_mod.1),
            module_id_fits(old(self).modules.indices@, dest_mod.0, dest_mod.1),
        ensures
            final(self).modules == old(self).modules,
            ({
                let e = old(self).modules.indices@;
                let s = module_id_spec(e, src_mod.0, src_mod.1);
                let d = module_id_spec(e, dest_mod.0, dest_mod.1);
                let con = Connection {
                    src_module: s->Some_0 as u8,
                    src_output: src_mod.2,
                    dest_module: d->Some_0 as u8,
                    dest_input: dest_mod.2,
                };
                &&& (s is None || d is None) ==> r is None && final(self).connections@ == old(
                    self,
                ).connections@
                &&& (s is Some && d is Some) ==> {
                    &&& r == Some(())
                    &&& final(self).connections@ == disconnect_spec(old(self).connections@, con)
                }
            }),
    {
        let src_i = match find_module_id(&self.modules.indices, src_mod.0, src_mod.1) {
            Some(i) => i,
            None => return None,
        };
        let dest_i = match find_module_id(&self.modules.indices, dest_mod.0, dest_mod.1) {
            Some(i) => i,
            None => return None,
        };
        let _ = self.disconnect(src_i as u8, src_mod.2, dest_i as u8, dest_mod.2);
        Some(())
    }
}

proof fn lemma_without_absent(cons: Seq<Connection>, c: Connection)
    requires
        !cons.contains(c),
    ensures
        without(cons, c) == cons,
    decreases cons.len(),
{
    if cons.len() > 0 {
        assert(!cons.drop_last().contains(c)) by {
            if cons.drop_last().contains(c) {
                let k = choose|k: int| 0 <= k < cons.drop_last().len() && cons.drop_last()[k] == c;
                assert(cons[k] == c);
            }
        }
        lemma_without_absent(cons.drop_last(), c);
        assert(cons.last() != c) by {
            assert(cons[cons.len() - 1] == cons.last());
        }
        assert(cons.drop_last().push(cons.last()) =~= cons);
    }
}

proof fn lemma_push_contains(s: Seq<Connection>, a: Connection, x: Connection)
    ensures
        s.push(a).contains(x) <==> (s.contains(x) || x == a),
{
    if s.push(a).contains(x) {
        let k = choose|k: int| 0 <= k < s.push(a).len() && s.push(a)[k] == x;
        if k < s.len() {
            assert(s[k] == x);
        }
    }
    if s.contains(x) {
        let k = choose|k: int| 0 <= k < s.len() && s[k] == x;
        assert(s.push(a)[k] == x);
    }
    if x == a {
        assert(s.push(a)[s.len() as int] == x);
    }
}

proof fn lemma_without_contains(cons: Seq<Connection>, c: Connection, x: Connection)
    ensures
        without(cons, c).contains(x) <==> (x != c && cons.contains(x)),
    decreases cons.len(),
{
    if cons.len() > 0 {
        let prev = cons.drop_last();
        lemma_without_contains(prev, c, x);
        assert(cons =~= prev.push(cons.last()));
        lemma_push_contains(prev, cons.last(), x);
        if cons.last() != c {
            lemma_push_contains(without(prev, c), cons.last(), x);
        }
    }
}

proof fn lemma_without_distinct(cons: Seq<Connection>, c: Connection)
    requires
        cons.no_duplicates(),
    ensures
        without(cons, c).no_duplicates(),
    decreases cons.len(),
{
    if cons.len() > 0 {
        let prev = cons.drop_last();
        assert(prev.no_duplicates());
        lemma_without_distinct(prev, c);
        if cons.last() != c {
            let w = without(prev, c);
            assert(!prev.contains(cons.last())) by {
                if prev.contains(cons.last()) {
                    let k = choose|k: int| 0 <= k < prev.len() && prev[k] == cons.last();
                    assert(cons[k] == cons[cons.len() - 1]);
                }
            }
            lemma_without_contains(prev, c, cons.last());
            assert(!w.contains(cons.last()));
            assert forall|i: int, j: int|
                0 <= i < w.push(cons.last()).len() && 0 <= j < w.push(cons.last()).len() && i != j
                implies w.push(cons.last())[i] != w.push(cons.last())[j] by {
                if i < w.len() && j < w.len() {
                } else if i < w.len() {
                    assert(w.contains(w[i]));
                } else {
                    assert(w.contains(w[j]));
                }
            }
        }
    }
}

/// Undoing a connection right after making it (where it was not made before)
/// gives back the connection list as it was.
pub proof fn law_connect_then_disconnect_restores(cons: Seq<Connection>, c: Connection)
    requires
        !cons.contains(c),
    ensures
        disconnect_spec(connect_spec(cons, c), c) == cons,
{
    assert(cons.push(c).drop_last() =~= cons);
    lemma_without_absent(cons, c);
}

/// Undoing a connection takes that connection out and keeps every other one.
pub proof fn law_disconnect_removes_only_that_connection(cons: Seq<Connection>, c: Connection)
    ensures
        !disconnect_spec(cons, c).contains(c),
        forall|x: Connection|
            x != c ==> (#[trigger] disconnect_spec(cons, c).contains(x) <==> cons.contains(x)),
{
    lemma_without_contains(cons, c, c);
    assert forall|x: Connection| x != c implies (#[trigger] disconnect_spec(cons, c).contains(x)
        <==> cons.contains(x)) by {
        lemma_without_contains(cons, c, x);
    }
}

/// Making a connection a second time changes nothing: the request is refused.
pub proof fn law_connect_twice_is_refused(cons: Seq<Connection>, c: Connection)
    ensures
        connect_spec(cons, c).contains(c),
        connect_spec(connect_spec(cons, c), c) == connect_spec(cons, c),
{
    if !cons.contains(c) {
        assert(cons.push(c)[cons.len() as int] == c);
    }
}

/// A connection list without repeats keeps that property under every
/// request to make or undo a connection.
pub proof fn law_connections_stay_distinct(cons: Seq<Connection>, c: Connection)
    requires
        cons.no_duplicates(),
    ensures
        connect_spec(cons, c).no_duplicates(),
        disconnect_spec(cons, c).no_duplicates(),
{
    lemma_without_distinct(cons, c);
    if !cons.contains(c) {
        let p = cons.push(c);
        assert forall|i: int, j: int| 0 <= i < p.len() && 0 <= j < p.len() && i != j implies p[i]
            != p[j] by {
            if i < cons.len() && j < cons.len() {
            } else if i < cons.len() {
                assert(cons.contains(cons[i]));
            } else {
                assert(cons.contains(cons[j]));
            }
        }
    }
}

proof fn lemma_count_take_grows(s: Seq<ModuleEntry>, t: ModuleType, i: int, j: int)
    requires
        0 <= i < j <= s.len(),
        s[i].0 == t,
    ensures
        count_of_type(s.take(j), t) >= count_of_type(s.take(i), t) + 1,
    decreases j,
{
    if j == i + 1 {
        assert(s.take(j).drop_last() =~= s.take(i));
    } else {
        lemma_count_take_grows(s, t, i, j - 1);
        assert(s.take(j).drop_last() =~= s.take(j - 1));
    }
}

/// No two entries of the module table are the same module.
proof fn lemma_layout_distinct(types: Seq<ModuleType>)
    requires
        types.len() <= usize::MAX,
    ensures
        forall|i: int, j: int|
            0 <= i < j < module_layout(types).len() ==> #[trigger] module_layout(types)[i]
                != #[trigger] module_layout(types)[j],
{
    let l = module_layout(types);
    assert forall|i: int, j: int| 0 <= i < j < l.len() implies #[trigger] l[i] != #[trigger] l[j] by {
        if l[i] == l[j] {
            law_table_numbers_each_kind_in_order(types, i);
            law_table_numbers_each_kind_in_order(types, j);
            lemma_count_take_grows(l, l[i].0, i, j);
        }
    }
}

/// Each module of the table is found at its own id: the module id of the
/// entry at position `k` is `k + 1`, and that id reads from and sends to
/// that very entry.
pub proof fn law_each_entry_answers_to_its_id(types: Seq<ModuleType>, k: int)
    requires
        types.len() <= usize::MAX,
        0 <= k < module_layout(types).len(),
    ensures
        module_id_spec(module_layout(types), module_layout(types)[k].0, module_layout(types)[k].1)
            == Some(k + 1),
        source_spec(module_layout(types), k + 1) == Some(
            ModuleRef::Module(module_layout(types)[k].0, module_layout(types)[k].1),
        ),
        destination_spec(module_layout(types), k + 1) == Some(module_layout(types)[k]),
{
    let l = module_layout(types);
    let key = l[k];
    lemma_layout_distinct(types);
    lemma_layout_has_no_output(types);
    assert(key.0 != ModuleType::Output);
    assert(first_position(l, key, k));
    let c = choose|c: int| first_position(l, key, c);
    lemma_first_position_unique(l, key, c, k);
}

/// A listed connection names the modules it joins: its source kind and
/// index are the table entry of the source module, its destination kind and
/// index are the table entry of the destination module (or the audio output
/// for id `0`), and looking those names up gives back the connection's
/// module ids.
pub proof fn law_listed_connection_names_its_modules(types: Seq<ModuleType>, c: Connection)
    requires
        types.len() <= usize::MAX,
        describable(module_layout(types), c),
    ensures
        (describe_connection(module_layout(types), c).0, describe_connection(
            module_layout(types),
            c,
        ).2) == module_layout(types)[c.src_module - 1],
        c.dest_module >= 1 ==> (describe_connection(module_layout(types), c).3, describe_connection(
            module_layout(types),
            c,
        ).5) == module_layout(types)[c.dest_module - 1],
        c.dest_module == 0 ==> describe_connection(module_layout(types), c).3 == ModuleType::Output,
        module_id_spec(
            module_layout(types),
            describe_connection(module_layout(types), c).0,
            describe_connection(module_layout(types), c).2,
        ) == Some(c.src_module as int),
        module_id_spec(
            module_layout(types),
            describe_connection(module_layout(types), c).3,
            describe_connection(module_layout(types), c).5,
        ) == Some(c.dest_module as int),
{
    law_each_entry_answers_to_its_id(types, c.src_module - 1);
    if c.dest_module >= 1 {
        law_each_entry_answers_to_its_id(types, c.dest_module - 1);
    }
}

/// The module ids name the table: the id found for the `idx`-th module of
/// kind `t` is `0` for the audio output and otherwise the id of the entry
/// `(t, idx)`, which reads from that module; and a module other than the
/// audio output is found exactly when `idx` is below the number of modules
/// of its kind.
pub proof fn law_module_ids_name_the_table(types: Seq<ModuleType>, t: ModuleType, idx: usize)
    requires
        types.len() <= usize::MAX,
    ensures
        module_id_spec(module_layout(types), t, idx) matches Some(id) ==> (t == ModuleType::Output
            && id == 0) || (t != ModuleType::Output && 1 <= id <= module_layout(types).len()
            && module_layout(types)[id - 1] == (t, idx) && source_spec(module_layout(types), id)
            == Some(ModuleRef::Module(t, idx))),
        t != ModuleType::Output ==> (module_id_spec(module_layout(types), t, idx) is Some <==> idx
            < count_of_type(module_layout(types), t)),
{
    let l = module_layout(types);
    lemma_layout_has_no_output(types);
    if t != ModuleType::Output {
        if exists|k: int| first_position(l, (t, idx), k) {
            let k = choose|k: int| first_position(l, (t, idx), k);
            law_table_numbers_each_kind_in_order(types, k);
            lemma_count_take_grows(l, t, k, l.len() as int);
            assert(l.take(l.len() as int) =~= l);
        }
        if idx < count_of_type(l, t) {
            lemma_positions_count(l, t);
            lemma_kth_position_entry(types, t, idx as int);
            let p = entry_positions(l, t)[idx as int] as int;
            law_each_entry_answers_to_its_id(types, p);
        }
    }
}

} // verus!
