use vstd::prelude::*;

use crate::controller::{connect_all, connect_spec, Controller};
use crate::router::{
    count_of_type, law_table_numbers_each_kind_in_order, lemma_layout_len_bounded, module_layout,
    source_spec, ModuleEntry,
};
use crate::types::{Connection, ModuleType};

verus! {

/// The audio input of an envelope filter.
pub const ENVELOPE_AUDIO_IN: u8 = 1;

/// The audio input of a chorus.
pub const CHORUS_AUDIO_INPUT: u8 = 0;

/// The modules a synthesizer is built from unless told otherwise.
pub open spec fn default_modules_spec() -> Seq<ModuleType> {
    seq![
        ModuleType::MCO,
        ModuleType::Lfo,
        ModuleType::Echo,
        ModuleType::Chorus,
        ModuleType::Delay,
        ModuleType::OverDrive,
        ModuleType::Reverb,
        ModuleType::Lfo,
        ModuleType::Lfo,
        ModuleType::Lfo,
    ]
}

/// The modules a synthesizer is built from unless told otherwise: one MIDI
/// oscillator, an echo, a chorus, a delay, an overdrive, a reverb and four LFOs.
pub fn default_modules() -> (v: Vec<ModuleType>)
    ensures
        v@ == default_modules_spec(),
{
    let v = vec![
        ModuleType::MCO,
        ModuleType::Lfo,
        ModuleType::Echo,
        ModuleType::Chorus,
        ModuleType::Delay,
        ModuleType::OverDrive,
        ModuleType::Reverb,
        ModuleType::Lfo,
        ModuleType::Lfo,
        ModuleType::Lfo,
    ];
    assert(v@ =~= default_modules_spec());
    v
}

/// The table positions holding modules of kind `t`, in order.
pub open spec fn entry_positions(entries: Seq<ModuleEntry>, t: ModuleType) -> Seq<usize>
    decreases entries.len(),
{
    if entries.len() == 0 {
        Seq::empty()
    } else if entries.last().0 == t {
        entry_positions(entries.drop_last(), t).push((entries.len() - 1) as usize)
    } else {
        entry_positions(entries.drop_last(), t)
    }
}

proof fn lemma_entry_positions_bounded(entries: Seq<ModuleEntry>, t: ModuleType)
    ensures
        forall|k: int|
            0 <= k < entry_positions(entries, t).len() ==> #[trigger] entry_positions(
                entries,
                t,
            )[k] < entries.len(),
        entry_positions(entries, t).len() <= entries.len(),
    decreases entries.len(),
{
    if entries.len() > 0 {
        lemma_entry_positions_bounded(entries.drop_last(), t);
    }
}

/// The module id of the module at table position `p`, as a byte.
pub open spec fn id_at(p: usize) -> u8 {
    ((p as u8) + 1) as u8
}

/// A module id computed from table position `p` does not overflow a byte.
pub open spec fn id_fits(p: usize) -> bool {
    (p as u8) < 255
}

/// The connection requests of the default patch: the first `pairs` VCOs
/// each feed their envelope filter, and each of those filters feeds the
/// chorus.
pub open spec fn default_requests(vcos: Seq<usize>, envs: Seq<usize>, chorus: usize, pairs: nat) -> Seq<
    Connection,
>
    decreases pairs,
{
    if pairs == 0 {
        Seq::empty()
    } else {
        let k = (pairs - 1) as int;
        default_requests(vcos, envs, chorus, (pairs - 1) as nat) + seq![
            Connection {
                src_module: id_at(vcos[k]),
                src_output: 0,
                dest_module: id_at(envs[k]),
                dest_input: ENVELOPE_AUDIO_IN,
            },
            Connection {
                src_module: id_at(envs[k]),
                src_output: 0,
                dest_module: id_at(chorus),
                dest_input: CHORUS_AUDIO_INPUT,
            },
        ]
    }
}

/// How many VCO/filter pairs the default patch wires up.
pub open spec fn default_pairs(entries: Seq<ModuleEntry>, n: usize) -> nat {
    let v = entry_positions(entries, ModuleType::Vco).len();
    let e = entry_positions(entries, ModuleType::EnvFilter).len();
    let m = if v <= e {
        v
    } else {
        e
    };
    if n <= m {
        n as nat
    } else {
        m
    }
}

/// Every connection request of the default patch: the VCO/filter pairs,
/// then the chorus to the audio output.
pub open spec fn default_patch(entries: Seq<ModuleEntry>, n: usize) -> Seq<Connection> {
    let chorus = entry_positions(entries, ModuleType::Chorus)[0];
    default_requests(
        entry_positions(entries, ModuleType::Vco),
        entry_positions(entries, ModuleType::EnvFilter),
        chorus,
        default_pairs(entries, n),
    ).push(
        Connection { src_module: id_at(chorus), src_output: 0, dest_module: 0, dest_input: 0 },
    )
}

/// The default patch can be made: there is a chorus, and no module id it
/// computes overflows a byte.
pub open spec fn default_patch_possible(entries: Seq<ModuleEntry>, n: usize) -> bool {
    let vcos = entry_positions(entries, ModuleType::Vco);
    let envs = entry_positions(entries, ModuleType::EnvFilter);
    let chorus = entry_positions(entries, ModuleType::Chorus);
    &&& chorus.len() > 0
    &&& id_fits(chorus[0])
    &&& forall|k: int|
        0 <= k < default_pairs(entries, n) ==> id_fits(#[trigger] vcos[k]) && id_fits(envs[k])
}

/// Collects the table positions of the modules of kind `t`.
fn find_positions(entries: &Vec<ModuleEntry>, t: ModuleType) -> (r: Vec<usize>)
    ensures
        r@ == entry_positions(entries@, t),
{
    let mut r: Vec<usize> = Vec::new();
    let mut i: usize = 0;
    while i < entries.len()
        invariant
            i <= entries.len(),
            r@ == entry_positions(entries@.take(i as int), t),
        decreases entries.len() - i,
    {
        assert(entries@.take(i + 1).drop_last() =~= entries@.take(i as int));
        if entries[i].0 == t {
            r.push(i);
        }
        i = i + 1;
    }
    assert(entries@.take(entries.len() as int) =~= entries@);
    r
}

proof fn lemma_connect_all_push(cons: Seq<Connection>, reqs: Seq<Connection>, c: Connection)
    ensures
        connect_all(cons, reqs.push(c)) == connect_spec(connect_all(cons, reqs), c),
{
    assert(reqs.push(c).drop_last() =~= reqs);
}

/// Wires the default patch: the `k`-th VCO into the `k`-th envelope filter
/// and that filter into the first chorus, for the first `n` pairs there are,
/// then the chorus into the audio output. Requests for connections that are
/// already made change nothing.
pub fn default_connections(synth: &mut Controller, n: usize)
    requires
        default_patch_possible(old(synth).modules.indices@, n),
    ensures
        final(synth).modules == old(synth).modules,
        final(synth).connections@ == connect_all(
            old(synth).connections@,
            default_patch(old(synth).modules.indices@, n),
        ),
{
    let ghost entries = synth.modules.indices@;
    let ghost start = synth.connections@;
    let ghost start_modules = synth.modules;
    let chorus_list = find_positions(&synth.modules.indices, ModuleType::Chorus);
    let vcos = find_positions(&synth.modules.indices, ModuleType::Vco);
    let envs = find_positions(&synth.modules.indices, ModuleType::EnvFilter);
    proof {
        lemma_entry_positions_bounded(entries, ModuleType::Chorus);
    }
    let chorus_i = (#[verifier::truncate] (chorus_list[0] as u8)) + 1;
    let ghost pairs = default_pairs(entries, n);
    let mut i: usize = 0;
    while i < n && i < vcos.len() && i < envs.len()
        invariant
            synth.modules == start_modules,
            start_modules.indices@ == entries,
            vcos@ == entry_positions(entries, ModuleType::Vco),
            envs@ == entry_positions(entries, ModuleType::EnvFilter),
            chorus_list@ == entry_positions(entries, ModuleType::Chorus),
            chorus_list@.len() > 0,
            chorus_i == id_at(chorus_list@[0]),
            default_patch_possible(entries, n),
            pairs == default_pairs(entries, n),
            i <= pairs,
            synth.connections@ == connect_all(
                start,
                default_requests(vcos@, envs@, chorus_list@[0], i as nat),
            ),
        decreases n - i,
    {
        let ghost before = default_requests(vcos@, envs@, chorus_list@[0], i as nat);
        assert(id_fits(vcos@[i as int]) && id_fits(envs@[i as int]));
        let vco_id = (#[verifier::truncate] (vcos[i] as u8)) + 1;
        let env_id = (#[verifier::truncate] (envs[i] as u8)) + 1;
        let _ = synth.connect(vco_id, 0, env_id, ENVELOPE_AUDIO_IN);
        let _ = synth.connect(env_id, 0, chorus_i, CHORUS_AUDIO_INPUT);
        proof {
            let a = Connection {
                src_module: vco_id,
                src_output: 0,
                dest_module: env_id,
                dest_input: ENVELOPE_AUDIO_IN,
            };
            let b = Connection {
                src_module: env_id,
                src_output: 0,
                dest_module: chorus_i,
                dest_input: CHORUS_AUDIO_INPUT,
            };
            let after = default_requests(vcos@, envs@, chorus_list@[0], (i + 1) as nat);
            assert(after =~= before.push(a).push(b));
            lemma_connect_all_push(start, before, a);
            lemma_connect_all_push(start, before.push(a), b);
        }
        i = i + 1;
    }
    assert(i == pairs);
    let ghost before = default_requests(vcos@, envs@, chorus_list@[0], i as nat);
    let _ = synth.connect(chorus_i, 0, 0, 0);
    proof {
        let c = Connection { src_module: chorus_i, src_output: 0, dest_module: 0, dest_input: 0 };
        lemma_connect_all_push(start, before, c);
        assert(default_patch(entries, n) == before.push(c));
    }
}

/// Whether the module id computed from table position `p` fits a byte.
fn position_id_fits(p: usize) -> (r: bool)
    ensures
        r == id_fits(p),
{
    (#[verifier::truncate] (p as u8)) < 255
}

/// Whether the default patch with `n` pairs can be wired into `synth` (see
/// `default_patch_possible`).
pub fn default_patch_fits(synth: &Controller, n: usize) -> (r: bool)
    ensures
        r == default_patch_possible(synth.modules.indices@, n),
{
    let ghost entries = synth.modules.indices@;
    let chorus_list = find_positions(&synth.modules.indices, ModuleType::Chorus);
    if chorus_list.len() == 0 || !position_id_fits(chorus_list[0]) {
        return false;
    }
    let vcos = find_positions(&synth.modules.indices, ModuleType::Vco);
    let envs = find_positions(&synth.modules.indices, ModuleType::EnvFilter);
    let mut k: usize = 0;
    while k < n && k < vcos.len() && k < envs.len()
        invariant
            entries == synth.modules.indices@,
            chorus_list@ == entry_positions(entries, ModuleType::Chorus),
            chorus_list@.len() > 0,
            id_fits(chorus_list@[0]),
            vcos@ == entry_positions(entries, ModuleType::Vco),
            envs@ == entry_positions(entries, ModuleType::EnvFilter),
            k <= default_pairs(entries, n),
            forall|j: int| 0 <= j < k ==> id_fits(#[trigger] vcos@[j]) && id_fits(envs@[j]),
        decreases n - k,
    {
        if !position_id_fits(vcos[k]) || !position_id_fits(envs[k]) {
            assert(k < default_pairs(entries, n));
            return false;
        }
        assert(id_fits(vcos@[k as int]) && id_fits(envs@[k as int]));
        assert forall|j: int| 0 <= j < k + 1 implies id_fits(#[trigger] vcos@[j]) && id_fits(
            envs@[j],
        ) by {
            if j < k {
            }
        }
        k = k + 1;
    }
    assert(k == default_pairs(entries, n));
    true
}

/// A module input or output: (module id, port number).
pub type Endpoint = (u8, u8);

/// Where connection `c` delivers its samples.
pub open spec fn dest_of(c: Connection) -> Endpoint {
    (c.dest_module, c.dest_input)
}

/// Where connection `c` takes its samples from.
pub open spec fn src_of(c: Connection) -> Endpoint {
    (c.src_module, c.src_output)
}

/// The inputs that the connections feed, each once, in the order in which
/// each is first fed.
pub open spec fn destinations(cons: Seq<Connection>) -> Seq<Endpoint>
    decreases cons.len(),
{
    if cons.len() == 0 {
        Seq::empty()
    } else {
        let prev = destinations(cons.drop_last());
        if prev.contains(dest_of(cons.last())) {
            prev
        } else {
            prev.push(dest_of(cons.last()))
        }
    }
}

/// The outputs that feed input `d`, in connection order.
pub open spec fn sources_to(cons: Seq<Connection>, d: Endpoint) -> Seq<Endpoint>
    decreases cons.len(),
{
    if cons.len() == 0 {
        Seq::empty()
    } else {
        let prev = sources_to(cons.drop_last(), d);
        if dest_of(cons.last()) == d {
            prev.push(src_of(cons.last()))
        } else {
            prev
        }
    }
}

/// One input of a sample pass, with every output whose samples are summed into it.
#[derive(Clone, Debug)]
pub struct Route {
    pub dest_module: u8,
    pub dest_input: u8,
    /// (module id, output) of each source, in connection order
    pub sources: Vec<Endpoint>,
}

/// Route `r` delivers to input `d` exactly the outputs the connections feed into it.
pub open spec fn route_matches(r: Route, cons: Seq<Connection>, d: Endpoint) -> bool {
    &&& (r.dest_module, r.dest_input) == d
    &&& r.sources@ == sources_to(cons, d)
}

proof fn lemma_push_contains_endpoint(s: Seq<Endpoint>, a: Endpoint, x: Endpoint)
    ensures
        s.push(a).contains(x) <==> (s.contains(x) || x == a),
{
    if s.push(a).contains(x) {
        let k = choose|k: int| 0 <= k < s.push(a).len() && s.push(a)[k] == x;
        if k < s.len() {
            assert(s[k] == x);
        }
    }
    if s.contains(x) {
        let k = choose|k: int| 0 <= k < s.len() && s[k] == x;
        assert(s.push(a)[k] == x);
    }
    if x == a {
        assert(s.push(a)[s.len() as int] == x);
    }
}

proof fn lemma_destinations_distinct(cons: Seq<Connection>)
    ensures
        destinations(cons).no_duplicates(),
    decreases cons.len(),
{
    if cons.len() > 0 {
        lemma_destinations_distinct(cons.drop_last());
        let prev = destinations(cons.drop_last());
        let d = dest_of(cons.last());
        if !prev.contains(d) {
            let p = prev.push(d);
            assert forall|i: int, j: int| 0 <= i < p.len() && 0 <= j < p.len() && i != j implies p[i]
                != p[j] by {
                if i < prev.len() && j < prev.len() {
                } else if i < prev.len() {
                    assert(prev.contains(prev[i]));
                } else {
                    assert(prev.contains(prev[j]));
                }
            }
        }
    }
}

proof fn lemma_destinations_contains(cons: Seq<Connection>, d: Endpoint)
    ensures
        destinations(cons).contains(d) <==> (exists|i: int|
            0 <= i < cons.len() && dest_of(#[trigger] cons[i]) == d),
        !destinations(cons).contains(d) ==> sources_to(cons, d) == Seq::<Endpoint>::empty(),
    decreases cons.len(),
{
    if cons.len() > 0 {
        let prev = cons.drop_last();
        lemma_destinations_contains(prev, d);
        lemma_push_contains_endpoint(destinations(prev), dest_of(cons.last()), d);
        if exists|i: int| 0 <= i < cons.len() && dest_of(#[trigger] cons[i]) == d {
            let i = choose|i: int| 0 <= i < cons.len() && dest_of(#[trigger] cons[i]) == d;
            if i < cons.len() - 1 {
                assert(prev[i] == cons[i]);
            }
        }
        if exists|i: int| 0 <= i < prev.len() && dest_of(#[trigger] prev[i]) == d {
            let i = choose|i: int| 0 <= i < prev.len() && dest_of(#[trigger] prev[i]) == d;
            assert(cons[i] == prev[i]);
        }
    }
}

/// Plans one sample pass: for each input fed by some connection, in the
/// order it is first fed, the outputs whose samples are summed into it.
pub fn routing_plan(connections: &Vec<Connection>) -> (plan: Vec<Route>)
    ensures
        plan@.len() == destinations(connections@).len(),
        forall|k: int|
            0 <= k < plan@.len() ==> route_matches(
                #[trigger] plan@[k],
                connections@,
                destinations(connections@)[k],
            ),
{
    let mut plan: Vec<Route> = Vec::new();
    let mut i: usize = 0;
    while i < connections.len()
        invariant
            i <= connections.len(),
            plan@.len() == destinations(connections@.take(i as int)).len(),
            forall|k: int|
                0 <= k < plan@.len() ==> route_matches(
                    #[trigger] plan@[k],
                    connections@.take(i as int),
                    destinations(connections@.take(i as int))[k],
                ),
        decreases connections.len() - i,
    {
        let ghost pre = connections@.take(i as int);
        let ghost post = connections@.take(i + 1);
        assert(post.drop_last() =~= pre);
        proof {
            lemma_destinations_distinct(pre);
        }
        let c = connections[i];
        let ghost d = dest_of(c);
        let ghost s = src_of(c);
        let mut k: usize = 0;
        while k < plan.len() && (plan[k].dest_module != c.dest_module || plan[k].dest_input
            != c.dest_input)
            invariant
                k <= plan@.len(),
                d == dest_of(c),
                forall|j: int|
                    0 <= j < k ==> (#[trigger] plan@[j].dest_module, plan@[j].dest_input) != d,
            decreases plan.len() - k,
        {
            k = k + 1;
        }
        let ghost old_plan = plan@;
        if k < plan.len() {
            assert(route_matches(plan@[k as int], pre, destinations(pre)[k as int]));
            assert(destinations(pre)[k as int] == d);
            assert(destinations(pre).contains(d));
            plan[k].sources.push((c.src_module, c.src_output));
            assert(destinations(post) == destinations(pre));
            assert forall|j: int| 0 <= j < plan@.len() implies route_matches(
                #[trigger] plan@[j],
                post,
                destinations(post)[j],
            ) by {
                assert(route_matches(old_plan[j], pre, destinations(pre)[j]));
                if j != k {
                    assert(destinations(pre)[j] != destinations(pre)[k as int]);
                }
            }
        } else {
            assert(!destinations(pre).contains(d)) by {
                if destinations(pre).contains(d) {
                    let j = choose|j: int|
                        0 <= j < destinations(pre).len() && destinations(pre)[j] == d;
                    assert(route_matches(plan@[j], pre, destinations(pre)[j]));
                }
            }
            proof {
                lemma_destinations_contains(pre, d);
            }
            let mut sources: Vec<Endpoint> = Vec::new();
            sources.push((c.src_module, c.src_output));
            plan.push(Route { dest_module: c.dest_module, dest_input: c.dest_input, sources });
            assert(destinations(post) == destinations(pre).push(d));
            assert forall|j: int| 0 <= j < plan@.len() implies route_matches(
                #[trigger] plan@[j],
                post,
                destinations(post)[j],
            ) by {
                if j < old_plan.len() {
                    assert(route_matches(old_plan[j], pre, destinations(pre)[j]));
                    assert(destinations(pre)[j] != d) by {
                        assert(destinations(pre).contains(destinations(pre)[j]));
                    }
                } else {
                    assert(plan@[j].sources@ =~= seq![s]);
                    assert(sources_to(post, d) =~= Seq::<Endpoint>::empty().push(s));
                }
            }
        }
        i = i + 1;
    }
    assert(connections@.take(connections.len() as int) =~= connections@);
    plan
}

/// Every input a sample pass delivers to is fed by some connection, no input
/// is delivered to twice, and each connection's output is among the sources
/// summed into its input.
pub proof fn law_every_connection_is_routed(cons: Seq<Connection>, i: int)
    requires
        0 <= i < cons.len(),
    ensures
        destinations(cons).no_duplicates(),
        destinations(cons).contains(dest_of(cons[i])),
        sources_to(cons, dest_of(cons[i])).contains(src_of(cons[i])),
    decreases cons.len(),
{
    lemma_destinations_distinct(cons);
    lemma_destinations_contains(cons, dest_of(cons[i]));
    let prev = cons.drop_last();
    if i == cons.len() - 1 {
        let p = sources_to(prev, dest_of(cons[i]));
        assert(p.push(src_of(cons[i]))[p.len() as int] == src_of(cons[i]));
    } else {
        assert(prev[i] == cons[i]);
        law_every_connection_is_routed(prev, i);
        let p = sources_to(prev, dest_of(cons[i]));
        if dest_of(cons.last()) == dest_of(cons[i]) {
            lemma_push_contains_endpoint(p, src_of(cons.last()), src_of(cons[i]));
        }
    }
}

/// Runs the sample passes of a synthesizer over its patch-bay.
#[derive(Clone, Debug)]
pub struct AudioGen {
    /// the patch-bay the samples are routed through
    pub controller: Controller,
}

impl AudioGen {
    /// The decisions of one sample pass: how many leading module ids are read
    /// for samples (see `Modules::source_count`), and, for each input fed by
    /// a connection in the order it is first fed, the outputs whose samples
    /// are summed into it (see `routing_plan`).
    pub fn plan_pass(&self) -> (r: (usize, Vec<Route>))
        ensures
            1 <= r.0 <= 255,
            forall|id: int|
                0 <= id < r.0 ==> source_spec(self.controller.modules.indices@, id) is Some,
            r.0 < 255 ==> source_spec(self.controller.modules.indices@, r.0 as int) is None,
            r.1@.len() == destinations(self.controller.connections@).len(),
            forall|k: int|
                0 <= k < r.1@.len() ==> route_matches(
                    #[trigger] r.1@[k],
                    self.controller.connections@,
                    destinations(self.controller.connections@)[k],
                ),
    {
        (self.controller.modules.source_count(), routing_plan(&self.controller.connections))
    }
}

proof fn lemma_connect_spec_contains(cons: Seq<Connection>, c: Connection, x: Connection)
    ensures
        connect_spec(cons, c).contains(x) <==> (cons.contains(x) || x == c),
{
    if !cons.contains(c) {
        let p = cons.push(c);
        if p.contains(x) {
            let k = choose|k: int| 0 <= k < p.len() && p[k] == x;
            if k < cons.len() {
                assert(cons[k] == x);
            }
        }
        if cons.contains(x) {
            let k = choose|k: int| 0 <= k < cons.len() && cons[k] == x;
            assert(p[k] == x);
        }
        assert(p[cons.len() as int] == c);
    }
}

proof fn lemma_connect_all_keeps(cons: Seq<Connection>, reqs: Seq<Connection>, x: Connection)
    requires
        cons.contains(x) || reqs.contains(x),
    ensures
        connect_all(cons, reqs).contains(x),
    decreases reqs.len(),
{
    if reqs.len() > 0 {
        let prev = reqs.drop_last();
        lemma_connect_spec_contains(connect_all(cons, prev), reqs.last(), x);
        if x != reqs.last() {
            if reqs.contains(x) {
                let k = choose|k: int| 0 <= k < reqs.len() && reqs[k] == x;
                assert(k != reqs.len() - 1);
                assert(prev[k] == x);
            }
            lemma_connect_all_keeps(cons, prev, x);
        }
    }
}

proof fn lemma_connect_all_made(cons: Seq<Connection>, reqs: Seq<Connection>)
    requires
        forall|i: int| 0 <= i < reqs.len() ==> cons.contains(#[trigger] reqs[i]),
    ensures
        connect_all(cons, reqs) == cons,
    decreases reqs.len(),
{
    if reqs.len() > 0 {
        let prev = reqs.drop_last();
        assert forall|i: int| 0 <= i < prev.len() implies cons.contains(#[trigger] prev[i]) by {
            assert(prev[i] == reqs[i]);
        }
        lemma_connect_all_made(cons, prev);
        assert(cons.contains(reqs[reqs.len() - 1]));
    }
}

/// Wiring the default patch a second time changes nothing: every
/// connection it asks for is already made.
pub proof fn law_default_patch_twice_changes_nothing(
    cons: Seq<Connection>,
    entries: Seq<ModuleEntry>,
    n: usize,
)
    ensures
        connect_all(connect_all(cons, default_patch(entries, n)), default_patch(entries, n))
            == connect_all(cons, default_patch(entries, n)),
{
    let reqs = default_patch(entries, n);
    let once = connect_all(cons, reqs);
    assert forall|i: int| 0 <= i < reqs.len() implies once.contains(#[trigger] reqs[i]) by {
        assert(reqs.contains(reqs[i]));
        lemma_connect_all_keeps(cons, reqs, reqs[i]);
    }
    lemma_connect_all_made(once, reqs);
}

/// There is one table position of kind `t` per entry of that kind.
pub proof fn lemma_positions_count(entries: Seq<ModuleEntry>, t: ModuleType)
    ensures
        entry_positions(entries, t).len() == count_of_type(entries, t),
    decreases entries.len(),
{
    if entries.len() > 0 {
        lemma_positions_count(entries.drop_last(), t);
    }
}

proof fn lemma_requests_len(vcos: Seq<usize>, envs: Seq<usize>, chorus: usize, pairs: nat)
    ensures
        default_requests(vcos, envs, chorus, pairs).len() == 2 * pairs,
    decreases pairs,
{
    if pairs > 0 {
        lemma_requests_len(vcos, envs, chorus, (pairs - 1) as nat);
    }
}

/// The least of three numbers.
pub open spec fn least_of(a: nat, b: nat, c: nat) -> nat {
    if a <= b && a <= c {
        a
    } else if b <= c {
        b
    } else {
        c
    }
}

/// The default patch wires at most `n` VCO/filter pairs: as many as `n`,
/// the VCOs and the envelope filters of the table all allow, two
/// connections each, and then the chorus to the audio output.
pub proof fn law_default_patch_wires_at_most_n_pairs(entries: Seq<ModuleEntry>, n: usize)
    ensures
        default_patch(entries, n).len() == 2 * least_of(
            n as nat,
            count_of_type(entries, ModuleType::Vco),
            count_of_type(entries, ModuleType::EnvFilter),
        ) + 1,
        default_patch(entries, n).last() == (Connection {
            src_module: id_at(entry_positions(entries, ModuleType::Chorus)[0]),
            src_output: 0,
            dest_module: 0,
            dest_input: 0,
        }),
{
    lemma_positions_count(entries, ModuleType::Vco);
    lemma_positions_count(entries, ModuleType::EnvFilter);
    lemma_requests_len(
        entry_positions(entries, ModuleType::Vco),
        entry_positions(entries, ModuleType::EnvFilter),
        entry_positions(entries, ModuleType::Chorus)[0],
        default_pairs(entries, n),
    );
}

proof fn lemma_positions_name_kth(entries: Seq<ModuleEntry>, t: ModuleType, k: int)
    requires
        entries.len() <= usize::MAX,
        0 <= k < entry_positions(entries, t).len(),
    ensures
        entry_positions(entries, t)[k] < entries.len(),
        entries[entry_positions(entries, t)[k] as int].0 == t,
        count_of_type(entries.take(entry_positions(entries, t)[k] as int), t) == k,
    decreases entries.len(),
{
    assert(entries.len() > 0);
    let prev = entries.drop_last();
    lemma_positions_count(prev, t);
    lemma_entry_positions_bounded(prev, t);
    if k < entry_positions(prev, t).len() {
        lemma_positions_name_kth(prev, t, k);
        let p = entry_positions(prev, t)[k] as int;
        assert(entry_positions(entries, t)[k] == p);
        assert(entries[p] == prev[p]);
        assert(entries.take(p) =~= prev.take(p));
    } else {
        assert(entries.last().0 == t);
        assert(entry_positions(entries, t)[k] == entries.len() - 1);
        assert(entries.take(entries.len() - 1) =~= prev);
    }
}

proof fn lemma_request_at(vcos: Seq<usize>, envs: Seq<usize>, chorus: usize, pairs: nat, k: int)
    requires
        0 <= k < pairs,
    ensures
        default_requests(vcos, envs, chorus, pairs)[2 * k] == (Connection {
            src_module: id_at(vcos[k]),
            src_output: 0,
            dest_module: id_at(envs[k]),
            dest_input: ENVELOPE_AUDIO_IN,
        }),
        default_requests(vcos, envs, chorus, pairs)[2 * k + 1] == (Connection {
            src_module: id_at(envs[k]),
            src_output: 0,
            dest_module: id_at(chorus),
            dest_input: CHORUS_AUDIO_INPUT,
        }),
    decreases pairs,
{
    lemma_requests_len(vcos, envs, chorus, (pairs - 1) as nat);
    if k < pairs - 1 {
        lemma_request_at(vcos, envs, chorus, (pairs - 1) as nat, k);
    }
}

/// The module at table position `p` of a table built from `types`, when
/// `p` is the `k`-th position of kind `t`, is the `k`-th module of that kind.
pub proof fn lemma_kth_position_entry(types: Seq<ModuleType>, t: ModuleType, k: int)
    requires
        types.len() <= usize::MAX,
        0 <= k < entry_positions(module_layout(types), t).len(),
    ensures
        entry_positions(module_layout(types), t)[k] < module_layout(types).len(),
        module_layout(types)[entry_positions(module_layout(types), t)[k] as int] == (t, k as usize),
{
    let l = module_layout(types);
    lemma_layout_len_bounded(types);
    lemma_positions_name_kth(l, t, k);
    law_table_numbers_each_kind_in_order(types, entry_positions(l, t)[k] as int);
}

/// In the default patch over a table of at most 255 modules built from
/// `types`, the `k`-th pair of requests joins output `0` of the `k`-th VCO
/// to the audio input of the `k`-th envelope filter, and output `0` of
/// that filter to the audio input of the first chorus; the last request
/// joins output `0` of that chorus to the audio output.
pub proof fn law_default_patch_joins_kth_vco_filter_and_chorus(
    types: Seq<ModuleType>,
    n: usize,
    k: int,
)
    requires
        module_layout(types).len() <= 255,
        types.len() <= usize::MAX,
        default_patch_possible(module_layout(types), n),
        0 <= k < least_of(
            n as nat,
            count_of_type(module_layout(types), ModuleType::Vco),
            count_of_type(module_layout(types), ModuleType::EnvFilter),
        ),
    ensures
        1 <= default_patch(module_layout(types), n)[2 * k].src_module <= module_layout(types).len(),
        module_layout(types)[default_patch(module_layout(types), n)[2 * k].src_module - 1] == (
        ModuleType::Vco, k as usize),
        default_patch(module_layout(types), n)[2 * k].src_output == 0,
        1 <= default_patch(module_layout(types), n)[2 * k].dest_module <= module_layout(
            types,
        ).len(),
        module_layout(types)[default_patch(module_layout(types), n)[2 * k].dest_module - 1] == (
        ModuleType::EnvFilter, k as usize),
        default_patch(module_layout(types), n)[2 * k].dest_input == ENVELOPE_AUDIO_IN,
        default_patch(module_layout(types), n)[2 * k + 1].src_module == default_patch(
            module_layout(types),
            n,
        )[2 * k].dest_module,
        default_patch(module_layout(types), n)[2 * k + 1].src_output == 0,
        1 <= default_patch(module_layout(types), n)[2 * k + 1].dest_module <= module_layout(
            types,
        ).len(),
        module_layout(types)[default_patch(module_layout(types), n)[2 * k + 1].dest_module - 1]
            == (ModuleType::Chorus, 0usize),
        default_patch(module_layout(types), n)[2 * k + 1].dest_input == CHORUS_AUDIO_INPUT,
        default_patch(module_layout(types), n).last().src_module == default_patch(
            module_layout(types),
            n,
        )[2 * k + 1].dest_module,
{
    let l = module_layout(types);
    let vcos = entry_positions(l, ModuleType::Vco);
    let envs = entry_positions(l, ModuleType::EnvFilter);
    let chorus = entry_positions(l, ModuleType::Chorus);
    let pairs = default_pairs(l, n);
    law_default_patch_wires_at_most_n_pairs(l, n);
    lemma_positions_count(l, ModuleType::Vco);
    lemma_positions_count(l, ModuleType::EnvFilter);
    assert(pairs == least_of(
        n as nat,
        count_of_type(l, ModuleType::Vco),
        count_of_type(l, ModuleType::EnvFilter),
    ));
    lemma_requests_len(vcos, envs, chorus[0], pairs);
    lemma_request_at(vcos, envs, chorus[0], pairs, k);
    let reqs = default_requests(vcos, envs, chorus[0], pairs);
    assert(default_patch(l, n)[2 * k] == reqs[2 * k]);
    assert(default_patch(l, n)[2 * k + 1] == reqs[2 * k + 1]);
    lemma_kth_position_entry(types, ModuleType::Vco, k);
    lemma_kth_position_entry(types, ModuleType::EnvFilter, k);
    lemma_kth_position_entry(types, ModuleType::Chorus, 0);
    assert(id_fits(vcos[k]) && id_fits(envs[k]));
}

} // verus!
