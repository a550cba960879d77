use vstd::prelude::*;

use vstd::utf8::encode_utf8;

use crate::dot::{
    close_scope, dot_line, end_node, named_node, node_attr, node_label, node_shape, open_cluster,
    open_digraph, open_subgraph, quoted, scope_label, scope_shape, shape_name, spaces, writer_into,
    DotScope, DotText, NodeShape,
};
use crate::types::{module_type_ident, ModuleType};

verus! {

/// The names of the inputs of a VCO.
pub open spec fn vco_inputs() -> Seq<Seq<char>> {
    seq!["Vol."@, "Pitch"@, "Bend"@]
}

/// The names of the outputs of a VCO.
pub open spec fn vco_outputs() -> Seq<Seq<char>> {
    seq!["Audio Out"@]
}

/// The names of the inputs of an envelope filter.
pub open spec fn env_inputs() -> Seq<Seq<char>> {
    seq![
        "Filter Select"@,
        "Audio In"@,
        "Open Filter"@,
        "Wiggle Resonace"@,
        "Attack"@,
        "Decay"@,
        "Sus/Break"@,
        "Decay2"@,
    ]
}

/// The names of the outputs of an envelope filter.
pub open spec fn env_outputs() -> Seq<Seq<char>> {
    seq!["Audio Out"@, "Env"@, "Open"@]
}

/// The names of the inputs of a module kind. The kinds whose inputs are not
/// named (LFO, echo, delay, chorus, reverb) have none listed.
pub open spec fn input_names_spec(t: ModuleType) -> Seq<Seq<char>> {
    match t {
        ModuleType::Vco => vco_inputs(),
        ModuleType::EnvFilter => env_inputs(),
        ModuleType::Output => seq!["Audio In"@],
        ModuleType::OverDrive => seq!["Audio In"@, "Gain"@],
        ModuleType::MCO => vco_inputs() + env_inputs(),
        _ => Seq::empty(),
    }
}

/// The names of the outputs of a module kind. The kinds whose outputs are
/// not named (LFO, echo, delay, chorus, reverb) have none listed.
pub open spec fn output_names_spec(t: ModuleType) -> Seq<Seq<char>> {
    match t {
        ModuleType::Vco => vco_outputs(),
        ModuleType::EnvFilter => env_outputs(),
        ModuleType::Output => seq!["Audio Out"@],
        ModuleType::OverDrive => seq!["Audio Out"@],
        ModuleType::MCO => vco_outputs() + env_outputs(),
        _ => Seq::empty(),
    }
}

/// The strings of `v` spell `names`.
pub open spec fn spells(v: Seq<String>, names: Seq<Seq<char>>) -> bool {
    &&& v.len() == names.len()
    &&& forall|i: int| 0 <= i < v.len() ==> (#[trigger] v[i])@ == names[i]
}

/// Appends `s` to the list of names.
fn push_name(v: &mut Vec<String>, s: &str)
    ensures
        final(v)@.len() == old(v)@.len() + 1,
        forall|i: int| 0 <= i < old(v)@.len() ==> final(v)@[i] == old(v)@[i],
        final(v)@[old(v)@.len() as int]@ == s@,
{
    v.push(String::from_str(s));
}

proof fn lemma_spells_concat(a: Seq<String>, x: Seq<Seq<char>>, b: Seq<String>, y: Seq<Seq<char>>)
    requires
        spells(a, x),
        spells(b, y),
    ensures
        spells(a + b, x + y),
{
    assert forall|i: int| 0 <= i < (a + b).len() implies (#[trigger] (a + b)[i])@ == (x + y)[i] by {
        if i < a.len() {
            assert((a + b)[i] == a[i]);
        } else {
            assert((a + b)[i] == b[i - a.len()]);
        }
    }
}

fn vco_input_names() -> (v: Vec<String>)
    ensures
        spells(v@, vco_inputs()),
{
    let mut v: Vec<String> = Vec::new();
    push_name(&mut v, "Vol.");
    push_name(&mut v, "Pitch");
    push_name(&mut v, "Bend");
    v
}

fn env_input_names() -> (v: Vec<String>)
    ensures
        spells(v@, env_inputs()),
{
    let mut v: Vec<String> = Vec::new();
    push_name(&mut v, "Filter Select");
    push_name(&mut v, "Audio In");
    push_name(&mut v, "Open Filter");
    push_name(&mut v, "Wiggle Resonace");
    push_name(&mut v, "Attack");
    push_name(&mut v, "Decay");
    push_name(&mut v, "Sus/Break");
    push_name(&mut v, "Decay2");
    v
}

fn vco_output_names() -> (v: Vec<String>)
    ensures
        spells(v@, vco_outputs()),
{
    let mut v: Vec<String> = Vec::new();
    push_name(&mut v, "Audio Out");
    v
}

fn env_output_names() -> (v: Vec<String>)
    ensures
        spells(v@, env_outputs()),
{
    let mut v: Vec<String> = Vec::new();
    push_name(&mut v, "Audio Out");
    push_name(&mut v, "Env");
    push_name(&mut v, "Open");
    v
}

/// The names of the inputs of a module kind, in input order (see
/// `input_names_spec`).
pub fn get_module_inputs(module_type: ModuleType) -> (v: Vec<String>)
    ensures
        spells(v@, input_names_spec(module_type)),
{
    match module_type {
        ModuleType::Vco => vco_input_names(),
        ModuleType::EnvFilter => env_input_names(),
        ModuleType::Output => {
            let mut v: Vec<String> = Vec::new();
            push_name(&mut v, "Audio In");
            v
        },
        ModuleType::OverDrive => {
            let mut v: Vec<String> = Vec::new();
            push_name(&mut v, "Audio In");
            push_name(&mut v, "Gain");
            v
        },
        ModuleType::MCO => {
            let mut v = vco_input_names();
            let mut e = env_input_names();
            proof {
                lemma_spells_concat(v@, vco_inputs(), e@, env_inputs());
            }
            v.append(&mut e);
            v
        },
        _ => Vec::new(),
    }
}

/// The names of the outputs of a module kind, in output order (see
/// `output_names_spec`).
pub fn get_module_outputs(module_type: ModuleType) -> (v: Vec<String>)
    ensures
        spells(v@, output_names_spec(module_type)),
{
    match module_type {
        ModuleType::Vco => vco_output_names(),
        ModuleType::EnvFilter => env_output_names(),
        ModuleType::Output | ModuleType::OverDrive => vco_output_names(),
        ModuleType::MCO => {
            let mut v = vco_output_names();
            let mut e = env_output_names();
            proof {
                lemma_spells_concat(v@, vco_outputs(), e@, env_outputs());
            }
            v.append(&mut e);
            v
        },
        _ => Vec::new(),
    }
}

/// The decimal digit `d`, for `d < 10`.
pub open spec fn digit_char(d: nat) -> char {
    if d == 0 {
        '0'
    } else if d == 1 {
        '1'
    } else if d == 2 {
        '2'
    } else if d == 3 {
        '3'
    } else if d == 4 {
        '4'
    } else if d == 5 {
        '5'
    } else if d == 6 {
        '6'
    } else if d == 7 {
        '7'
    } else if d == 8 {
        '8'
    } else {
        '9'
    }
}

/// The decimal numeral of `n`, without leading zeros.
pub open spec fn decimal_chars(n: nat) -> Seq<char>
    decreases n,
{
    if n < 10 {
        seq![digit_char(n)]
    } else {
        decimal_chars(n / 10) + seq![digit_char(n % 10)]
    }
}

/// The digit `d` as a string.
fn digit_str(d: usize) -> (s: &'static str)
    requires
        d < 10,
    ensures
        s@ == seq![digit_char(d as nat)],
{
    proof {
        reveal_strlit("0");
        reveal_strlit("1");
        reveal_strlit("2");
        reveal_strlit("3");
        reveal_strlit("4");
        reveal_strlit("5");
        reveal_strlit("6");
        reveal_strlit("7");
        reveal_strlit("8");
        reveal_strlit("9");
    }
    if d == 0 {
        "0"
    } else if d == 1 {
        "1"
    } else if d == 2 {
        "2"
    } else if d == 3 {
        "3"
    } else if d == 4 {
        "4"
    } else if d == 5 {
        "5"
    } else if d == 6 {
        "6"
    } else if d == 7 {
        "7"
    } else if d == 8 {
        "8"
    } else {
        "9"
    }
}

/// The decimal numeral of `n`.
pub fn decimal(n: usize) -> (s: String)
    ensures
        s@ == decimal_chars(n as nat),
    decreases n,
{
    if n < 10 {
        String::from_str(digit_str(n))
    } else {
        let mut s = decimal(n / 10);
        s.append(digit_str(n % 10));
        s
    }
}

/// The id of port `port` of the `count`-th module of kind `t` in the graph:
/// the kind's identifier, the count and the port, joined by dashes.
pub open spec fn node_id_spec(t: ModuleType, count: nat, port: nat) -> Seq<char> {
    module_type_ident(t) + "-"@ + decimal_chars(count) + "-"@ + decimal_chars(port)
}

/// The id of port `port` of the `count`-th module of kind `t`, e.g. "Vco-0-2".
pub fn node_id(t: ModuleType, count: u8, port: usize) -> (s: String)
    ensures
        s@ == node_id_spec(t, count as nat, port as nat),
{
    let mut s = t.ident();
    s.append("-");
    let c = decimal(count as usize);
    s.append(c.as_str());
    s.append("-");
    let p = decimal(port);
    s.append(p.as_str());
    s
}

/// How many of `ts` are of kind `t`.
pub open spec fn type_count(ts: Seq<ModuleType>, t: ModuleType) -> nat
    decreases ts.len(),
{
    if ts.len() == 0 {
        0
    } else {
        type_count(ts.drop_last(), t) + if ts.last() == t {
            1nat
        } else {
            0nat
        }
    }
}

proof fn lemma_type_count_bounded(ts: Seq<ModuleType>, t: ModuleType)
    ensures
        type_count(ts, t) <= ts.len(),
    decreases ts.len(),
{
    if ts.len() > 0 {
        lemma_type_count_bounded(ts.drop_last(), t);
    }
}

/// Counts the modules of kind `t`.
fn count_kind(modules: &[ModuleType], t: ModuleType) -> (n: usize)
    ensures
        n == type_count(modules@, t),
{
    let mut n: usize = 0;
    let mut i: usize = 0;
    while i < modules.len()
        invariant
            i <= modules.len(),
            n == type_count(modules@.take(i as int), t),
        decreases modules.len() - i,
    {
        assert(modules@.take(i + 1).drop_last() =~= modules@.take(i as int));
        proof {
            lemma_type_count_bounded(modules@.take(i as int), t);
        }
        if modules[i] == t {
            n = n + 1;
        }
        i = i + 1;
    }
    assert(modules@.take(modules.len() as int) =~= modules@);
    n
}

/// Whether no kind occurs more than 255 times in `modules`, so that the
/// graph of `modules` can be drawn (see `mk_graph`).
pub fn graph_counts_fit(modules: &[ModuleType]) -> (r: bool)
    ensures
        r == forall|t: ModuleType| #[trigger] type_count(modules@, t) <= 255,
{
    let r = count_kind(modules, ModuleType::Vco) <= 255 && count_kind(modules, ModuleType::Output)
        <= 255 && count_kind(modules, ModuleType::Lfo) <= 255 && count_kind(
        modules,
        ModuleType::Echo,
    ) <= 255 && count_kind(modules, ModuleType::EnvFilter) <= 255 && count_kind(
        modules,
        ModuleType::Chorus,
    ) <= 255 && count_kind(modules, ModuleType::Delay) <= 255 && count_kind(
        modules,
        ModuleType::OverDrive,
    ) <= 255 && count_kind(modules, ModuleType::Reverb) <= 255 && count_kind(
        modules,
        ModuleType::MCO,
    ) <= 255;
    proof {
        if r {
            assert forall|t: ModuleType| #[trigger] type_count(modules@, t) <= 255 by {
                match t {
                    ModuleType::Vco => {},
                    ModuleType::Output => {},
                    ModuleType::Lfo => {},
                    ModuleType::Echo => {},
                    ModuleType::EnvFilter => {},
                    ModuleType::Chorus => {},
                    ModuleType::Delay => {},
                    ModuleType::OverDrive => {},
                    ModuleType::Reverb => {},
                    ModuleType::MCO => {},
                }
            }
        }
    }
    r
}

/// Counts the modules of each kind while they are drawn, and holds the DOT
/// text of the graph.
#[derive(Debug, Clone)]
pub struct ModCounter {
    vco: u8,
    lfo: u8,
    mco: u8,
    echo: u8,
    delay: u8,
    chorus: u8,
    reverb: u8,
    env: u8,
    od: u8,
    output: u8,
    i: usize,
    modules: Vec<ModuleType>,
    /// the DOT text written so far
    pub graph: Vec<u8>,
}

impl ModCounter {
    /// How many modules of kind `t` have been drawn.
    pub closed spec fn drawn(self, t: ModuleType) -> nat {
        match t {
            ModuleType::Vco => self.vco as nat,
            ModuleType::Lfo => self.lfo as nat,
            ModuleType::MCO => self.mco as nat,
            ModuleType::Echo => self.echo as nat,
            ModuleType::Delay => self.delay as nat,
            ModuleType::Chorus => self.chorus as nat,
            ModuleType::Reverb => self.reverb as nat,
            ModuleType::EnvFilter => self.env as nat,
            ModuleType::OverDrive => self.od as nat,
            ModuleType::Output => self.output as nat,
        }
    }

    /// The DOT text written so far.
    pub closed spec fn written(self) -> Seq<u8> {
        self.graph@
    }

    /// The modules to draw, in order.
    pub closed spec fn module_list(self) -> Seq<ModuleType> {
        self.modules@
    }

    /// A counter for drawing `modules`, with nothing drawn or written yet.
    pub fn new(modules: &[ModuleType]) -> (c: ModCounter)
        ensures
            c.module_list() == modules@,
            forall|t: ModuleType| c.drawn(t) == 0,
            c.written() == Seq::<u8>::empty(),
    {
        let mut mods: Vec<ModuleType> = Vec::new();
        let mut i: usize = 0;
        while i < modules.len()
            invariant
                i <= modules.len(),
                mods@ == modules@.take(i as int),
            decreases modules.len() - i,
        {
            mods.push(modules[i]);
            i = i + 1;
            assert(mods@ =~= modules@.take(i as int));
        }
        assert(modules@.take(modules.len() as int) =~= modules@);
        ModCounter {
            vco: 0,
            lfo: 0,
            mco: 0,
            echo: 0,
            delay: 0,
            chorus: 0,
            reverb: 0,
            env: 0,
            od: 0,
            output: 0,
            i: 0,
            modules: mods,
            graph: Vec::new(),
        }
    }

    /// How many modules of kind `t` have been drawn.
    pub fn count_of(&self, t: ModuleType) -> (n: u8)
        ensures
            n == self.drawn(t),
    {
        match t {
            ModuleType::Vco => self.vco,
            ModuleType::Lfo => self.lfo,
            ModuleType::MCO => self.mco,
            ModuleType::Echo => self.echo,
            ModuleType::Delay => self.delay,
            ModuleType::Chorus => self.chorus,
            ModuleType::Reverb => self.reverb,
            ModuleType::EnvFilter => self.env,
            ModuleType::OverDrive => self.od,
            ModuleType::Output => self.output,
        }
    }

    /// Counts one more drawn module of kind `t`.
    fn bump(&mut self, t: ModuleType)
        requires
            old(self).drawn(t) < 255,
        ensures
            final(self).drawn(t) == old(self).drawn(t) + 1,
            forall|u: ModuleType| u != t ==> final(self).drawn(u) == old(self).drawn(u),
            final(self).module_list() == old(self).module_list(),
            final(self).graph == old(self).graph,
    {
        match t {
            ModuleType::Vco => self.vco = self.vco + 1,
            ModuleType::Lfo => self.lfo = self.lfo + 1,
            ModuleType::MCO => self.mco = self.mco + 1,
            ModuleType::Echo => self.echo = self.echo + 1,
            ModuleType::Delay => self.delay = self.delay + 1,
            ModuleType::Chorus => self.chorus = self.chorus + 1,
            ModuleType::Reverb => self.reverb = self.reverb + 1,
            ModuleType::EnvFilter => self.env = self.env + 1,
            ModuleType::OverDrive => self.od = self.od + 1,
            ModuleType::Output => self.output = self.output + 1,
        }
    }

    /// Appends to `graph` the DOT text of a directed graph with one cluster
    /// per module, in order (see `graph_text`): the `k`-th module of a kind
    /// is drawn with count `k` more than was already drawn of that kind.
    /// Afterwards each kind's count has grown by the number of its modules.
    pub fn mk_graph(&mut self)
        requires
            forall|t: ModuleType|
                #[trigger] old(self).drawn(t) + type_count(old(self).module_list(), t) <= 255,
        ensures
            final(self).module_list() == old(self).module_list(),
            forall|t: ModuleType|
                #[trigger] final(self).drawn(t) == old(self).drawn(t) + type_count(
                    old(self).module_list(),
                    t,
                ),
            final(self).written() == old(self).written() + encode_utf8(
                graph_text(old(self).module_list(), |t: ModuleType| old(self).drawn(t)),
            ),
    {
        let mut bytes: Vec<u8> = Vec::new();
        std::mem::swap(&mut bytes, &mut self.graph);
        let ghost start = *self;
        let ghost start_bytes = bytes@;
        let ghost first = |t: ModuleType| start.drawn(t);
        assert(forall|t: ModuleType| #[trigger] start.drawn(t) == old(self).drawn(t));
        assert(start.module_list() == old(self).module_list());
        let mut record: Option<DotText> = None;
        {
            let (mut doc, log) = writer_into(&mut bytes, &mut record);
            let ghost id = doc.doc();
            let mut graph = open_digraph(&mut doc, log);
            let mut i: usize = 0;
            while i < self.modules.len()
                invariant
                    i <= self.modules@.len(),
                    self.module_list() == start.module_list(),
                    forall|t: ModuleType|
                        #[trigger] start.drawn(t) + type_count(start.module_list(), t) <= 255,
                    forall|t: ModuleType|
                        #[trigger] self.drawn(t) == start.drawn(t) + type_count(
                            start.module_list().take(i as int),
                            t,
                        ),
                    first == (|t: ModuleType| start.drawn(t)),
                    log.text() == dot_line(0, "digraph {"@) + graph_clusters(
                        start.module_list().take(i as int),
                        first,
                    ),
                    log.indent() == 2,
                    log.next_cluster() == i,
                    log.open() == 1,
                    log.doc() == graph.doc(),
                    log.doc() == id,
                decreases self.modules@.len() - i,
            {
                let ghost pre = start.module_list().take(i as int);
                assert(start.module_list().take(i + 1).drop_last() =~= pre);
                let module = self.modules[i];
                proof {
                    lemma_type_count_prefix(start.module_list(), i as int + 1, module);
                }
                let count = self.count_of(module);
                let ghost before = log.text();
                let inputs = get_module_inputs(module);
                let outputs = get_module_outputs(module);
                proof {
                    lemma_spelled_names(inputs@, input_names_spec(module));
                    lemma_spelled_names(outputs@, output_names_spec(module));
                }
                let mut cluster = open_cluster(&mut graph, log);
                mk_subgraph(count, module, inputs, outputs, &mut cluster, log);
                close_scope(cluster, log);
                proof {
                    assert(start.module_list()[i as int] == module);
                    assert(first(module) == start.drawn(module));
                    lemma_cluster_step(start.module_list(), first, i as int, count as nat);
                    lemma_cluster_text(before, i as nat, module, count as nat);
                    assert(log.text() =~= dot_line(0, "digraph {"@) + graph_clusters(
                        start.module_list().take(i + 1),
                        first,
                    ));
                }
                self.bump(module);
                i = i + 1;
            }
            assert(start.module_list().take(self.modules@.len() as int) =~= start.module_list());
            close_scope(graph, log);
            assert(log.text() =~= graph_text(start.module_list(), first));
        }
        let ghost before = *self;
        self.graph = bytes;
        assert(first =~= (|t: ModuleType| old(self).drawn(t)));
        assert forall|t: ModuleType| #[trigger] self.drawn(t) == old(self).drawn(t) + type_count(
            old(self).module_list(),
            t,
        ) by {
            assert(self.drawn(t) == before.drawn(t));
            assert(before.drawn(t) == start.drawn(t) + type_count(
                start.module_list().take(self.modules@.len() as int),
                t,
            ));
        }
    }
}

proof fn lemma_type_count_prefix(ts: Seq<ModuleType>, n: int, t: ModuleType)
    requires
        0 <= n <= ts.len(),
    ensures
        type_count(ts.take(n), t) <= type_count(ts, t),
    decreases ts.len() - n,
{
    if n < ts.len() {
        lemma_type_count_prefix(ts, n + 1, t);
        assert(ts.take(n + 1).drop_last() =~= ts.take(n));
    } else {
        assert(ts.take(n) =~= ts);
    }
}

proof fn lemma_cluster_step(
    ms: Seq<ModuleType>,
    first: spec_fn(ModuleType) -> nat,
    i: int,
    count: nat,
)
    requires
        0 <= i < ms.len(),
        count == first(ms[i]) + type_count(ms.take(i), ms[i]),
    ensures
        graph_clusters(ms.take(i + 1), first) == graph_clusters(ms.take(i), first) + cluster_text(
            2,
            i as nat,
            ms[i],
            count,
        ),
{
    let post = ms.take(i + 1);
    assert(post.drop_last() =~= ms.take(i));
    assert(post.last() == ms[i]);
}

proof fn lemma_cluster_text(before: Seq<char>, k: nat, t: ModuleType, count: nat)
    ensures
        before + dot_line(2, "subgraph cluster_"@ + decimal_chars(k) + " {"@) + module_text(
            4,
            t,
            count,
            input_names_spec(t),
            output_names_spec(t),
        ) + dot_line(2, "}"@) =~= before + cluster_text(2, k, t, count),
{
    reveal(cluster_text);
}

/// The characters of each string of `v`.
pub open spec fn names_of(v: Seq<String>) -> Seq<Seq<char>> {
    Seq::new(v.len(), |i: int| v[i]@)
}

proof fn lemma_spelled_names(v: Seq<String>, names: Seq<Seq<char>>)
    requires
        spells(v, names),
    ensures
        names_of(v) == names,
{
    assert(names_of(v) =~= names);
}

/// The DOT text of the node of one port: its id, shape circle and the
/// port's name as label.
#[verifier::opaque]
pub open spec fn port_node_text(indent: nat, id: Seq<char>, name: Seq<char>) -> Seq<char> {
    spaces(indent) + id + node_attr(true, "shape"@, shape_name(NodeShape::Circle)) + node_attr(
        false,
        "label"@,
        quoted(name),
    ) + "]"@ + ";\n"@
}

/// The DOT text of the port nodes of the `count`-th module of kind `t`,
/// one per name, numbered from 0.
pub open spec fn port_nodes(indent: nat, t: ModuleType, count: nat, names: Seq<Seq<char>>) -> Seq<
    char,
>
    decreases names.len(),
{
    if names.len() == 0 {
        Seq::empty()
    } else {
        port_nodes(indent, t, count, names.drop_last()) + port_node_text(
            indent,
            node_id_spec(t, count, (names.len() - 1) as nat),
            names.last(),
        )
    }
}

/// The DOT text of a box of ports: a subgraph of shape rectangle labelled
/// `title`, holding the port nodes.
#[verifier::opaque]
pub open spec fn ports_box(
    indent: nat,
    title: Seq<char>,
    t: ModuleType,
    count: nat,
    names: Seq<Seq<char>>,
) -> Seq<char> {
    dot_line(indent, "subgraph {"@) + dot_line(
        indent + 2,
        "shape="@ + shape_name(NodeShape::Rectangle) + ";"@,
    ) + dot_line(indent + 2, "label="@ + quoted(title) + ";"@) + port_nodes(
        indent + 2,
        t,
        count,
        names,
    ) + dot_line(indent, "}"@)
}

/// The DOT text that draws the `count`-th module of kind `t` into its
/// cluster: shape rectangle, the kind's identifier as label, then an
/// "inputs" box and an "outputs" box.
#[verifier::opaque]
pub open spec fn module_text(
    indent: nat,
    t: ModuleType,
    count: nat,
    inputs: Seq<Seq<char>>,
    outputs: Seq<Seq<char>>,
) -> Seq<char> {
    dot_line(indent, "shape="@ + shape_name(NodeShape::Rectangle) + ";"@) + dot_line(
        indent,
        "label="@ + quoted(module_type_ident(t)) + ";"@,
    ) + ports_box(indent, "inputs"@, t, count, inputs) + ports_box(
        indent,
        "outputs"@,
        t,
        count,
        outputs,
    )
}

/// The DOT text of the `k`-th cluster of a graph, drawing the `count`-th
/// module of kind `t`.
#[verifier::opaque]
pub open spec fn cluster_text(indent: nat, k: nat, t: ModuleType, count: nat) -> Seq<char> {
    dot_line(indent, "subgraph cluster_"@ + decimal_chars(k) + " {"@) + module_text(
        indent + 2,
        t,
        count,
        input_names_spec(t),
        output_names_spec(t),
    ) + dot_line(indent, "}"@)
}

/// The clusters of the graph of `ms`, one per module in order; the count of
/// a module is `first` of its kind plus the number of its kind before it.
pub open spec fn graph_clusters(ms: Seq<ModuleType>, first: spec_fn(ModuleType) -> nat) -> Seq<
    char,
>
    decreases ms.len(),
{
    if ms.len() == 0 {
        Seq::empty()
    } else {
        let prev = ms.drop_last();
        let t = ms.last();
        graph_clusters(prev, first) + cluster_text(
            2,
            prev.len(),
            t,
            first(t) + type_count(prev, t),
        )
    }
}

/// The DOT text of the module graph of `ms`: a directed graph holding the
/// clusters of `graph_clusters`.
pub open spec fn graph_text(ms: Seq<ModuleType>, first: spec_fn(ModuleType) -> nat) -> Seq<char> {
    dot_line(0, "digraph {"@) + graph_clusters(ms, first) + dot_line(0, "}"@)
}

/// Draws one module into the open cluster `writer`: labels it with the
/// kind's identifier and gives it an "inputs" and an "outputs" box, each
/// with one circle per port, whose id is `node_id(module_name, count,
/// port)` and whose label is the port's name (see `module_text`).
fn mk_subgraph(
    count: u8,
    module_name: ModuleType,
    get_inputs: Vec<String>,
    get_outputs: Vec<String>,
    writer: &mut DotScope<'_, '_>,
    log: &mut DotText,
)
    requires
        old(log).doc() == old(writer).doc(),
    ensures
        final(log).text() == old(log).text() + module_text(
            old(log).indent(),
            module_name,
            count as nat,
            names_of(get_inputs@),
            names_of(get_outputs@),
        ),
        final(log).indent() == old(log).indent(),
        final(log).next_cluster() == old(log).next_cluster(),
        final(log).open() == old(log).open(),
        final(log).doc() == old(log).doc(),
        final(writer).doc() == old(writer).doc(),
{
    let ghost start = log.text();
    let ghost indent = log.indent();
    scope_shape(writer, log, NodeShape::Rectangle);
    let label = module_name.ident();
    scope_label(writer, log, label.as_str());
    let ghost head = log.text();
    assert(head =~= start + dot_line(indent, "shape="@ + shape_name(NodeShape::Rectangle) + ";"@)
        + dot_line(indent, "label="@ + quoted(module_type_ident(module_name)) + ";"@));
    draw_ports(count, module_name, &get_inputs, "inputs", writer, log);
    draw_ports(count, module_name, &get_outputs, "outputs", writer, log);
    proof {
        reveal_strlit("inputs");
        reveal_strlit("outputs");
    }
    reveal(module_text);
    assert(log.text() =~= start + module_text(
        indent,
        module_name,
        count as nat,
        names_of(get_inputs@),
        names_of(get_outputs@),
    ));
}

/// Draws a box of ports titled `title` into `writer` (see `ports_box`).
fn draw_ports(
    count: u8,
    module_name: ModuleType,
    names: &Vec<String>,
    title: &str,
    writer: &mut DotScope<'_, '_>,
    log: &mut DotText,
)
    requires
        old(log).doc() == old(writer).doc(),
    ensures
        final(log).text() == old(log).text() + ports_box(
            old(log).indent(),
            title@,
            module_name,
            count as nat,
            names_of(names@),
        ),
        final(log).indent() == old(log).indent(),
        final(log).next_cluster() == old(log).next_cluster(),
        final(log).open() == old(log).open(),
        final(log).doc() == old(log).doc(),
        final(writer).doc() == old(writer).doc(),
{
    let ghost start = log.text();
    let ghost indent = log.indent();
    let ghost doc0 = log.doc();
    let mut ports = open_subgraph(writer, log);
    scope_shape(&mut ports, log, NodeShape::Rectangle);
    scope_label(&mut ports, log, title);
    let ghost head = log.text();
    let mut port: usize = 0;
    while port < names.len()
        invariant
            port <= names@.len(),
            log.text() == head + port_nodes(
                indent + 2,
                module_name,
                count as nat,
                names_of(names@).take(port as int),
            ),
            log.indent() == indent + 2,
            log.doc() == ports.doc(),
            log.doc() == doc0,
            log.open() == old(log).open() + 1,
            log.next_cluster() == old(log).next_cluster(),
        decreases names.len() - port,
    {
        let ghost before = log.text();
        let mut node = named_node(&mut ports, log, node_id(module_name, count, port));
        node_shape(&mut node, log, NodeShape::Circle);
        node_label(&mut node, log, names[port].as_str());
        end_node(node, log);
        proof {
            reveal(port_node_text);
            let taken = names_of(names@).take(port + 1);
            assert(taken.drop_last() =~= names_of(names@).take(port as int));
            assert(taken.last() == names@[port as int]@);
            assert(log.text() =~= head + port_nodes(indent + 2, module_name, count as nat, taken));
        }
        port = port + 1;
    }
    assert(names_of(names@).take(names@.len() as int) =~= names_of(names@));
    close_scope(ports, log);
    reveal(ports_box);
    assert(log.text() =~= start + ports_box(
        indent,
        title@,
        module_name,
        count as nat,
        names_of(names@),
    ));
}

/// The DOT text of the module graph of `modules`, counting each kind from 0
/// (see `graph_text`).
pub fn mk_graph(modules: &[ModuleType]) -> (graph: Vec<u8>)
    requires
        forall|t: ModuleType| type_count(modules@, t) <= 255,
    ensures
        graph@ == encode_utf8(graph_text(modules@, |t: ModuleType| 0nat)),
{
    let mut mods = ModCounter::new(modules);
    let ghost fresh = mods;
    mods.mk_graph();
    proof {
        assert((|t: ModuleType| fresh.drawn(t)) =~= (|t: ModuleType| 0nat)) by {
            assert(forall|t: ModuleType| #[trigger] fresh.drawn(t) == 0);
        }
    }
    mods.graph
}

} // verus!
