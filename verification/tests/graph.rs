use synth_8080::graphs::{decimal, get_module_inputs, get_module_outputs, graph_counts_fit, mk_graph, node_id, ModCounter};
use synth_8080::types::ModuleType;

#[test]
fn port_names() {
    assert_eq!(get_module_inputs(ModuleType::Vco), vec!["Vol.", "Pitch", "Bend"]);
    assert_eq!(get_module_outputs(ModuleType::EnvFilter), vec!["Audio Out", "Env", "Open"]);
    assert_eq!(get_module_inputs(ModuleType::OverDrive), vec!["Audio In", "Gain"]);
    let mco = get_module_inputs(ModuleType::MCO);
    assert_eq!(mco.len(), 11);
    assert_eq!(mco[0], "Vol.");
    assert_eq!(mco[3], "Filter Select");
    assert_eq!(get_module_outputs(ModuleType::MCO), vec!["Audio Out", "Audio Out", "Env", "Open"]);
    assert!(get_module_inputs(ModuleType::Lfo).is_empty());
    assert!(get_module_outputs(ModuleType::Reverb).is_empty());
}

#[test]
fn numerals_and_node_ids() {
    assert_eq!(decimal(0), "0");
    assert_eq!(decimal(9), "9");
    assert_eq!(decimal(10), "10");
    assert_eq!(decimal(907), "907");
    assert_eq!(node_id(ModuleType::Vco, 12, 3), "Vco-12-3");
    assert_eq!(node_id(ModuleType::EnvFilter, 0, 0), "EnvFilter-0-0");
}

#[test]
fn graph_of_one_output_module() {
    let text = String::from_utf8(mk_graph(&[ModuleType::Output])).unwrap();
    let expected = "digraph {\n  subgraph cluster_0 {\n    shape=rectangle;\n    label=\"Output\";\n    subgraph {\n      shape=rectangle;\n      label=\"inputs\";\n      Output-0-0 [shape=circle, label=\"Audio In\"];\n    }\n    subgraph {\n      shape=rectangle;\n      label=\"outputs\";\n      Output-0-0 [shape=circle, label=\"Audio Out\"];\n    }\n  }\n}\n";
    assert_eq!(text, expected);
}

#[test]
fn graph_counts_modules_per_kind() {
    let text = String::from_utf8(mk_graph(&[ModuleType::Vco, ModuleType::Lfo, ModuleType::Vco])).unwrap();
    assert!(text.contains("Vco-0-2 [shape=circle, label=\"Bend\"];"));
    assert!(text.contains("Vco-1-0 [shape=circle, label=\"Vol.\"];"));
    assert!(text.contains("subgraph cluster_2 {"));
    assert!(text.contains("label=\"Lfo\";"));
    let mut counter = ModCounter::new(&[ModuleType::Echo, ModuleType::Echo]);
    counter.mk_graph();
    assert_eq!(counter.count_of(ModuleType::Echo), 2);
    assert_eq!(counter.count_of(ModuleType::Vco), 0);
    assert!(!counter.graph.is_empty());
}

#[test]
fn graph_counts_must_fit_a_byte() {
    assert!(graph_counts_fit(&[ModuleType::Vco, ModuleType::Vco]));
    assert!(graph_counts_fit(&vec![ModuleType::Reverb; 255]));
    assert!(!graph_counts_fit(&vec![ModuleType::Reverb; 256]));
    let mut mixed = vec![ModuleType::Lfo; 200];
    mixed.extend(vec![ModuleType::Echo; 200]);
    assert!(graph_counts_fit(&mixed));
}

#[test]
fn graph_is_the_same_on_every_call() {
    let mods = [ModuleType::Vco, ModuleType::EnvFilter, ModuleType::Vco];
    assert_eq!(mk_graph(&mods), mk_graph(&mods));
    let text = String::from_utf8(mk_graph(&mods)).unwrap();
    assert!(text.starts_with("digraph {\n  subgraph cluster_0 {\n    shape=rectangle;\n    label=\"Vco\";\n"));
    assert!(text.contains("  subgraph cluster_2 {\n    shape=rectangle;\n    label=\"Vco\";\n    subgraph {\n      shape=rectangle;\n      label=\"inputs\";\n      Vco-1-0 [shape=circle, label=\"Vol.\"];\n"));
    assert!(text.contains("      EnvFilter-0-7 [shape=circle, label=\"Decay2\"];\n"));
    assert!(text.ends_with("    }\n  }\n}\n"));
}
