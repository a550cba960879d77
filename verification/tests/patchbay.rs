use synth_8080::common;
use synth_8080::controller::{Controller, OscilatorId};
use synth_8080::error::SynthError;
use synth_8080::router::{construction_id, ModuleRef, Modules};
use synth_8080::synth::{default_connections, default_modules, default_patch_fits, routing_plan, AudioGen};
use synth_8080::types::{Connection, ModuleType};

fn con(a: u8, b: u8, c: u8, d: u8) -> Connection {
    Connection { src_module: a, src_output: b, dest_module: c, dest_input: d }
}

#[test]
fn connect_and_disconnect() {
    let mut c = Controller::new(&[ModuleType::Vco, ModuleType::EnvFilter]);
    assert_eq!(c.connect(1, 0, 2, 1), Ok(()));
    assert_eq!(c.connect(1, 0, 2, 1), Err(SynthError::AlreadyConnected));
    assert_eq!(c.connect(2, 0, 0, 0), Ok(()));
    assert_eq!(c.connections, vec![con(1, 0, 2, 1), con(2, 0, 0, 0)]);
    assert_eq!(c.disconnect(1, 0, 2, 1), Ok(()));
    assert_eq!(c.connections, vec![con(2, 0, 0, 0)]);
    assert_eq!(c.disconnect(1, 0, 2, 1), Err(SynthError::NotConnected));
    c.disconnect_all();
    assert!(c.connections.is_empty());
}

#[test]
fn connect_then_disconnect_restores() {
    let mut c = Controller::new(&[ModuleType::Lfo, ModuleType::Vco]);
    c.connect(1, 0, 2, 2).unwrap();
    let before = c.connections.clone();
    c.connect(2, 0, 0, 0).unwrap();
    c.disconnect(2, 0, 0, 0).unwrap();
    assert_eq!(c.connections, before);
}

#[test]
fn disconnect_keeps_other_connections_in_order() {
    let mut c = Controller::new(&[]);
    c.connections = vec![con(1, 0, 0, 0), con(2, 0, 0, 0), con(1, 0, 0, 0), con(3, 0, 0, 0)];
    assert_eq!(c.disconnect(1, 0, 0, 0), Ok(()));
    assert_eq!(c.connections, vec![con(2, 0, 0, 0), con(3, 0, 0, 0)]);
}

#[test]
fn modules_from_numbers_each_kind() {
    let m = Modules::from(&[
        ModuleType::Vco,
        ModuleType::EnvFilter,
        ModuleType::Output,
        ModuleType::Vco,
        ModuleType::EnvFilter,
        ModuleType::Lfo,
    ]);
    assert_eq!(
        m.indices,
        vec![
            (ModuleType::Vco, 0),
            (ModuleType::EnvFilter, 0),
            (ModuleType::Vco, 1),
            (ModuleType::EnvFilter, 1),
            (ModuleType::Lfo, 0),
        ]
    );
    assert_eq!(construction_id(1, ModuleType::EnvFilter), 1);
    assert_eq!(construction_id(0, ModuleType::EnvFilter), 0);
    assert_eq!(construction_id(2, ModuleType::Vco), 2);
    assert_eq!(construction_id(300, ModuleType::Vco), 44);
}

#[test]
fn sources_and_destinations() {
    let mut m = Modules::from(&[ModuleType::MCO, ModuleType::Chorus]);
    assert_eq!(m.source_of(0), Some(ModuleRef::AudioOut));
    assert_eq!(m.source_of(2), Some(ModuleRef::Module(ModuleType::Chorus, 0)));
    assert_eq!(m.source_of(3), None);
    assert_eq!(m.source_count(), 3);
    assert_eq!(m.destination_of(0), None);
    assert_eq!(m.destination_of(1), Some((ModuleType::MCO, 0)));
    m.indices.insert(1, (ModuleType::Output, 0));
    assert_eq!(m.source_of(2), None);
    assert_eq!(m.destination_of(2), None);
    assert_eq!(m.source_count(), 2);
}

#[test]
fn source_count_caps_at_255() {
    let types = vec![ModuleType::Lfo; 300];
    let m = Modules::from(&types);
    assert_eq!(m.source_count(), 255);
}

#[test]
fn connection_list_names_modules() {
    let mut c = Controller::new(&[ModuleType::Vco, ModuleType::EnvFilter, ModuleType::Vco]);
    c.connect(3, 0, 2, 1).unwrap();
    c.connect(2, 0, 0, 0).unwrap();
    assert_eq!(
        c.connection_list(),
        vec![
            (ModuleType::Vco, 0, 1, ModuleType::EnvFilter, 1, 0),
            (ModuleType::EnvFilter, 0, 0, ModuleType::Output, 0, 0),
        ]
    );
}

#[test]
fn connect_modules_by_kind_and_index() {
    let mut c = Controller::new(&[ModuleType::Vco, ModuleType::Lfo, ModuleType::Vco]);
    assert_eq!(c.connect_modules((ModuleType::Lfo, 0, 0), (ModuleType::Vco, 1, 2)), Some(()));
    assert_eq!(c.connections, vec![con(2, 0, 3, 2)]);
    // asking again is answered the same way and changes nothing
    assert_eq!(c.connect_modules((ModuleType::Lfo, 0, 0), (ModuleType::Vco, 1, 2)), Some(()));
    assert_eq!(c.connections, vec![con(2, 0, 3, 2)]);
    assert_eq!(c.connect_modules((ModuleType::Vco, 1, 0), (ModuleType::Output, 7, 0)), Some(()));
    assert_eq!(c.connections[1], con(3, 0, 0, 0));
    assert_eq!(c.connect_modules((ModuleType::Echo, 0, 0), (ModuleType::Output, 0, 0)), None);
    assert_eq!(c.disconnect_modules((ModuleType::Lfo, 0, 0), (ModuleType::Vco, 1, 2)), Some(()));
    assert_eq!(c.disconnect_modules((ModuleType::Lfo, 0, 0), (ModuleType::Vco, 1, 2)), Some(()));
    assert_eq!(c.connections, vec![con(3, 0, 0, 0)]);
    assert_eq!(c.disconnect_modules((ModuleType::Vco, 5, 0), (ModuleType::Output, 0, 0)), None);
}

#[test]
fn oscillator_ids_pair_vcos_with_filters() {
    let ids = OscilatorId::new_s(&[common::ModuleType::Vco, common::ModuleType::Lfo, common::ModuleType::EnvFilter, common::ModuleType::Vco, common::ModuleType::Vco, common::ModuleType::EnvFilter]).unwrap();
    let pairs: Vec<(usize, usize)> = ids.iter().map(|i| i.get()).collect();
    assert_eq!(pairs, vec![(0, 2), (3, 5)]);
    assert!(OscilatorId::new_s(&[common::ModuleType::EnvFilter]).unwrap().is_empty());
}

#[test]
fn default_module_list() {
    assert_eq!(
        default_modules(),
        vec![
            ModuleType::MCO,
            ModuleType::Lfo,
            ModuleType::Echo,
            ModuleType::Chorus,
            ModuleType::Delay,
            ModuleType::OverDrive,
            ModuleType::Reverb,
            ModuleType::Lfo,
            ModuleType::Lfo,
            ModuleType::Lfo,
        ]
    );
}

#[test]
fn default_patch_wires_pairs_into_chorus() {
    let mut c = Controller::new(&[
        ModuleType::Vco,
        ModuleType::EnvFilter,
        ModuleType::Chorus,
        ModuleType::Vco,
        ModuleType::EnvFilter,
        ModuleType::Vco,
    ]);
    default_connections(&mut c, 5);
    assert_eq!(
        c.connections,
        vec![
            con(1, 0, 2, 1),
            con(2, 0, 3, 0),
            con(4, 0, 5, 1),
            con(5, 0, 3, 0),
            con(3, 0, 0, 0),
        ]
    );
    // asking again changes nothing: every connection is already made
    default_connections(&mut c, 1);
    assert_eq!(c.connections.len(), 5);
}

#[test]
fn default_patch_with_no_pairs() {
    let mut c = Controller::new(&default_modules());
    default_connections(&mut c, 3);
    assert_eq!(c.connections, vec![con(4, 0, 0, 0)]);
}

#[test]
fn routing_groups_sources_by_input() {
    let cons = vec![con(1, 0, 3, 0), con(2, 0, 0, 0), con(4, 1, 3, 0), con(1, 0, 0, 0)];
    let plan = routing_plan(&cons);
    assert_eq!(plan.len(), 2);
    assert_eq!((plan[0].dest_module, plan[0].dest_input), (3, 0));
    assert_eq!(plan[0].sources, vec![(1, 0), (4, 1)]);
    assert_eq!((plan[1].dest_module, plan[1].dest_input), (0, 0));
    assert_eq!(plan[1].sources, vec![(2, 0), (1, 0)]);
    assert!(routing_plan(&Vec::new()).is_empty());
}

#[test]
fn module_type_names() {
    assert_eq!(ModuleType::EnvFilter.name(), "Filter");
    assert_eq!(ModuleType::OverDrive.name(), "OD");
    assert_eq!(ModuleType::Vco.name(), "VCO");
    assert_eq!(ModuleType::EnvFilter.ident(), "EnvFilter");
}

#[test]
fn a_list_may_start_with_an_envelope_filter() {
    let m = Modules::from(&[ModuleType::EnvFilter, ModuleType::Vco, ModuleType::EnvFilter]);
    assert_eq!(
        m.indices,
        vec![(ModuleType::EnvFilter, 0), (ModuleType::Vco, 0), (ModuleType::EnvFilter, 1)]
    );
    let c = Controller::new(&[ModuleType::EnvFilter]);
    assert_eq!(c.modules.indices, vec![(ModuleType::EnvFilter, 0)]);
}

#[test]
fn module_ids_by_kind_and_index() {
    let c = Controller::new(&[ModuleType::Vco, ModuleType::Lfo, ModuleType::Vco]);
    assert_eq!(c.module_id(ModuleType::Vco, 1), Some(3));
    assert_eq!(c.module_id(ModuleType::Lfo, 0), Some(2));
    assert_eq!(c.module_id(ModuleType::Output, 4), Some(0));
    assert_eq!(c.module_id(ModuleType::Vco, 2), None);
    assert_eq!(c.module_id(ModuleType::Echo, 0), None);
}

#[test]
fn describable_connections() {
    let mut c = Controller::new(&[ModuleType::Vco, ModuleType::Chorus]);
    c.connect(1, 0, 2, 0).unwrap();
    c.connect(2, 0, 0, 0).unwrap();
    assert!(c.connections_describable());
    c.connect(3, 0, 0, 0).unwrap();
    assert!(!c.connections_describable());
    c.disconnect(3, 0, 0, 0).unwrap();
    c.connect(0, 0, 1, 0).unwrap();
    assert!(!c.connections_describable());
}

#[test]
fn default_patch_needs_a_chorus() {
    let c = Controller::new(&[ModuleType::Vco, ModuleType::EnvFilter]);
    assert!(!default_patch_fits(&c, 1));
    let c = Controller::new(&[ModuleType::Vco, ModuleType::EnvFilter, ModuleType::Chorus]);
    assert!(default_patch_fits(&c, 1));
    let mut types = vec![ModuleType::Lfo; 255];
    types.push(ModuleType::Chorus);
    let c = Controller::new(&types);
    assert!(!default_patch_fits(&c, 0));
}

#[test]
fn default_patch_twice_changes_nothing() {
    let mut c = Controller::new(&[
        ModuleType::Vco,
        ModuleType::EnvFilter,
        ModuleType::Chorus,
        ModuleType::Vco,
        ModuleType::EnvFilter,
    ]);
    c.connect(2, 0, 0, 0).unwrap();
    default_connections(&mut c, 2);
    let once = c.connections.clone();
    default_connections(&mut c, 2);
    assert_eq!(c.connections, once);
    assert_eq!(once.len(), 6);
}

#[test]
fn sample_pass_plan() {
    let mut c = Controller::new(&[ModuleType::Vco, ModuleType::EnvFilter, ModuleType::Chorus]);
    c.connect(1, 0, 2, 1).unwrap();
    c.connect(2, 0, 3, 0).unwrap();
    c.connect(3, 0, 0, 0).unwrap();
    c.connect(1, 0, 3, 0).unwrap();
    let gen = AudioGen { controller: c };
    let (sources, plan) = gen.plan_pass();
    assert_eq!(sources, 4);
    assert_eq!(plan.len(), 3);
    assert_eq!((plan[1].dest_module, plan[1].dest_input), (3, 0));
    assert_eq!(plan[1].sources, vec![(2, 0), (1, 0)]);
}
