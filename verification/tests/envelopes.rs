use synth_8080::buffers::{DelayCursor, EchoCursor};
use synth_8080::controls::{mux_levels, panel_command, PanelAction};
use synth_8080::envelope::{
    Ad, AdPhase, Adbdr, AdbdrPhase, Adsr, AdsrPhase, GateLevel, LevelMarks, LevelReset,
};

fn marks(at_peak: bool, at_threshold: bool, at_release_mark: bool, at_floor: bool) -> LevelMarks {
    LevelMarks { at_peak, at_threshold, at_release_mark, at_floor }
}

const HIGH: GateLevel = GateLevel { high: true, low: false };
const LOW: GateLevel = GateLevel { high: false, low: true };
const NONE: LevelMarks = LevelMarks { at_peak: false, at_threshold: false, at_release_mark: false, at_floor: false };

#[test]
fn adsr_runs_through_its_stages() {
    let mut e = Adsr::new();
    assert_eq!(e.phase(), AdsrPhase::Neutral);
    assert!(!e.is_active());
    assert!(e.gate(HIGH));
    assert_eq!(e.phase(), AdsrPhase::Attack);
    assert_eq!(e.advance(NONE), LevelReset::Keep);
    assert_eq!(e.phase(), AdsrPhase::Attack);
    assert_eq!(e.advance(marks(true, false, false, false)), LevelReset::ToPeak);
    assert_eq!(e.phase(), AdsrPhase::Decay);
    assert_eq!(e.advance(marks(false, true, false, false)), LevelReset::Keep);
    assert_eq!(e.phase(), AdsrPhase::Sustain);
    // the held key keeps the envelope in its sustain
    assert!(e.gate(HIGH));
    assert_eq!(e.phase(), AdsrPhase::Sustain);
    assert!(!e.gate(LOW));
    assert_eq!(e.phase(), AdsrPhase::Release);
    assert_eq!(e.advance(marks(false, false, false, true)), LevelReset::ToZero);
    assert_eq!(e.phase(), AdsrPhase::Neutral);
}

#[test]
fn adsr_ignores_a_press_while_releasing() {
    let mut e = Adsr::new();
    e.gate(HIGH);
    e.gate(LOW);
    assert_eq!(e.phase(), AdsrPhase::Release);
    assert!(!e.gate(HIGH));
    assert_eq!(e.phase(), AdsrPhase::Release);
    assert!(e.is_active());
}

#[test]
fn ad_decays_then_releases_at_the_floor() {
    let mut e = Ad::new();
    e.gate(HIGH);
    assert_eq!(e.advance(marks(true, false, false, false)), LevelReset::ToPeak);
    assert_eq!(e.phase(), AdPhase::Decay);
    assert_eq!(e.advance(marks(false, true, true, false)), LevelReset::Keep);
    assert_eq!(e.phase(), AdPhase::Decay);
    e.advance(marks(false, false, false, true));
    assert_eq!(e.phase(), AdPhase::Release);
    assert_eq!(e.advance(marks(false, false, false, true)), LevelReset::ToZero);
    assert_eq!(e.phase(), AdPhase::Neutral);
}

#[test]
fn adbdr_breaks_between_two_decays() {
    let mut e = Adbdr::new();
    assert!(e.gate(HIGH));
    e.advance(marks(true, false, false, false));
    assert_eq!(e.phase(), AdbdrPhase::Decay1);
    e.advance(marks(false, true, false, false));
    assert_eq!(e.phase(), AdbdrPhase::Decay2);
    e.advance(marks(false, false, true, false));
    assert_eq!(e.phase(), AdbdrPhase::Release);
    // a sounding ADBDR envelope let go releases, whether or not it was held
    let mut f = Adbdr::new();
    f.gate(HIGH);
    assert!(!f.gate(LOW));
    assert_eq!(f.phase(), AdbdrPhase::Release);
    assert!(f.gate(GateLevel { high: true, low: true }) == false);
}

#[test]
fn echo_cursor_moves_by_one_plus_step() {
    let mut c = EchoCursor::new(10);
    assert_eq!(c.position(), 0);
    c.advance();
    assert_eq!(c.position(), 1);
    c.set_step(4);
    c.advance();
    assert_eq!(c.position(), 6);
    c.advance();
    assert_eq!(c.position(), 1);
    c.set_step(usize::MAX);
    assert!(!c.can_advance());
}

#[test]
fn delay_reads_back_what_it_wrote() {
    let mut c = DelayCursor::new(5);
    c.set_step(3);
    assert_eq!(c.read_position(), 0);
    assert_eq!(c.write_position(), 3);
    let written = c.write_position();
    for _ in 0..3 {
        c.advance();
    }
    assert_eq!(c.read_position(), written);
    c.advance();
    c.advance();
    assert_eq!(c.read_position(), 0);
    assert!(c.can_write());
    c.set_step(usize::MAX);
    assert!(c.can_write());
    c.advance();
    assert!(!c.can_write());
}

#[test]
fn mux_select_lines() {
    assert_eq!(mux_levels(0), [true, false, false, false]);
    assert_eq!(mux_levels(1), [true, true, false, false]);
    assert_eq!(mux_levels(2), [true, false, true, false]);
    assert_eq!(mux_levels(3), [true, true, true, true]);
    assert_eq!(mux_levels(8), [true, false, false, false]);
}

#[test]
fn controls_board_commands() {
    assert_eq!(panel_command(b"play"), PanelAction::Play);
    assert_eq!(panel_command(b"stop"), PanelAction::Stop);
    assert_eq!(panel_command(b"power-off"), PanelAction::PowerOff);
    assert_eq!(panel_command(b"Play"), PanelAction::Ignore);
    assert_eq!(panel_command(b"playing"), PanelAction::Ignore);
    assert_eq!(panel_command(b""), PanelAction::Ignore);
}
