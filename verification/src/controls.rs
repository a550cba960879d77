use vstd::prelude::*;

verus! {

/// The number of select lines of an analog multiplexer on the controls board.
pub const MUX_LINES: usize = 4;

/// Whether select line `line` is driven high to read potentiometer
/// `pot_select`: it is, when every bit of the line's number is also set in
/// `pot_select`.
pub open spec fn mux_line_high(line: u8, pot_select: u8) -> bool {
    line & pot_select == line
}

/// The levels of the select lines of a multiplexer for reading
/// potentiometer `pot_select`, line `0` first (see `mux_line_high`).
pub fn mux_levels(pot_select: u8) -> (levels: [bool; 4])
    ensures
        forall|i: int| 0 <= i < 4 ==> #[trigger] levels@[i] == mux_line_high(i as u8, pot_select),
{
    let mut levels = [false; 4];
    let mut i: usize = 0;
    while i < MUX_LINES
        invariant
            i <= 4,
            levels@.len() == 4,
            forall|j: int| 0 <= j < i ==> #[trigger] levels@[j] == mux_line_high(j as u8, pot_select),
        decreases 4 - i,
    {
        let line = i as u8;
        levels[i] = line & pot_select == line;
        i = i + 1;
    }
    levels
}

/// Line `0` of a multiplexer is driven high whichever potentiometer is read.
pub proof fn law_first_mux_line_always_high(pot_select: u8)
    ensures
        mux_line_high(0, pot_select),
{
    assert(0u8 & pot_select == 0u8) by (bit_vector);
}

/// What the synth does on a command line from the controls board.
#[derive(Clone, Copy, Debug, PartialEq, Eq, Structural)]
pub enum PanelAction {
    /// sound A4 on the first oscillator and open its envelope ("play")
    Play,
    /// close the first envelope ("stop")
    Stop,
    /// stop following the board ("power-off")
    PowerOff,
    /// any other line: nothing happens
    Ignore,
}

/// The action a command line (without surrounding white space) asks for.
pub open spec fn panel_action(cmd: Seq<u8>) -> PanelAction {
    if cmd == "play"@.map_values(|c: char| c as u8) {
        PanelAction::Play
    } else if cmd == "stop"@.map_values(|c: char| c as u8) {
        PanelAction::Stop
    } else if cmd == "power-off"@.map_values(|c: char| c as u8) {
        PanelAction::PowerOff
    } else {
        PanelAction::Ignore
    }
}

/// Whether two byte strings are equal.
fn bytes_equal(a: &[u8], b: &[u8]) -> (r: bool)
    ensures
        r == (a@ == b@),
{
    if a.len() != b.len() {
        return false;
    }
    let mut i: usize = 0;
    while i < a.len()
        invariant
            a@.len() == b@.len(),
            i <= a@.len(),
            forall|j: int| 0 <= j < i ==> a@[j] == b@[j],
        decreases a.len() - i,
    {
        if a[i] != b[i] {
            return false;
        }
        i = i + 1;
    }
    assert(a@ =~= b@);
    true
}

/// The action a command line from the controls board asks for (see
/// `panel_action`); the line is given without surrounding white space.
pub fn panel_command(cmd: &[u8]) -> (r: PanelAction)
    ensures
        r == panel_action(cmd@),
{
    let play: [u8; 4] = [112, 108, 97, 121];
    let stop: [u8; 4] = [115, 116, 111, 112];
    let power_off: [u8; 9] = [112, 111, 119, 101, 114, 45, 111, 102, 102];
    proof {
        reveal_strlit("play");
        reveal_strlit("stop");
        reveal_strlit("power-off");
        assert(play@ =~= "play"@.map_values(|c: char| c as u8));
        assert(stop@ =~= "stop"@.map_values(|c: char| c as u8));
        assert(power_off@ =~= "power-off"@.map_values(|c: char| c as u8));
    }
    if bytes_equal(cmd, &play) {
        PanelAction::Play
    } else if bytes_equal(cmd, &stop) {
        PanelAction::Stop
    } else if bytes_equal(cmd, &power_off) {
        PanelAction::PowerOff
    } else {
        PanelAction::Ignore
    }
}

} // verus!
