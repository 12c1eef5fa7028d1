use vstd::prelude::*;

verus! {

use vstd::string::StrSliceExecFns;

/// The waveform shapes the oscillator can render.
///
/// The amplitude mapping itself (phase in [0,1) to a sample in [-1,1])
/// runs on the host engine's float buffers and lives with the engine
/// binding; this core owns which shape is selected.
#[derive(Debug, PartialEq, Eq, Structural, Copy, Clone)]
pub enum Waveform {
    Sine,
    Square,
    Sawtooth,
}

/// The waveform selected by a textual control token, if any.
///
/// The tokens "1", "2" and "3" select Sine, Square and Sawtooth
/// respectively; every other token selects nothing.
pub open spec fn spec_wave_of_token(s: Seq<char>) -> Option<Waveform> {
    if s.len() == 1 && s[0] == '1' {
        Some(Waveform::Sine)
    } else if s.len() == 1 && s[0] == '2' {
        Some(Waveform::Square)
    } else if s.len() == 1 && s[0] == '3' {
        Some(Waveform::Sawtooth)
    } else {
        None
    }
}

/// Map a trimmed line of user input onto a waveform selection.
pub fn wave_of_token(token: &str) -> (r: Option<Waveform>)
    ensures
        r == spec_wave_of_token(token@),
{
    if token.unicode_len() != 1 {
        return None;
    }
    let c = token.get_char(0);
    if c == '1' {
        Some(Waveform::Sine)
    } else if c == '2' {
        Some(Waveform::Square)
    } else if c == '3' {
        Some(Waveform::Sawtooth)
    } else {
        None
    }
}

} // verus!
