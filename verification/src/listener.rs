//! What the listener shows of the time packets: durations, layer states,
//! the compact line of the active layers and the full-screen table.
use vstd::prelude::*;
use crate::packets::metrics::{minutes_seconds_millis_text, push_minutes_seconds};
use crate::packets::time::{active_time_layers, LayerTimeData, TimePacket};
use crate::text::{chars_of, decimal, push_decimal, push_str, string_from_chars};
use crate::types::{LayerState, SmpteMode};

verus! {

/// The label of a layer state for a terminal, coloured with ANSI escapes.
pub open spec fn state_label(state: LayerState) -> Seq<char> {
    match state {
        LayerState::Idle => "IDLE"@,
        LayerState::Playing => "\x1b[32mPLAY\x1b[0m"@,
        LayerState::Looping => "\x1b[33mLOOP\x1b[0m"@,
        LayerState::Paused => "\x1b[33mPAUS\x1b[0m"@,
        LayerState::Stopped => "\x1b[31mSTOP\x1b[0m"@,
        LayerState::CueButtonDown => "\x1b[36mCUE\x1b[0m"@,
        LayerState::PlatterDown => "\x1b[36mPLAT\x1b[0m"@,
        LayerState::FastForward => "\x1b[35mFFWD\x1b[0m"@,
        LayerState::FastReverse => "\x1b[35mFFRV\x1b[0m"@,
        LayerState::Hold => "\x1b[33mHOLD\x1b[0m"@,
    }
}

/// Format a duration as `MM:SS.mmm`.
pub fn format_duration_ms(ms: u32) -> (r: String)
    ensures
        r@ == minutes_seconds_millis_text(ms),
{
    let mut out: Vec<char> = Vec::new();
    push_duration(&mut out, ms);
    string_from_chars(&out)
}

/// Appends `ms` as `MM:SS.mmm`.
fn push_duration(out: &mut Vec<char>, ms: u32)
    ensures
        final(out)@ == old(out)@ + minutes_seconds_millis_text(ms),
{
    let ghost start = out@;
    push_minutes_seconds(out, ms);
    out.push('.');
    push_decimal(out, ms % 1000, 3);
    proof {
        reveal_strlit(".");
    }
    assert(out@ =~= start + minutes_seconds_millis_text(ms));
}

/// Format layer state with color.
pub fn format_state(state: LayerState) -> (r: &'static str)
    ensures
        r@ == state_label(state),
{
    match state {
        LayerState::Idle => "IDLE",
        LayerState::Playing => "\x1b[32mPLAY\x1b[0m",
        LayerState::Looping => "\x1b[33mLOOP\x1b[0m",
        LayerState::Paused => "\x1b[33mPAUS\x1b[0m",
        LayerState::Stopped => "\x1b[31mSTOP\x1b[0m",
        LayerState::CueButtonDown => "\x1b[36mCUE\x1b[0m",
        LayerState::PlatterDown => "\x1b[36mPLAT\x1b[0m",
        LayerState::FastForward => "\x1b[35mFFWD\x1b[0m",
        LayerState::FastReverse => "\x1b[35mFFRV\x1b[0m",
        LayerState::Hold => "\x1b[33mHOLD\x1b[0m",
    }
}

/// `s` followed by spaces up to `w` characters.
pub open spec fn pad_end(s: Seq<char>, w: nat) -> Seq<char> {
    if s.len() >= w {
        s
    } else {
        s + Seq::new((w - s.len()) as nat, |i: int| ' ')
    }
}

/// `s` preceded by spaces up to `w` characters.
pub open spec fn pad_start(s: Seq<char>, w: nat) -> Seq<char> {
    if s.len() >= w {
        s
    } else {
        Seq::new((w - s.len()) as nat, |i: int| ' ') + s
    }
}

/// Appends `n` spaces.
fn push_spaces(out: &mut Vec<char>, n: usize)
    ensures
        final(out)@ == old(out)@ + Seq::new(n as nat, |i: int| ' '),
{
    let ghost start = out@;
    let mut k: usize = 0;
    while k < n
        invariant
            k <= n,
            out@ =~= start + Seq::new(k as nat, |i: int| ' '),
        decreases n - k,
    {
        out.push(' ');
        k = k + 1;
        assert(out@ =~= start + Seq::new(k as nat, |i: int| ' '));
    }
}

/// Appends `s` followed by spaces up to `w` characters.
fn push_padded_end(out: &mut Vec<char>, s: &str, w: usize)
    ensures
        final(out)@ == old(out)@ + pad_end(s@, w as nat),
{
    let ghost start = out@;
    let cs = chars_of(s);
    let mut k: usize = 0;
    while k < cs.len()
        invariant
            k <= cs@.len(),
            out@ =~= start + cs@.take(k as int),
        decreases cs@.len() - k,
    {
        out.push(cs[k]);
        k = k + 1;
        assert(out@ =~= start + cs@.take(k as int));
    }
    assert(cs@.take(k as int) =~= s@);
    if cs.len() < w {
        push_spaces(out, w - cs.len());
    }
    assert(out@ =~= start + pad_end(s@, w as nat));
}

/// The layers that the display shows: all eight, or only the active ones.
pub open spec fn shown_layers(p: TimePacket, show_all: bool) -> Seq<LayerTimeData> {
    if show_all {
        p.layers@
    } else {
        active_time_layers(p.layers@)
    }
}

/// The layers that the display shows.
fn shown_layer_list(packet: &TimePacket, show_all: bool) -> (r: Vec<LayerTimeData>)
    ensures
        r@ == shown_layers(*packet, show_all),
{
    let mut out: Vec<LayerTimeData> = Vec::new();
    if show_all {
        let mut i: usize = 0;
        while i < 8
            invariant
                i <= 8,
                out@ =~= packet.layers@.take(i as int),
            decreases 8 - i,
        {
            out.push(packet.layers[i]);
            i = i + 1;
            assert(out@ =~= packet.layers@.take(i as int));
        }
        assert(packet.layers@.take(8) =~= packet.layers@);
    } else {
        let active = packet.active_layers();
        let mut i: usize = 0;
        while i < active.len()
            invariant
                i <= active@.len(),
                active@.len() == active_time_layers(packet.layers@).len(),
                forall|k: int| 0 <= k < active@.len() ==> *active@[k] == active_time_layers(packet.layers@)[k],
                out@ =~= active_time_layers(packet.layers@).take(i as int),
            decreases active@.len() - i,
        {
            out.push(*active[i]);
            i = i + 1;
            assert(out@ =~= active_time_layers(packet.layers@).take(i as int));
        }
        assert(active_time_layers(packet.layers@).take(i as int) =~= active_time_layers(packet.layers@));
    }
    out
}

/// The compact text of a layer: `layer:timecode state`.
pub open spec fn layer_summary(l: LayerTimeData) -> Seq<char> {
    l.layer.spec_name() + ":"@ + l.timecode.text() + " "@ + state_label(l.state)
}

/// The texts `parts` joined with `sep` between each two.
pub open spec fn joined(parts: Seq<Seq<char>>, sep: Seq<char>) -> Seq<char>
    decreases parts.len(),
{
    if parts.len() == 0 {
        Seq::empty()
    } else if parts.len() == 1 {
        parts[0]
    } else {
        joined(parts.drop_last(), sep) + sep + parts.last()
    }
}

/// The summaries of the layers `ls`.
pub open spec fn summaries(ls: Seq<LayerTimeData>) -> Seq<Seq<char>> {
    ls.map_values(|l: LayerTimeData| layer_summary(l))
}

/// The single-line display: back to the start of the line, clear it, then the
/// summaries of the layers `ls` separated by bars.
pub open spec fn compact_line(ls: Seq<LayerTimeData>) -> Seq<char> {
    "\r\x1b[K"@ + joined(summaries(ls), " | "@)
}

/// Appends the compact text of a layer.
fn push_summary(out: &mut Vec<char>, l: &LayerTimeData)
    ensures
        final(out)@ == old(out)@ + layer_summary(*l),
{
    let ghost start = out@;
    push_str(out, l.layer.name());
    push_str(out, ":");
    let tc = l.timecode.to_text();
    push_str(out, tc.as_str());
    push_str(out, " ");
    push_str(out, format_state(l.state));
    assert(out@ =~= start + layer_summary(*l));
}

/// The single-line display of a time packet, or none where no layer is shown.
pub fn compact_time_line(packet: &TimePacket, show_all: bool) -> (r: Option<String>)
    ensures
        shown_layers(*packet, show_all).len() == 0 ==> r is None,
        shown_layers(*packet, show_all).len() > 0 ==> (r matches Some(t) && t@ == compact_line(
            shown_layers(*packet, show_all),
        )),
{
    let shown = shown_layer_list(packet, show_all);
    if shown.len() == 0 {
        return None;
    }
    let ghost parts = summaries(shown@);
    let mut out: Vec<char> = Vec::new();
    push_str(&mut out, "\r\x1b[K");
    let ghost start = out@;
    let mut i: usize = 0;
    while i < shown.len()
        invariant
            i <= shown@.len(),
            parts == summaries(shown@),
            out@ == start + joined(parts.take(i as int), " | "@),
        decreases shown@.len() - i,
    {
        let ghost before = out@;
        if i > 0 {
            push_str(&mut out, " | ");
        }
        push_summary(&mut out, &shown[i]);
        proof {
            let t = parts.take(i + 1);
            assert(t.drop_last() =~= parts.take(i as int));
            assert(t.last() == layer_summary(shown@[i as int]));
            if i == 0 {
                assert(t.len() == 1);
                assert(out@ =~= start + joined(t, " | "@));
            } else {
                assert(out@ =~= start + joined(t, " | "@));
            }
        }
        i = i + 1;
    }
    assert(parts.take(i as int) =~= parts);
    Some(string_from_chars(&out))
}

/// The on-air column: the fader value in green, right-aligned to three
/// places, or a dash when the layer is off air.
pub open spec fn on_air_text(v: u8) -> Seq<char> {
    if v > 0 {
        "\x1b[32m"@ + pad_start(decimal(v as nat), 3) + "\x1b[0m"@
    } else {
        "  -"@
    }
}

/// Appends the on-air column of a layer.
fn push_on_air(out: &mut Vec<char>, v: u8)
    ensures
        final(out)@ == old(out)@ + on_air_text(v),
{
    let ghost start = out@;
    if v > 0 {
        push_str(out, "\x1b[32m");
        let mut digits: Vec<char> = Vec::new();
        push_decimal(&mut digits, v as u32, 0);
        assert(digits@ =~= decimal(v as nat));
        if digits.len() < 3 {
            push_spaces(out, 3 - digits.len());
        }
        let ghost mid = out@;
        let mut k: usize = 0;
        while k < digits.len()
            invariant
                k <= digits@.len(),
                out@ =~= mid + digits@.take(k as int),
            decreases digits@.len() - k,
        {
            out.push(digits[k]);
            k = k + 1;
            assert(out@ =~= mid + digits@.take(k as int));
        }
        assert(digits@.take(k as int) =~= digits@);
        push_str(out, "\x1b[0m");
        assert(out@ =~= start + on_air_text(v));
    } else {
        push_str(out, "  -");
    }
}

/// A row of the table: layer, timecode, position, total time, state and
/// on-air column, framed.
pub open spec fn table_row(l: LayerTimeData) -> Seq<char> {
    "\x1b[1;36m║\x1b[0m  \x1b[1m"@ + pad_end(l.layer.spec_name(), 6) + "\x1b[0m \x1b[1;37m"@ + l.timecode.text() + "\x1b[0m   "@
        + minutes_seconds_millis_text(l.time_ms) + "  "@ + minutes_seconds_millis_text(
        l.total_time_ms,
    ) + "   "@ + state_label(l.state) + "   "@ + on_air_text(l.on_air) + "   \x1b[1;36m║\x1b[0m"@
}

/// The rows of the layers `ls`, each ended by a line break.
pub open spec fn table_rows(ls: Seq<LayerTimeData>) -> Seq<char>
    decreases ls.len(),
{
    if ls.len() == 0 {
        Seq::empty()
    } else {
        table_rows(ls.drop_last()) + table_row(ls.last()) + "\n"@
    }
}

/// The title line, with the source's node name and its SMPTE mode.
pub open spec fn title_line(name: Seq<char>, mode: SmpteMode) -> Seq<char> {
    "\x1b[1;36m║\x1b[0m  \x1b[1mTCNet Listener\x1b[0m - Source: \x1b[33m"@ + pad_end(name, 8) + "\x1b[0m  SMPTE: \x1b[33m"@ + mode.spec_name() + "\x1b[0m              \x1b[1;36m║\x1b[0m"@
}

/// The top of the full-screen display: clear the screen, then the frame's top,
/// the title line and the column headings.
pub open spec fn screen_head(name: Seq<char>, mode: SmpteMode) -> Seq<char> {
    "\x1b[2J\x1b[H"@ + "\x1b[1;36m╔═══════════════════════════════════════════════════════════════════╗\x1b[0m"@ + "\n"@ + title_line(name, mode) + "\n"@ + "\x1b[1;36m╠═══════════════════════════════════════════════════════════════════╣\x1b[0m"@ + "\n"@
        + "\x1b[1;36m║\x1b[0m  \x1b[1mLayer  Timecode      Position     Total      State  OnAir\x1b[0m    \x1b[1;36m║\x1b[0m"@ + "\n"@ + "\x1b[1;36m╠═══════════════════════════════════════════════════════════════════╣\x1b[0m"@ + "\n"@
}

/// The bottom of the full-screen display: the frame's bottom and the exit hint.
pub open spec fn screen_tail() -> Seq<char> {
    "\x1b[1;36m╚═══════════════════════════════════════════════════════════════════╝\x1b[0m"@ + "\n"@ + "\n\x1b[90mPress Ctrl+C to exit\x1b[0m"@ + "\n"@
}

/// The full-screen display of a time packet whose source is called `name`:
/// clear the screen, then the framed table of the layers `ls`, then the exit
/// hint.
pub open spec fn screen_text(name: Seq<char>, mode: SmpteMode, ls: Seq<LayerTimeData>) -> Seq<char> {
    screen_head(name, mode) + table_rows(ls) + screen_tail()
}

/// Appends the top of the full-screen display.
fn push_screen_head(out: &mut Vec<char>, name: &str, mode: SmpteMode)
    ensures
        final(out)@ == old(out)@ + screen_head(name@, mode),
{
    let ghost start = out@;
    push_str(out, "\x1b[2J\x1b[H");
    push_str(out, "\x1b[1;36m╔═══════════════════════════════════════════════════════════════════╗\x1b[0m");
    push_str(out, "\n");
    let ghost a = out@;
    push_str(out, "\x1b[1;36m║\x1b[0m  \x1b[1mTCNet Listener\x1b[0m - Source: \x1b[33m");
    push_padded_end(out, name, 8);
    push_str(out, "\x1b[0m  SMPTE: \x1b[33m");
    push_str(out, mode.name());
    push_str(out, "\x1b[0m              \x1b[1;36m║\x1b[0m");
    assert(out@ =~= a + title_line(name@, mode));
    let ghost b = out@;
    push_str(out, "\n");
    push_str(out, "\x1b[1;36m╠═══════════════════════════════════════════════════════════════════╣\x1b[0m");
    push_str(out, "\n");
    push_str(out, "\x1b[1;36m║\x1b[0m  \x1b[1mLayer  Timecode      Position     Total      State  OnAir\x1b[0m    \x1b[1;36m║\x1b[0m");
    push_str(out, "\n");
    push_str(out, "\x1b[1;36m╠═══════════════════════════════════════════════════════════════════╣\x1b[0m");
    push_str(out, "\n");
    assert(out@ =~= b + "\n"@ + "\x1b[1;36m╠═══════════════════════════════════════════════════════════════════╣\x1b[0m"@ + "\n"@ + "\x1b[1;36m║\x1b[0m  \x1b[1mLayer  Timecode      Position     Total      State  OnAir\x1b[0m    \x1b[1;36m║\x1b[0m"@ + "\n"@ + "\x1b[1;36m╠═══════════════════════════════════════════════════════════════════╣\x1b[0m"@ + "\n"@);
    assert(out@ =~= start + screen_head(name@, mode));
}

/// Appends the bottom of the full-screen display.
fn push_screen_tail(out: &mut Vec<char>)
    ensures
        final(out)@ == old(out)@ + screen_tail(),
{
    let ghost start = out@;
    push_str(out, "\x1b[1;36m╚═══════════════════════════════════════════════════════════════════╝\x1b[0m");
    push_str(out, "\n");
    push_str(out, "\n\x1b[90mPress Ctrl+C to exit\x1b[0m");
    push_str(out, "\n");
    assert(out@ =~= start + screen_tail());
}

/// Appends the table row of a layer.
fn push_row(out: &mut Vec<char>, l: &LayerTimeData)
    ensures
        final(out)@ == old(out)@ + table_row(*l),
{
    let ghost start = out@;
    push_str(out, "\x1b[1;36m║\x1b[0m  \x1b[1m");
    push_padded_end(out, l.layer.name(), 6);
    push_str(out, "\x1b[0m \x1b[1;37m");
    let tc = l.timecode.to_text();
    push_str(out, tc.as_str());
    push_str(out, "\x1b[0m   ");
    push_duration(out, l.time_ms);
    push_str(out, "  ");
    push_duration(out, l.total_time_ms);
    push_str(out, "   ");
    push_str(out, format_state(l.state));
    push_str(out, "   ");
    push_on_air(out, l.on_air);
    push_str(out, "   \x1b[1;36m║\x1b[0m");
    assert(out@ =~= start + table_row(*l));
}

/// The full-screen display of a time packet, or none where no layer is shown.
pub fn time_screen(packet: &TimePacket, show_all: bool) -> (r: Option<String>)
    ensures
        shown_layers(*packet, show_all).len() == 0 ==> r is None,
        shown_layers(*packet, show_all).len() > 0 ==> (r matches Some(t) && t@ == screen_text(
            packet.header.name_text(),
            packet.smpte_mode,
            shown_layers(*packet, show_all),
        )),
{
    let shown = shown_layer_list(packet, show_all);
    if shown.len() == 0 {
        return None;
    }
    let name = packet.header.node_name_str();
    let mut out: Vec<char> = Vec::new();
    push_screen_head(&mut out, name.as_str(), packet.smpte_mode);
    let ghost head = out@;
    let mut i: usize = 0;
    while i < shown.len()
        invariant
            i <= shown@.len(),
            out@ == head + table_rows(shown@.take(i as int)),
        decreases shown@.len() - i,
    {
        push_row(&mut out, &shown[i]);
        push_str(&mut out, "\n");
        proof {
            let t = shown@.take(i + 1);
            assert(t.drop_last() =~= shown@.take(i as int));
            assert(out@ =~= head + table_rows(t));
        }
        i = i + 1;
    }
    assert(shown@.take(i as int) =~= shown@);
    push_screen_tail(&mut out);
    let ghost shown_seq = shown@;
    assert(out@ =~= screen_text(packet.header.name_text(), packet.smpte_mode, shown_seq));
    Some(string_from_chars(&out))
}

} // verus!
