use vstd::prelude::*;

use crate::keys::JustPressed;
use crate::palette::PaletteModel;
use crate::timer::repeating_tick;

verus! {

/// A tick of the repeating timer keeps all the time it is given: the elapsed
/// time it leaves is below the period and differs from the elapsed time plus
/// the frame time by whole periods only; the tick reports a finish exactly
/// when the number of those whole periods, kept as a `u32`, is not zero.
pub proof fn lemma_tick_keeps_time(period: int, elapsed: int, delta: int)
    requires
        period > 0,
        elapsed >= 0,
        delta >= 0,
    ensures
        ({
            let (left, finished) = repeating_tick(period, elapsed, delta);
            let whole = elapsed + delta - left;
            &&& 0 <= left < period
            &&& 0 <= whole
            &&& whole % period == 0
            &&& finished == ((whole / period) % 0x1_0000_0000 != 0)
        }),
{
    let total = elapsed + delta;
    if total >= period {
        let q = total / period;
        let r = total % period;
        assert(total == q * period + r && 0 <= r < period) by (nonlinear_arith)
            requires period > 0, q == total / period, r == total % period;
        assert((total - r) % period == 0 && (total - r) / period == q) by (nonlinear_arith)
            requires period > 0, total == q * period + r, 0 <= r < period, q >= 0;
    }
}

/// Time carries over between frames in automatic mode: two frames leave the
/// timer where one frame of their total length would.
pub proof fn lemma_frames_add_up<C>(m: PaletteModel<C>, d1: nat, d2: nat)
    requires
        m.wf(),
        m.automatic,
    ensures
        m.advance(d1 as int).advance(d2 as int).elapsed == m.advance((d1 + d2) as int).elapsed,
        m.advance((d1 + d2) as int).elapsed == (m.elapsed + d1 + d2) % m.period,
{
    let p = m.period;
    let e = m.elapsed;
    let e1 = m.advance(d1 as int).elapsed;
    assert(e1 == (e + d1) % p) by {
        if e + d1 < p {
            assert((e + d1) % p == e + d1) by (nonlinear_arith)
                requires 0 <= e + d1 < p;
        }
    }
    lemma_operations_keep_palette(m, 0, d1, JustPressed {
        space: false, digit1: false, digit2: false, digit3: false, digit4: false, digit5: false, key_a: false,
    });
    assert(m.advance(d1 as int).automatic);
    let e2 = m.advance(d1 as int).advance(d2 as int).elapsed;
    assert(e2 == (e1 + d2) % p) by {
        if e1 + d2 < p {
            assert((e1 + d2) % p == e1 + d2) by (nonlinear_arith)
                requires 0 <= e1 + d2 < p;
        }
    }
    assert(m.advance((d1 + d2) as int).elapsed == (e + d1 + d2) % p) by {
        if e + d1 + d2 < p {
            assert((e + d1 + d2) % p == e + d1 + d2) by (nonlinear_arith)
                requires 0 <= e + d1 + d2 < p;
        }
    }
    vstd::arithmetic::div_mod::lemma_add_mod_noop_right(d2 as int, e + d1, p);
    assert(((e + d1) % p + d2) % p == (e + d1 + d2) % p);
}

/// Every operation keeps a palette well formed and leaves its colours as
/// they were.
pub proof fn lemma_operations_keep_palette<C>(m: PaletteModel<C>, index: int, delta: nat, keys: JustPressed)
    requires
        m.wf(),
    ensures
        m.next().wf() && m.next().colors == m.colors,
        0 <= index < m.colors.len() ==> m.select(index).wf() && m.select(index).colors == m.colors,
        m.toggle().wf() && m.toggle().colors == m.colors,
        m.advance(delta as int).wf() && m.advance(delta as int).colors == m.colors,
        keys.digits_within(m.colors.len() as int) ==> m.after_keys(keys).wf() && m.after_keys(keys).colors == m.colors,
{
    let total = m.elapsed + delta;
    if total >= m.period {
        assert(total % m.period < m.period);
    }
}

/// Stepping `n` times moves the index `n` places forward, modulo the number
/// of colours, and touches nothing else.
pub proof fn lemma_next_n<C>(m: PaletteModel<C>, n: nat)
    requires
        m.wf(),
    ensures
        m.next_n(n).wf(),
        m.next_n(n) == (PaletteModel { index: (m.index + n) % (m.colors.len() as int), ..m }),
    decreases n,
{
    let len = m.colors.len() as int;
    if n == 0 {
        assert(m.index % len == m.index) by (nonlinear_arith)
            requires 0 <= m.index < len;
    } else {
        lemma_next_n(m, (n - 1) as nat);
        let k = m.index + n - 1;
        assert(((k % len) + 1) % len == (k + 1) % len) by (nonlinear_arith)
            requires len > 0, k >= 0;
    }
}

/// Stepping once per colour comes back to the colour one started from.
pub proof fn lemma_next_cycles<C>(m: PaletteModel<C>)
    requires
        m.wf(),
    ensures
        m.next_n(m.colors.len()) == m,
{
    lemma_next_n(m, m.colors.len());
    let len = m.colors.len() as int;
    assert((m.index + len) % len == m.index) by (nonlinear_arith)
        requires 0 <= m.index < len;
}

/// One cycle of steps shows every colour exactly once: the indices reached
/// after 0 to `len - 1` steps are pairwise distinct, and every index is
/// reached by one of them.
pub proof fn lemma_cycle_visits_each_colour_once<C>(m: PaletteModel<C>)
    requires
        m.wf(),
    ensures
        forall|i: nat, j: nat|
            i < j < m.colors.len() ==> #[trigger] m.next_n(i).index != #[trigger] m.next_n(j).index,
        forall|k: int| 0 <= k < m.colors.len() ==> #[trigger] m.reached_within_cycle(k),
{
    let len = m.colors.len() as int;
    let a = m.index;
    assert forall|i: nat, j: nat| i < j < m.colors.len() implies #[trigger] m.next_n(i).index
        != #[trigger] m.next_n(j).index by {
        lemma_next_n(m, i);
        lemma_next_n(m, j);
        assert((a + i) % len != (a + j) % len) by (nonlinear_arith)
            requires 0 <= a < len, 0 <= i < j, j < len;
    }
    assert forall|k: int| 0 <= k < m.colors.len() implies #[trigger] m.reached_within_cycle(k) by {
        let i: nat = (if k >= a { k - a } else { k - a + len }) as nat;
        lemma_next_n(m, i);
        assert((a + i) % len == k) by (nonlinear_arith)
            requires 0 <= a < len, 0 <= k < len, a + i == k || a + i == k + len;
    }
}

/// After choosing colour `index`, that colour is shown.
pub proof fn lemma_select_shows<C>(m: PaletteModel<C>, index: int)
    requires
        m.wf(),
        0 <= index < m.colors.len(),
    ensures
        m.select(index).current() == m.colors[index],
{
}

/// Switching the automatic mode twice leaves the palette as it was.
pub proof fn lemma_toggle_twice<C>(m: PaletteModel<C>)
    ensures
        m.toggle().toggle() == m,
{
}

/// While the automatic mode is off, frames change nothing: not the colour,
/// not the time accumulated on the timer.
pub proof fn lemma_manual_frames_change_nothing<C>(m: PaletteModel<C>, delta: nat)
    requires
        !m.automatic,
    ensures
        m.advance(delta as int) == m,
{
}

/// While the automatic mode is on, a frame that does not complete the
/// period only adds its length to the timer; a frame that completes it (by
/// fewer than 2^32 periods, the count bevy keeps) steps the colour exactly
/// once, however many periods it spans, and keeps the remainder on the timer.
pub proof fn lemma_automatic_frame<C>(m: PaletteModel<C>, delta: nat)
    requires
        m.wf(),
        m.automatic,
    ensures
        m.elapsed + delta < m.period ==> m.advance(delta as int) == (PaletteModel { elapsed: m.elapsed + delta, ..m }),
        m.period <= m.elapsed + delta < m.period * 0x1_0000_0000 ==> m.advance(delta as int) == (PaletteModel {
            elapsed: (m.elapsed + delta) % m.period,
            ..m.next()
        }),
{
    let total = m.elapsed + delta;
    if m.period <= total < m.period * 0x1_0000_0000 {
        assert(1 <= total / m.period < 0x1_0000_0000) by (nonlinear_arith)
            requires m.period > 0, m.period <= total, total < m.period * 0x1_0000_0000;
        assert(repeating_tick(m.period, m.elapsed, delta as int).1);
    }
}

/// The highest digit pressed in a frame decides the colour, whatever the
/// colour was and whether space was pressed too; A switches the automatic
/// mode; keys never touch the timer.
pub proof fn lemma_keys<C>(m: PaletteModel<C>, keys: JustPressed)
    requires
        m.wf(),
        keys.digits_within(m.colors.len() as int),
    ensures
        m.after_keys(keys).automatic == (m.automatic != keys.key_a),
        m.after_keys(keys).elapsed == m.elapsed,
        m.after_keys(keys).period == m.period,
        keys.digit5 ==> m.after_keys(keys).index == 4,
        keys.digit4 && !keys.digit5 ==> m.after_keys(keys).index == 3,
        keys.digit3 && !keys.digit4 && !keys.digit5 ==> m.after_keys(keys).index == 2,
        keys.digit2 && !keys.digit3 && !keys.digit4 && !keys.digit5 ==> m.after_keys(keys).index == 1,
        keys.digit1 && !keys.digit2 && !keys.digit3 && !keys.digit4 && !keys.digit5 ==> m.after_keys(keys).index == 0,
        !keys.digit1 && !keys.digit2 && !keys.digit3 && !keys.digit4 && !keys.digit5 ==> m.after_keys(keys).index == (if keys.space {
            m.next().index
        } else {
            m.index
        }),
{
}

} // verus!
