use vstd::prelude::*;
use crate::interrupts::{IntFlag, IntReq};

verus! {

/// The system timer: a free-running 16-bit counter that advances by 4 every
/// m-cycle, the derived divider byte DIV (= counter >> 8), the programmable
/// counter TIMA with its reload value TMA, and the control byte TAC.
///
/// `phase` accumulates elapsed t-cycles towards the next TIMA increment; it
/// is folded back below the TAC-selected period each time TIMA advances.
#[derive(Debug, Copy, Clone, PartialEq, Eq, Structural)]
pub struct Timer {
    pub counter: u16,
    pub div: u8,
    pub tima: u8,
    pub tma: u8,
    pub tac: u8,
    pub phase: u16,
}

/// The TIMA period in t-cycles selected by TAC bits 1..0
/// (256, 4, 16 or 64 m-cycles).
pub open spec fn spec_threshold(tac: u8) -> u16 {
    if tac & 0b11 == 0b00 {
        1024
    } else if tac & 0b11 == 0b01 {
        16
    } else if tac & 0b11 == 0b10 {
        64
    } else {
        256
    }
}

/// TIMA after `k` increments: each step adds one, and a step from 0xFF
/// reloads TMA instead.
pub open spec fn spec_tima_after(tima: u8, tma: u8, k: nat) -> u8
    decreases k,
{
    if k == 0 {
        tima
    } else {
        spec_tima_after(if tima == 0xFF { tma } else { (tima + 1) as u8 }, tma, (k - 1) as nat)
    }
}

/// Whether any of `k` TIMA increments wraps from 0xFF (and so requests the
/// timer interrupt).
pub open spec fn spec_tima_overflows(tima: u8, tma: u8, k: nat) -> bool
    decreases k,
{
    if k == 0 {
        false
    } else {
        tima == 0xFF || spec_tima_overflows(
            if tima == 0xFF { tma } else { (tima + 1) as u8 },
            tma,
            (k - 1) as nat,
        )
    }
}

/// The timer and interrupt-flag byte after one m-cycle: the counter and the
/// phase advance by 4 t-cycles; when TAC bit 2 is set, TIMA advances once for
/// each whole period now contained in the phase, which is folded back below
/// the period.
pub open spec fn spec_tick(t: Timer, flags: u8) -> (Timer, u8) {
    let counter = ((t.counter + 4) % 0x10000) as u16;
    let div = (counter >> 8) as u8;
    let phase = ((t.phase + 4) % 0x10000) as u16;
    if t.tac & 0b0100 == 0 {
        (Timer { counter, div, phase, ..t }, flags)
    } else {
        let period = spec_threshold(t.tac);
        let k = (phase / period) as nat;
        let tima = spec_tima_after(t.tima, t.tma, k);
        let new_flags = if spec_tima_overflows(t.tima, t.tma, k) {
            (flags | 0x04) as u8
        } else {
            flags
        };
        (Timer { counter, div, phase: (phase % period) as u16, tima, ..t }, new_flags)
    }
}

/// The timer and interrupt-flag byte after `n` m-cycles.
pub open spec fn spec_tick_n(t: Timer, flags: u8, n: nat) -> (Timer, u8)
    decreases n,
{
    if n == 0 {
        (t, flags)
    } else {
        let (t1, f1) = spec_tick(t, flags);
        spec_tick_n(t1, f1, (n - 1) as nat)
    }
}

/// A run of `n + 1` ticks is a run of `n` ticks followed by one more.
pub proof fn lemma_tick_n_snoc(t: Timer, flags: u8, n: nat)
    ensures
        spec_tick_n(t, flags, n + 1) == spec_tick(
            spec_tick_n(t, flags, n).0,
            spec_tick_n(t, flags, n).1,
        ),
    decreases n,
{
    if n == 0 {
        assert(spec_tick_n(t, flags, 1) == spec_tick(t, flags)) by {
            reveal_with_fuel(spec_tick_n, 2);
        }
    } else {
        let (t1, f1) = spec_tick(t, flags);
        lemma_tick_n_snoc(t1, f1, (n - 1) as nat);
    }
}

/// One TIMA step written out: a single increment, reloading TMA on wrap.
pub proof fn lemma_tima_one(tima: u8, tma: u8)
    ensures
        spec_tima_after(tima, tma, 1) == (if tima == 0xFF { tma } else { (tima + 1) as u8 }),
        spec_tima_overflows(tima, tma, 1) == (tima == 0xFF),
{
    reveal_with_fuel(spec_tima_after, 2);
    reveal_with_fuel(spec_tima_overflows, 2);
}

/// Advancing the timer by `n` m-cycles moves the counter by exactly `4 * n`
/// t-cycles modulo 2^16, keeps DIV equal to the counter's high byte, and
/// never changes TMA or TAC.
pub proof fn lemma_tick_n_counter(t: Timer, flags: u8, n: nat)
    ensures
        spec_tick_n(t, flags, n).0.counter == (t.counter + 4 * n) % 0x10000,
        n > 0 ==> spec_tick_n(t, flags, n).0.div == (spec_tick_n(t, flags, n).0.counter >> 8) as u8,
        spec_tick_n(t, flags, n).0.tma == t.tma,
        spec_tick_n(t, flags, n).0.tac == t.tac,
    decreases n,
{
    if n > 0 {
        let (t1, f1) = spec_tick(t, flags);
        lemma_tick_n_counter(t1, f1, (n - 1) as nat);
        assert((((t.counter + 4) % 0x10000) + 4 * (n - 1)) % 0x10000 == (t.counter + 4 * n)
            % 0x10000) by {
            vstd::arithmetic::div_mod::lemma_add_mod_noop(t.counter + 4, 4 * (n - 1), 0x10000);
            vstd::arithmetic::div_mod::lemma_add_mod_noop(
                (t.counter + 4) % 0x10000,
                4 * (n - 1),
                0x10000,
            );
            vstd::arithmetic::div_mod::lemma_mod_twice(4 * (n - 1), 0x10000);
            assert(t.counter + 4 + 4 * (n - 1) == t.counter + 4 * n);
        }
        if n == 1 {
            assert(spec_tick_n(t1, f1, 0).0 == t1);
        }
    }
}

impl Timer {
    pub fn new() -> (r: Timer)
        ensures
            r == (Timer { counter: 0, div: 0, tima: 0, tma: 0, tac: 0, phase: 0 }),
    {
        Timer { counter: 0, div: 0, tima: 0, tma: 0, tac: 0, phase: 0 }
    }

    /// Advances the timer by one m-cycle (4 t-cycles), requesting the timer
    /// interrupt in `intr` on a TIMA wrap from 0xFF to TMA.
    pub fn tick(&mut self, intr: &mut IntReq)
        ensures
            (*final(self), final(intr).flags) == spec_tick(*old(self), old(intr).flags),
    {
        self.counter = self.counter.wrapping_add(4);
        self.div = (self.counter >> 8) as u8;
        self.phase = self.phase.wrapping_add(4);

        if (self.tac & 0b0100) == 0 {
            return ;
        }

        let threshold: u16 = if self.tac & 0b11 == 0b00 {
            1024
        } else if self.tac & 0b11 == 0b01 {
            16
        } else if self.tac & 0b11 == 0b10 {
            64
        } else {
            256
        };

        let ghost phase0 = self.phase as int;
        let ghost tima0 = old(self).tima;
        let ghost flags0 = old(intr).flags;
        let ghost mut steps: nat = 0nat;

        while self.phase >= threshold
            invariant
                threshold == spec_threshold(old(self).tac),
                threshold >= 16,
                phase0 == steps * (threshold as int) + self.phase,
                self.tima == spec_tima_after(tima0, old(self).tma, steps),
                intr.flags == (if spec_tima_overflows(tima0, old(self).tma, steps) {
                    (flags0 | 0x04) as u8
                } else {
                    flags0
                }),
                self.counter == ((old(self).counter + 4) % 0x10000) as u16,
                self.div == (self.counter >> 8) as u8,
                self.tma == old(self).tma,
                self.tac == old(self).tac,
            decreases self.phase,
        {
            self.phase = self.phase - threshold;
            let (tima, overflow) = if self.tima == 0xFF {
                (self.tma, true)
            } else {
                (self.tima + 1, false)
            };
            self.tima = tima;
            if overflow {
                intr.set_flag(IntFlag::Timer);
            }
            proof {
                lemma_tima_after_add(tima0, old(self).tma, steps, 1);
                lemma_tima_overflows_add(tima0, old(self).tma, steps, 1);
                lemma_tima_one(spec_tima_after(tima0, old(self).tma, steps), old(self).tma);
                if overflow {
                    lemma_or_4_idempotent(flags0);
                }
                steps = steps + 1;
            }
        }
        proof {
            vstd::arithmetic::div_mod::lemma_fundamental_div_mod_converse(
                phase0,
                threshold as int,
                steps as int,
                self.phase as int,
            );
        }
    }

    /// Advances the timer by `m_clocks` m-cycles, one tick at a time.
    /// The counter moves by exactly `4 * m_clocks` t-cycles modulo 2^16.
    pub fn tick_n(&mut self, intr: &mut IntReq, m_clocks: u8)
        ensures
            (*final(self), final(intr).flags) == spec_tick_n(
                *old(self),
                old(intr).flags,
                m_clocks as nat,
            ),
            final(self).counter == (old(self).counter + 4 * m_clocks) % 0x10000,
            final(self).tma == old(self).tma,
            final(self).tac == old(self).tac,
    {
        let mut i: u8 = 0;
        while i < m_clocks
            invariant
                i <= m_clocks,
                (*self, intr.flags) == spec_tick_n(*old(self), old(intr).flags, i as nat),
            decreases m_clocks - i,
        {
            proof {
                lemma_tick_n_snoc(*old(self), old(intr).flags, i as nat);
            }
            self.tick(intr);
            i = i + 1;
        }
        proof {
            lemma_tick_n_counter(*old(self), old(intr).flags, m_clocks as nat);
        }
    }
}

/// Splitting a run of TIMA increments: doing `a + b` steps equals doing `a`
/// steps and then `b` more.
pub proof fn lemma_tima_after_add(tima: u8, tma: u8, a: nat, b: nat)
    ensures
        spec_tima_after(tima, tma, a + b) == spec_tima_after(spec_tima_after(tima, tma, a), tma, b),
    decreases a,
{
    if a > 0 {
        lemma_tima_after_add(
            if tima == 0xFF { tma } else { (tima + 1) as u8 },
            tma,
            (a - 1) as nat,
            b,
        );
    }
}

/// An overflow happens within `a + b` steps exactly when it happens in the
/// first `a` steps or in the `b` steps that follow them.
pub proof fn lemma_tima_overflows_add(tima: u8, tma: u8, a: nat, b: nat)
    ensures
        spec_tima_overflows(tima, tma, a + b) == (spec_tima_overflows(tima, tma, a)
            || spec_tima_overflows(spec_tima_after(tima, tma, a), tma, b)),
    decreases a,
{
    if a > 0 {
        lemma_tima_overflows_add(
            if tima == 0xFF { tma } else { (tima + 1) as u8 },
            tma,
            (a - 1) as nat,
            b,
        );
    }
}

proof fn lemma_or_4_idempotent(f: u8)
    by (bit_vector)
    ensures
        (f | 0x04) | 0x04 == f | 0x04,
{
}

} // verus!
