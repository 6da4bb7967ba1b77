use vstd::arithmetic::div_mod::{
    lemma_add_mod_noop, lemma_fundamental_div_mod, lemma_fundamental_div_mod_converse,
    lemma_mod_bound,
};
use vstd::prelude::*;

verus! {

/// Frame clock of a sprite-sheet animation.
///
/// Time is counted in microseconds. `elapsed` is the time since `index` last moved on;
/// whenever it grows past `frame_time`, the index advances by the number of whole frames
/// that fit in it and wraps modulo `frame_len`.
#[derive(Clone, Copy, Debug, PartialEq, Eq)]
pub struct AnimationClock {
    pub index: usize,
    pub frame_len: usize,
    pub frame_time: u32,
    pub elapsed: u64,
}

/// Index after one tick of `dt` microseconds.
pub open spec fn step_index(index: nat, len: nat, elapsed: nat, frame_time: nat, dt: nat) -> nat {
    let t = elapsed + dt;
    if t > frame_time {
        (index + t / frame_time) % len
    } else {
        index
    }
}

/// Accumulated time after one tick of `dt` microseconds.
pub open spec fn step_elapsed(elapsed: nat, frame_time: nat, dt: nat) -> nat {
    let t = elapsed + dt;
    if t > frame_time {
        (t - (t / frame_time) * frame_time) as nat
    } else {
        t
    }
}

/// Sum of a sequence of tick lengths.
pub open spec fn total_time(dts: Seq<u32>) -> nat
    decreases dts.len(),
{
    if dts.len() == 0 {
        0
    } else {
        dts[0] as nat + total_time(dts.drop_first())
    }
}

impl AnimationClock {
    /// A clock that is well formed: the index lies inside the sheet and the
    /// accumulator never holds more than one frame's time.
    pub open spec fn wf(self) -> bool {
        &&& self.frame_len > 0
        &&& self.frame_time > 0
        &&& self.index < self.frame_len
        &&& self.elapsed <= self.frame_time
    }

    /// The clock after one tick of `dt` microseconds.
    pub open spec fn stepped(self, dt: u32) -> AnimationClock {
        AnimationClock {
            index: step_index(
                self.index as nat,
                self.frame_len as nat,
                self.elapsed as nat,
                self.frame_time as nat,
                dt as nat,
            ) as usize,
            elapsed: step_elapsed(self.elapsed as nat, self.frame_time as nat, dt as nat) as u64,
            ..self
        }
    }

    /// The clock after ticking through `dts` in order.
    pub open spec fn run(self, dts: Seq<u32>) -> AnimationClock
        decreases dts.len(),
    {
        if dts.len() == 0 {
            self
        } else {
            self.stepped(dts[0]).run(dts.drop_first())
        }
    }

    /// A clock at frame 0 with nothing accumulated.
    pub fn new(frame_len: usize, frame_time: u32) -> (r: AnimationClock)
        requires
            frame_len > 0,
            frame_time > 0,
        ensures
            r.wf(),
            r == (AnimationClock { index: 0, frame_len, frame_time, elapsed: 0 }),
    {
        AnimationClock { index: 0, frame_len, frame_time, elapsed: 0 }
    }

    /// Accumulates `dt` microseconds and advances the index by every whole frame that
    /// has passed, wrapping modulo the sheet length.
    pub fn tick(&mut self, dt: u32)
        requires
            old(self).wf(),
        ensures
            final(self).wf(),
            *final(self) == old(self).stepped(dt),
    {
        let t: u64 = self.elapsed + dt as u64;
        let ft: u64 = self.frame_time as u64;
        if t > ft {
            let frames: u64 = t / ft;
            proof {
                lemma_fundamental_div_mod(t as int, ft as int);
                lemma_mod_bound(t as int, ft as int);
                assert(frames * ft <= t) by (nonlinear_arith)
                    requires
                        frames == t / ft,
                        ft > 0,
                ;
            }
            let len: usize = self.frame_len;
            let adv: usize = (frames % (len as u64)) as usize;
            let index: usize = self.index;
            let next: usize = if index >= len - adv {
                index - (len - adv)
            } else {
                index + adv
            };
            proof {
                lemma_add_mod_noop(index as int, frames as int, len as int);
                lemma_mod_bound(index as int, len as int);
                assert((index as int) % (len as int) == index as int) by {
                    vstd::arithmetic::div_mod::lemma_small_mod(index as nat, len as nat);
                }
                if index >= len - adv {
                    lemma_fundamental_div_mod_converse(
                        (index + adv) as int,
                        len as int,
                        1,
                        next as int,
                    );
                } else {
                    lemma_fundamental_div_mod_converse(
                        (index + adv) as int,
                        len as int,
                        0,
                        next as int,
                    );
                }
            }
            self.index = next;
            self.elapsed = t - frames * ft;
            proof {
                assert(self.elapsed == t % ft);
            }
        } else {
            self.elapsed = t;
        }
    }
}

proof fn lemma_step_wf(clock: AnimationClock, dt: u32)
    requires
        clock.wf(),
    ensures
        clock.stepped(dt).wf(),
        clock.stepped(dt).index as nat == step_index(
            clock.index as nat,
            clock.frame_len as nat,
            clock.elapsed as nat,
            clock.frame_time as nat,
            dt as nat,
        ),
        clock.stepped(dt).elapsed as nat == step_elapsed(
            clock.elapsed as nat,
            clock.frame_time as nat,
            dt as nat,
        ),
{
    let t = clock.elapsed + dt;
    let ft = clock.frame_time as int;
    if t > ft {
        lemma_fundamental_div_mod(t as int, ft);
        lemma_mod_bound(t as int, ft);
        lemma_mod_bound(clock.index + t / ft, clock.frame_len as int);
    }
}

/// Over any run of ticks from a well-formed clock, the time that went in equals the
/// whole frames that the index advanced by plus what is left in the accumulator.
proof fn lemma_run_accounts(clock: AnimationClock, dts: Seq<u32>)
    requires
        clock.wf(),
    ensures
        clock.run(dts).wf(),
        clock.run(dts).frame_len == clock.frame_len,
        clock.run(dts).frame_time == clock.frame_time,
        clock.run(dts).elapsed <= clock.elapsed + total_time(dts),
        (clock.elapsed + total_time(dts) - clock.run(dts).elapsed) % (clock.frame_time as int)
            == 0,
        clock.run(dts).index == (clock.index + (clock.elapsed + total_time(dts)
            - clock.run(dts).elapsed) / (clock.frame_time as int)) % (clock.frame_len as int),
    decreases dts.len(),
{
    let ft = clock.frame_time as int;
    let len = clock.frame_len as int;
    if dts.len() == 0 {
        lemma_fundamental_div_mod_converse(0, ft, 0, 0);
        lemma_fundamental_div_mod_converse(clock.index as int, len, 0, clock.index as int);
    } else {
        let next = clock.stepped(dts[0]);
        let rest = dts.drop_first();
        lemma_step_wf(clock, dts[0]);
        lemma_run_accounts(next, rest);
        let fin = next.run(rest);
        let t = clock.elapsed + dts[0];
        let m = (next.elapsed + total_time(rest) - fin.elapsed) / ft;
        lemma_fundamental_div_mod(next.elapsed + total_time(rest) - fin.elapsed, ft);
        let f = if t > ft { t / ft } else { 0 };
        if t > ft {
            lemma_fundamental_div_mod(t as int, ft);
        }
        assert(t == f * ft + next.elapsed);
        let whole = clock.elapsed + total_time(dts) - fin.elapsed;
        assert(whole == (f + m) * ft) by (nonlinear_arith)
            requires
                whole == t + total_time(rest) - fin.elapsed,
                t == f * ft + next.elapsed,
                next.elapsed + total_time(rest) - fin.elapsed == m * ft,
        ;
        lemma_fundamental_div_mod_converse(whole, ft, f + m, 0);
        if t <= ft {
            vstd::arithmetic::div_mod::lemma_small_mod(clock.index as nat, len as nat);
        }
        assert(next.index == (clock.index + f) % len);
        lemma_add_mod_noop(clock.index + f, m, len);
        lemma_mod_bound(m, len);
        vstd::arithmetic::div_mod::lemma_small_mod((m % len) as nat, len as nat);
        lemma_add_mod_noop(next.index as int, m, len);
        vstd::arithmetic::div_mod::lemma_small_mod(next.index as nat, len as nat);
    }
}

/// Catch-up: from a well-formed clock, ticking through any sequence of tick lengths
/// leaves the index advanced by the number of whole frames in the total time (modulo
/// the sheet length) and the remainder in the accumulator, whenever that total is not a
/// whole number of frames.
pub proof fn lemma_clock_catches_up(clock: AnimationClock, dts: Seq<u32>)
    requires
        clock.wf(),
        (clock.elapsed + total_time(dts)) % (clock.frame_time as int) != 0,
    ensures
        clock.run(dts).index == (clock.index + (clock.elapsed + total_time(dts))
            / (clock.frame_time as int)) % (clock.frame_len as int),
        clock.run(dts).elapsed == (clock.elapsed + total_time(dts)) % (clock.frame_time as int),
{
    lemma_run_accounts(clock, dts);
    let ft = clock.frame_time as int;
    let whole = clock.elapsed + total_time(dts);
    let fin = clock.run(dts);
    let k = (whole - fin.elapsed) / ft;
    lemma_fundamental_div_mod(whole - fin.elapsed, ft);
    if fin.elapsed == ft {
        assert(whole == (k + 1) * ft + 0) by (nonlinear_arith)
            requires
                whole - fin.elapsed == ft * k,
                fin.elapsed == ft,
        ;
        lemma_fundamental_div_mod_converse(whole, ft, k + 1, 0);
    }
    assert(whole == k * ft + fin.elapsed) by (nonlinear_arith)
        requires
            whole - fin.elapsed == ft * k,
    ;
    lemma_fundamental_div_mod_converse(whole, ft, k, fin.elapsed as int);
}

/// Two runs of ticks from the same well-formed clock whose lengths add up to the same
/// total end in the same state, however the total was split into ticks, whenever that
/// total is not a whole number of frames.
pub proof fn lemma_clock_partition_independent(clock: AnimationClock, a: Seq<u32>, b: Seq<u32>)
    requires
        clock.wf(),
        total_time(a) == total_time(b),
        (clock.elapsed + total_time(a)) % (clock.frame_time as int) != 0,
    ensures
        clock.run(a) == clock.run(b),
{
    lemma_clock_catches_up(clock, a);
    lemma_clock_catches_up(clock, b);
    lemma_run_accounts(clock, a);
    lemma_run_accounts(clock, b);
}

} // verus!
