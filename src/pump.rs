use vstd::prelude::*;

verus! {

/// `ceil(a / b)` for `b > 0`.
pub open spec fn spec_ceil_div(a: int, b: int) -> int {
    (a + b - 1) / b
}

/// Index of the boundary the next tick fires on: the one after the last tick,
/// or, where that one has already passed at `now`, the first boundary not
/// before `now`. Missed boundaries are skipped, never made up.
pub open spec fn spec_next_index(period: u64, last: u64, now: u64) -> int {
    let due = spec_ceil_div(now as int, period as int);
    if due > last + 1 { due } else { last + 1 }
}

/// The stages of one tick, in the order they run.
#[derive(Clone, Copy, Debug, PartialEq, Eq, Structural)]
pub enum Stage {
    /// Render a frame and copy it into the shared segment.
    Render,
    /// Ask the server to present the shared pixmap.
    Present,
    /// Re-assert the properties that name the pixmap.
    Publish,
    /// Flush pending requests.
    Flush,
    /// Sleep until the next tick's boundary.
    Wait,
}

/// What the pump asks its driver to do next.
#[derive(Clone, Copy, Debug, PartialEq, Eq, Structural)]
pub enum Action {
    Render,
    Present,
    Publish,
    Flush,
    /// Sleep until this time, counted from the pump's start.
    SleepUntil(u64),
}

/// The stage that follows `s` within a tick, and the first stage of the next
/// tick after the wait.
pub open spec fn spec_following(s: Stage) -> Stage {
    match s {
        Stage::Render => Stage::Present,
        Stage::Present => Stage::Publish,
        Stage::Publish => Stage::Flush,
        Stage::Flush => Stage::Wait,
        Stage::Wait => Stage::Render,
    }
}

/// Fixed-interval frame pump. Tick boundaries lie at whole multiples of
/// `period`, counted from the pump's start; `last` is the index of the
/// boundary the latest tick fired on, and `stage` the stage last handed out.
#[derive(Clone, Copy, Debug, PartialEq, Eq, Structural)]
pub struct FramePump {
    pub period: u64,
    pub last: u64,
    pub stage: Stage,
}

impl FramePump {
    pub open spec fn wf(&self) -> bool {
        self.period > 0
    }

    /// A pump whose first tick starts at once, on boundary zero.
    pub fn new(period: u64) -> (r: FramePump)
        requires
            period > 0,
        ensures
            r.wf(),
            r.period == period,
            r.last == 0,
            r.stage == Stage::Wait,
    {
        FramePump { period, last: 0, stage: Stage::Wait }
    }

    /// Time of the boundary the latest tick fired on.
    pub fn last_tick(&self) -> (r: u64)
        requires
            self.wf(),
            self.last * self.period <= u64::MAX,
        ensures
            r == self.last * self.period,
    {
        self.last * self.period
    }

    /// Given the time `now` at which the current tick's work ended, picks the
    /// boundary the next tick fires on and records it. `None`, with nothing
    /// changed, where that time does not fit in a `u64`.
    pub fn schedule(&mut self, now: u64) -> (r: Option<u64>)
        requires
            old(self).wf(),
        ensures
            final(self).period == old(self).period,
            final(self).stage == old(self).stage,
            r is None <==> spec_next_index(old(self).period, old(self).last, now) * old(self).period > u64::MAX,
            r matches Some(t) ==> t == spec_next_index(old(self).period, old(self).last, now) * old(self).period
                && final(self).last == spec_next_index(old(self).period, old(self).last, now),
            r is None ==> *final(self) == *old(self),
    {
        let p = self.period;
        proof {
            let a = now as int;
            let b = p as int;
            vstd::arithmetic::div_mod::lemma_fundamental_div_mod(a, b);
            lemma_ceil_div_step(a, b);
            if a % b != 0 {
                assert(a / b < u64::MAX) by (nonlinear_arith)
                    requires a == b * (a / b) + a % b, 0 < a % b < b, a <= u64::MAX, a / b >= 0;
            }
        }
        let due: u64 = if now % p == 0 { now / p } else { now / p + 1 };
        if self.last == u64::MAX {
            proof {
                let k = spec_next_index(p, self.last, now);
                assert(k * p > u64::MAX) by (nonlinear_arith)
                    requires k >= u64::MAX + 1, p >= 1;
            }
            return None;
        }
        let next: u64 = if due > self.last + 1 { due } else { self.last + 1 };
        match next.checked_mul(p) {
            Some(t) => {
                self.last = next;
                Some(t)
            },
            None => None,
        }
    }
}

impl FramePump {
    /// Called when the stage last handed out has finished, at time `now`:
    /// moves to the next stage and says what to do. After a flush it picks
    /// the boundary to sleep until, as `schedule` does. `None`, with nothing
    /// changed, where that boundary does not fit in a `u64`.
    pub fn advance(&mut self, now: u64) -> (r: Option<Action>)
        requires
            old(self).wf(),
        ensures
            final(self).wf(),
            final(self).period == old(self).period,
            r is None <==> (old(self).stage == Stage::Flush
                && spec_next_index(old(self).period, old(self).last, now) * old(self).period > u64::MAX),
            r is None ==> *final(self) == *old(self),
            r is Some ==> final(self).stage == spec_following(old(self).stage),
            r is Some && old(self).stage != Stage::Flush ==> final(self).last == old(self).last,
            r matches Some(a) ==> a == match spec_following(old(self).stage) {
                Stage::Render => Action::Render,
                Stage::Present => Action::Present,
                Stage::Publish => Action::Publish,
                Stage::Flush => Action::Flush,
                Stage::Wait => Action::SleepUntil(
                    (spec_next_index(old(self).period, old(self).last, now) * old(self).period) as u64,
                ),
            },
            r matches Some(Action::SleepUntil(_)) ==> final(self).last == spec_next_index(
                old(self).period,
                old(self).last,
                now,
            ),
    {
        match self.stage {
            Stage::Wait => {
                self.stage = Stage::Render;
                Some(Action::Render)
            },
            Stage::Render => {
                self.stage = Stage::Present;
                Some(Action::Present)
            },
            Stage::Present => {
                self.stage = Stage::Publish;
                Some(Action::Publish)
            },
            Stage::Publish => {
                self.stage = Stage::Flush;
                Some(Action::Flush)
            },
            Stage::Flush => {
                match self.schedule(now) {
                    Some(t) => {
                        self.stage = Stage::Wait;
                        Some(Action::SleepUntil(t))
                    },
                    None => None,
                }
            },
        }
    }
}

/// A render is handed out only once the previous tick has run through all of
/// its stages and slept: one frame at a time, in a fixed order, with a wait
/// between the flush of one tick and the render of the next.
pub proof fn lemma_stage_cycle(s: Stage)
    ensures
        spec_following(s) == Stage::Render <==> s == Stage::Wait,
        spec_following(s) == Stage::Wait <==> s == Stage::Flush,
        spec_following(spec_following(spec_following(spec_following(spec_following(s))))) == s,
{
}

proof fn lemma_ceil_div_step(a: int, b: int)
    requires
        a >= 0,
        b > 0,
    ensures
        a % b == 0 ==> spec_ceil_div(a, b) == a / b,
        a % b != 0 ==> spec_ceil_div(a, b) == a / b + 1,
{
    vstd::arithmetic::div_mod::lemma_fundamental_div_mod(a, b);
    let q = a / b;
    let m = a % b;
    if m == 0 {
        assert(a + b - 1 == q * b + (b - 1)) by (nonlinear_arith)
            requires a == b * q + m, m == 0;
        vstd::arithmetic::div_mod::lemma_fundamental_div_mod_converse(a + b - 1, b, q, b - 1);
    } else {
        assert(a + b - 1 == (q + 1) * b + (m - 1)) by (nonlinear_arith)
            requires a == b * q + m;
        vstd::arithmetic::div_mod::lemma_fundamental_div_mod_converse(a + b - 1, b, q + 1, m - 1);
    }
}

/// Ticks are never closer together than the period, the next tick never fires
/// before `now`, and it fires either one period after the last tick or on the
/// first boundary not before `now`: a late tick brings no catch-up burst, and
/// every tick lies on a boundary.
pub proof fn lemma_schedule_spacing(period: u64, last: u64, now: u64)
    requires
        period > 0,
    ensures
        ({
            let k = spec_next_index(period, last, now);
            &&& k * period >= last * period + period
            &&& k * period >= now
            &&& (k == last + 1 || k * period < now + period)
            &&& (k * period) % (period as int) == 0
        }),
{
    let p = period as int;
    let n = now as int;
    let k = spec_next_index(period, last, now);
    let due = spec_ceil_div(n, p);
    lemma_ceil_div_step(n, p);
    vstd::arithmetic::div_mod::lemma_fundamental_div_mod(n, p);
    assert(k >= last + 1);
    assert(k * p >= (last + 1) * p) by (nonlinear_arith)
        requires k >= last + 1, p > 0;
    assert((last + 1) * p == last * p + p) by (nonlinear_arith);
    assert(due * p >= n) by (nonlinear_arith)
        requires n == p * (n / p) + n % p, 0 <= n % p < p,
            n % p == 0 ==> due == n / p, n % p != 0 ==> due == n / p + 1;
    assert(k * p >= due * p) by (nonlinear_arith)
        requires k >= due, p > 0;
    if k != last + 1 {
        assert(k == due);
        assert(due * p < n + p) by (nonlinear_arith)
            requires n == p * (n / p) + n % p, 0 <= n % p < p,
                n % p == 0 ==> due == n / p, n % p != 0 ==> due == n / p + 1;
    }
    vstd::arithmetic::div_mod::lemma_mod_multiples_basic(k, p);
}

} // verus!
