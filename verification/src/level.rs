//! Experience points and player levels.
//!
//! A level starts at 1 with a threshold of 100 XP. Whenever the XP held
//! reaches the threshold, the threshold is paid, the level goes up by one and
//! the next threshold is one and a half times the last one (rounded down).

use vstd::prelude::*;

verus! {

/// The XP needed to leave `level` (level 1 needs 100).
pub open spec fn threshold_at(level: nat) -> nat
    decreases level,
{
    if level <= 1 {
        100
    } else {
        let t = threshold_at((level - 1) as nat);
        t + t / 2
    }
}

/// All XP paid on the way from level 1 up to `level`.
pub open spec fn xp_before(level: nat) -> nat
    decreases level,
{
    if level <= 1 {
        0
    } else {
        xp_before((level - 1) as nat) + threshold_at((level - 1) as nat)
    }
}

/// Every threshold is at least 100.
pub proof fn lemma_threshold_at_least_100(level: nat)
    ensures
        threshold_at(level) >= 100,
    decreases level,
{
    if level > 1 {
        lemma_threshold_at_least_100((level - 1) as nat);
    }
}

/// Thresholds never shrink as the level grows.
pub proof fn lemma_threshold_monotone(a: nat, b: nat)
    requires
        a <= b,
    ensures
        threshold_at(a) <= threshold_at(b),
    decreases b,
{
    if a < b {
        lemma_threshold_monotone(a, (b - 1) as nat);
    }
}

/// The XP paid to reach a level grows strictly with the level (from level 1 on).
pub proof fn lemma_xp_before_strict(a: nat, b: nat)
    requires
        1 <= a < b,
    ensures
        xp_before(a) + threshold_at(a) <= xp_before(b),
    decreases b,
{
    if a + 1 < b {
        lemma_xp_before_strict(a, (b - 1) as nat);
        lemma_threshold_at_least_100((b - 1) as nat);
    }
}

/// The level reached from `level` while holding `xp` in hand, paying
/// thresholds as long as the XP in hand reaches the current one.
pub open spec fn settled_level(xp: nat, level: nat) -> nat
    decreases xp,
{
    if xp < threshold_at(level) {
        level
    } else {
        proof {
            lemma_threshold_at_least_100(level);
        }
        settled_level((xp - threshold_at(level)) as nat, level + 1)
    }
}

proof fn lemma_settled_level_ge(xp: nat, level: nat)
    ensures
        settled_level(xp, level) >= level,
        xp >= threshold_at(level) ==> settled_level(xp, level) > level,
    decreases xp,
{
    if xp >= threshold_at(level) {
        lemma_threshold_at_least_100(level);
        lemma_settled_level_ge((xp - threshold_at(level)) as nat, level + 1);
    }
}

/// The experience state of the player.
pub struct Level {
    current_xp: u32,
    xp_threshold: u32,
    level: u32,
}

impl Level {
    /// The current level.
    pub closed spec fn level_spec(&self) -> nat {
        self.level as nat
    }

    /// The XP held towards the next level.
    pub closed spec fn xp_spec(&self) -> nat {
        self.current_xp as nat
    }

    /// The XP needed to leave the current level.
    pub closed spec fn threshold_spec(&self) -> nat {
        self.xp_threshold as nat
    }

    /// The state is one that the rules can reach: level at least 1, the
    /// threshold of that level, and less XP in hand than the threshold.
    pub open spec fn wf(&self) -> bool {
        &&& self.level_spec() >= 1
        &&& self.threshold_spec() == threshold_at(self.level_spec())
        &&& self.xp_spec() < self.threshold_spec()
    }

    /// All XP ever earned: what was paid to reach the level plus what is held.
    pub open spec fn total_xp(&self) -> nat {
        xp_before(self.level_spec()) + self.xp_spec()
    }

    /// Adding `xp` keeps every number of the state inside a `u32`.
    pub open spec fn xp_fits(&self, xp: nat) -> bool {
        let final_level = settled_level((self.xp_spec() + xp) as nat, self.level_spec());
        &&& self.xp_spec() + xp <= u32::MAX
        &&& final_level <= u32::MAX
        &&& threshold_at(final_level) <= u32::MAX
    }

    /// Adds `xp` and levels up as many times as the XP allows. Returns
    /// whether at least one level was gained.
    pub fn add_xp(&mut self, xp: u32) -> (leveled_up: bool)
        requires
            old(self).wf(),
            old(self).xp_fits(xp as nat),
        ensures
            final(self).wf(),
            final(self).total_xp() == old(self).total_xp() + xp,
            final(self).level_spec() == settled_level(
                (old(self).xp_spec() + xp) as nat,
                old(self).level_spec(),
            ),
            final(self).level_spec() >= old(self).level_spec(),
            leveled_up == (final(self).level_spec() > old(self).level_spec()),
    {
        let ghost start_level = self.level as nat;
        let ghost final_level = settled_level((self.current_xp + xp) as nat, self.level as nat);
        self.current_xp += xp;
        let mut leveled_up = false;
        while self.current_xp >= self.xp_threshold
            invariant
                self.level >= 1,
                self.xp_threshold == threshold_at(self.level as nat),
                xp_before(self.level as nat) + self.current_xp == xp_before(start_level)
                    + old(self).current_xp + xp,
                settled_level(self.current_xp as nat, self.level as nat) == final_level,
                final_level <= u32::MAX,
                threshold_at(final_level) <= u32::MAX,
                self.level >= start_level,
                leveled_up == (self.level > start_level),
            decreases self.current_xp,
        {
            proof {
                lemma_threshold_at_least_100(self.level as nat);
                lemma_settled_level_ge(
                    (self.current_xp - self.xp_threshold) as nat,
                    (self.level + 1) as nat,
                );
                lemma_threshold_monotone((self.level + 1) as nat, final_level);
            }
            self.level_up();
            leveled_up = true;
        }
        leveled_up
    }

    /// Pays the current threshold and moves to the next level.
    fn level_up(&mut self)
        requires
            old(self).current_xp >= old(self).xp_threshold,
            old(self).level < u32::MAX,
            old(self).xp_threshold + old(self).xp_threshold / 2 <= u32::MAX,
        ensures
            final(self).current_xp == old(self).current_xp - old(self).xp_threshold,
            final(self).level == old(self).level + 1,
            final(self).xp_threshold == old(self).xp_threshold + old(self).xp_threshold / 2,
    {
        self.current_xp -= self.xp_threshold;
        self.level += 1;
        self.xp_threshold = self.xp_threshold + self.xp_threshold / 2;
    }

    /// Whether adding `xp` keeps every number of the state inside a `u32`,
    /// so that `add_xp` may be called.
    pub fn can_add_xp(&self, xp: u32) -> (r: bool)
        requires
            self.wf(),
        ensures
            r == self.xp_fits(xp as nat),
    {
        let total: u64 = self.current_xp as u64 + xp as u64;
        if total > u32::MAX as u64 {
            return false;
        }
        let ghost final_level = settled_level(total as nat, self.level as nat);
        let mut cur: u64 = total;
        let mut lvl: u64 = self.level as u64;
        let mut thr: u64 = self.xp_threshold as u64;
        while cur >= thr
            invariant
                lvl >= 1,
                thr == threshold_at(lvl as nat),
                settled_level(cur as nat, lvl as nat) == final_level,
                final_level == settled_level((self.current_xp + xp) as nat, self.level as nat),
                cur <= u32::MAX,
                lvl <= u32::MAX,
                thr <= u32::MAX,
            decreases cur,
        {
            proof {
                lemma_threshold_at_least_100(lvl as nat);
                lemma_settled_level_ge((cur - thr) as nat, (lvl + 1) as nat);
                assert(settled_level(cur as nat, lvl as nat) == settled_level(
                    (cur - thr) as nat,
                    (lvl + 1) as nat,
                ));
            }
            if lvl == u32::MAX as u64 {
                return false;
            }
            let next: u64 = thr + thr / 2;
            if next > u32::MAX as u64 {
                proof {
                    lemma_threshold_monotone((lvl + 1) as nat, final_level);
                }
                return false;
            }
            cur = cur - thr;
            lvl = lvl + 1;
            thr = next;
        }
        true
    }

    /// The current level.
    pub fn level(&self) -> (r: u32)
        ensures
            r == self.level_spec(),
    {
        self.level
    }

    /// The XP held towards the next level.
    pub fn current_xp(&self) -> (r: u32)
        ensures
            r == self.xp_spec(),
    {
        self.current_xp
    }

    /// The XP needed to leave the current level.
    pub fn xp_threshold(&self) -> (r: u32)
        ensures
            r == self.threshold_spec(),
    {
        self.xp_threshold
    }
}

/// Two reachable experience states that hold the same total XP are the same
/// state: the level, the XP in hand and the threshold follow from the total.
pub proof fn lemma_level_determined_by_total(a: Level, b: Level)
    requires
        a.wf(),
        b.wf(),
        a.total_xp() == b.total_xp(),
    ensures
        a == b,
{
    if a.level < b.level {
        lemma_xp_before_strict(a.level as nat, b.level as nat);
    } else if b.level < a.level {
        lemma_xp_before_strict(b.level as nat, a.level as nat);
    }
}

/// Adding `x` XP and then `y` XP ends in the same state as adding `x + y` at
/// once: a level-up never loses or invents experience.
pub proof fn lemma_add_xp_additive(start: Level, after_x: Level, after_xy: Level, at_once: Level, x: nat, y: nat)
    requires
        start.wf(),
        after_x.wf(),
        after_x.total_xp() == start.total_xp() + x,
        after_xy.wf(),
        after_xy.total_xp() == after_x.total_xp() + y,
        at_once.wf(),
        at_once.total_xp() == start.total_xp() + (x + y),
    ensures
        after_xy == at_once,
{
    lemma_level_determined_by_total(after_xy, at_once);
}

/// Adding no XP leaves the state as it was.
pub proof fn lemma_add_zero_xp(start: Level, after: Level)
    requires
        start.wf(),
        after.wf(),
        after.total_xp() == start.total_xp() + 0,
    ensures
        after == start,
{
    lemma_level_determined_by_total(start, after);
}

impl Default for Level {
    /// Level 1, no XP, a threshold of 100.
    fn default() -> (r: Self)
        ensures
            r.level_spec() == 1,
            r.xp_spec() == 0,
            r.threshold_spec() == 100,
            r.wf(),
            r.total_xp() == 0,
    {
        Level { current_xp: 0, xp_threshold: 100, level: 1 }
    }
}

} // verus!
