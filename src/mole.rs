use rand::rngs::{OsRng, StdRng};
use rand::seq::SliceRandom;
use rand::SeedableRng;
use vstd::prelude::*;

verus! {

/// Number of mole slots on the pad.
pub const SLOT_COUNT: usize = 9;

pub const DEFAULT_ESCAPE_WINDOW_MS: u128 = 4000;

pub const DEFAULT_SPAWN_INTERVAL_MS: u128 = 3000;

pub const DEFAULT_LIVES: u8 = 5;

/// Hits that complete a round.
pub const HITS_PER_ROUND: u8 = 10;

/// Each round multiplies the spawn interval by `SPAWN_SPEED_CHANGE_NUM / SPEED_CHANGE_DEN`
/// and the escape window by `ESCAPE_SPEED_CHANGE_NUM / SPEED_CHANGE_DEN`.
pub const SPAWN_SPEED_CHANGE_NUM: u128 = 9;

pub const ESCAPE_SPEED_CHANGE_NUM: u128 = 10;

pub const SPEED_CHANGE_DEN: u128 = 10;

pub const TARGET_FPS: u128 = 100;

/// Least spacing between two rendered frames.
pub const FRAME_INTERVAL_MS: u128 = 1000 / TARGET_FPS;

/// Where a slot stands at a given time.
#[derive(PartialEq, Eq, Structural, Clone, Copy, Debug)]
pub enum MoleStatus {
    Inactive,
    Active,
    Escaped,
}

/// What the lights should show for one slot: dark, or a mole that has been up
/// `elapsed_ms` of its `window_ms` (the closer to the window, the redder).
#[derive(PartialEq, Eq, Structural, Clone, Copy, Debug)]
pub enum MoleLight {
    Off,
    Lit { elapsed_ms: u128, window_ms: u128 },
}

/// What one tick of the game loop leads to.
#[derive(Debug)]
pub enum Tick {
    /// Lives ran out: the session is over with this final score.
    Over { score: u32 },
    /// Play goes on; `frame` holds the nine slot lights when a frame was due.
    Continue { frame: Option<Vec<MoleLight>> },
}

/// The abstract state of a game: activation time of each slot, and the
/// round and session counters.
pub struct MoleModel {
    pub slots: Seq<Option<nat>>,
    pub score: nat,
    pub hits_this_round: nat,
    pub lives: nat,
    pub round_num: nat,
    pub spawn_interval_ms: nat,
    pub escape_window_ms: nat,
    pub spawn_timer: nat,
    pub last_frame_time: nat,
}

/// An activation time read as a natural number.
pub open spec fn opt_nat(o: Option<u128>) -> Option<nat> {
    match o {
        Some(t) => Some(t as nat),
        None => None,
    }
}

/// Milliseconds from `t` to `now`; zero when `now` lies before `t`.
pub open spec fn elapsed(now: nat, t: nat) -> nat {
    if now >= t {
        (now - t) as nat
    } else {
        0
    }
}

/// `x + 1`, held at `max`.
pub open spec fn bump(x: nat, max: nat) -> nat {
    if x < max {
        x + 1
    } else {
        x
    }
}

/// Slot `idx` at `now`: inactive when unset, escaped once more than the
/// escape window has passed since activation, active otherwise.
pub open spec fn status(m: MoleModel, idx: int, now: nat) -> MoleStatus {
    match m.slots[idx] {
        None => MoleStatus::Inactive,
        Some(t) => if elapsed(now, t) > m.escape_window_ms {
            MoleStatus::Escaped
        } else {
            MoleStatus::Active
        },
    }
}

/// Nine slots, difficulty within its starting bounds with a non-zero escape
/// window, and counters that fit their machine types.
pub open spec fn valid_model(m: MoleModel) -> bool {
    &&& m.slots.len() == SLOT_COUNT
    &&& m.spawn_interval_ms <= DEFAULT_SPAWN_INTERVAL_MS
    &&& 0 < m.escape_window_ms <= DEFAULT_ESCAPE_WINDOW_MS
    &&& m.score <= u32::MAX
    &&& m.hits_this_round <= u8::MAX
    &&& m.lives <= u8::MAX
    &&& m.round_num <= u8::MAX
}

/// How many of the first `n` slots have escaped at `now`.
pub open spec fn escaped_among(m: MoleModel, now: nat, n: int) -> nat
    decreases n,
{
    if n <= 0 {
        0
    } else {
        escaped_among(m, now, n - 1) + if status(m, n - 1, now) == MoleStatus::Escaped {
            1nat
        } else {
            0nat
        }
    }
}

pub open spec fn escaped_count(m: MoleModel, now: nat) -> nat {
    escaped_among(m, now, m.slots.len() as int)
}

/// Escape resolution: every escaped slot is cleared and costs a life, with
/// `lives` held at zero.
pub open spec fn after_escapes(m: MoleModel, now: nat) -> MoleModel {
    MoleModel {
        slots: Seq::new(
            m.slots.len(),
            |i: int|
                if status(m, i, now) == MoleStatus::Escaped {
                    None
                } else {
                    m.slots[i]
                },
        ),
        lives: if escaped_count(m, now) <= m.lives {
            (m.lives - escaped_count(m, now)) as nat
        } else {
            0
        },
        ..m
    }
}

/// The slot that a key stands for: digits `'0'` to `'8'`.
pub open spec fn key_slot(key: Option<char>) -> Option<int> {
    match key {
        Some(c) => if '0' <= c && c <= '8' {
            Some(c as int - '0' as int)
        } else {
            None
        },
        None => None,
    }
}

/// Whether `key` hits a mole that is up at `now`.
pub open spec fn is_hit(m: MoleModel, key: Option<char>, now: nat) -> bool {
    match key_slot(key) {
        Some(i) => status(m, i, now) == MoleStatus::Active,
        None => false,
    }
}

/// Hit resolution: a key on an active slot scores and clears it; anything
/// else changes nothing.
pub open spec fn after_hit(m: MoleModel, key: Option<char>, now: nat) -> MoleModel {
    if is_hit(m, key, now) {
        MoleModel {
            slots: m.slots.update(key_slot(key).unwrap(), None),
            score: bump(m.score, u32::MAX as nat),
            hits_this_round: bump(m.hits_this_round, u8::MAX as nat),
            ..m
        }
    } else {
        m
    }
}

/// More than the spawn interval has passed since the last spawn attempt.
pub open spec fn spawn_due(m: MoleModel, now: nat) -> bool {
    elapsed(now, m.spawn_timer) > m.spawn_interval_ms
}

/// Some slot is free for a new mole.
pub open spec fn has_inactive(m: MoleModel) -> bool {
    exists|i: int| 0 <= i < m.slots.len() && #[trigger] m.slots[i] is None
}

/// `m2` is one outcome of a spawn attempt on `m` at `now`: nothing happens
/// before the interval has passed; after it, the spawn timer is set to `now`
/// and, if any slot is inactive, exactly one inactive slot becomes active.
pub open spec fn spawn_outcome(m: MoleModel, m2: MoleModel, now: nat) -> bool {
    if !spawn_due(m, now) {
        m2 == m
    } else if !has_inactive(m) {
        m2 == MoleModel { spawn_timer: now, ..m }
    } else {
        exists|i: int|
            0 <= i < m.slots.len() && #[trigger] m.slots[i] is None && m2 == MoleModel {
                slots: m.slots.update(i, Some(now)),
                spawn_timer: now,
                ..m
            }
    }
}

/// At least `FRAME_INTERVAL_MS` have passed since the last frame.
pub open spec fn frame_due(m: MoleModel, now: nat) -> bool {
    now >= m.last_frame_time && now - m.last_frame_time >= FRAME_INTERVAL_MS
}

/// The light of slot `idx` at `now`.
pub open spec fn light_of(m: MoleModel, idx: int, now: nat) -> MoleLight {
    if status(m, idx, now) == MoleStatus::Active {
        MoleLight::Lit {
            elapsed_ms: elapsed(now, m.slots[idx].unwrap()) as u128,
            window_ms: m.escape_window_ms as u128,
        }
    } else {
        MoleLight::Off
    }
}

/// The lights of all slots at `now`, in slot order.
pub open spec fn frame_of(m: MoleModel, now: nat) -> Seq<MoleLight> {
    Seq::new(m.slots.len(), |i: int| light_of(m, i, now))
}

/// The state after a render attempt: the frame time moves only when a frame is due.
pub open spec fn after_render(m: MoleModel, now: nat) -> MoleModel {
    if frame_due(m, now) {
        MoleModel { last_frame_time: now, ..m }
    } else {
        m
    }
}

/// Round completion: the hit count starts over, spawns come faster, the
/// escape window is scaled, and a bonus life and a round are added.
pub open spec fn next_round(m: MoleModel) -> MoleModel {
    MoleModel {
        hits_this_round: 0,
        spawn_interval_ms: (m.spawn_interval_ms * SPAWN_SPEED_CHANGE_NUM as nat / SPEED_CHANGE_DEN as nat) as nat,
        escape_window_ms: (m.escape_window_ms * ESCAPE_SPEED_CHANGE_NUM as nat / SPEED_CHANGE_DEN as nat) as nat,
        lives: bump(m.lives, u8::MAX as nat),
        round_num: bump(m.round_num, u8::MAX as nat),
        ..m
    }
}

/// End of a tick that did not end the game: render, then close the round if its quota is met.
pub open spec fn settle(m: MoleModel, now: nat) -> MoleModel {
    if after_render(m, now).hits_this_round >= HITS_PER_ROUND {
        next_round(after_render(m, now))
    } else {
        after_render(m, now)
    }
}

/// A game at its starting values, with frame time `last_frame_time`.
pub open spec fn initial_model(last_frame_time: nat) -> MoleModel {
    MoleModel {
        slots: Seq::new(SLOT_COUNT as nat, |i: int| None),
        score: 0,
        hits_this_round: 0,
        lives: DEFAULT_LIVES as nat,
        round_num: 1,
        spawn_interval_ms: DEFAULT_SPAWN_INTERVAL_MS as nat,
        escape_window_ms: DEFAULT_ESCAPE_WINDOW_MS as nat,
        spawn_timer: 0,
        last_frame_time,
    }
}

/// Slot `idx` starts a mole at `now` if it is inactive.
pub open spec fn after_spawn_at(m: MoleModel, idx: int, now: nat) -> MoleModel {
    if m.slots[idx] is None {
        MoleModel { slots: m.slots.update(idx, Some(now)), ..m }
    } else {
        m
    }
}

/// `f` is what a render attempt on `m` at `now` hands out.
pub open spec fn frame_result(m: MoleModel, now: nat, f: Option<Vec<MoleLight>>) -> bool {
    if frame_due(m, now) {
        f is Some && f.unwrap()@ == frame_of(m, now)
    } else {
        f is None
    }
}

#[verifier::external_type_specification]
#[verifier::external_body]
pub struct ExStdRng(StdRng);

/// Relies on rand's `SeedableRng::seed_from_u64`: a generator whose draws the seed fixes.
#[verifier::external_body]
fn seeded_rng(seed: u64) -> StdRng {
    StdRng::seed_from_u64(seed)
}

/// Relies on rand's `SeedableRng::from_rng` over `OsRng`: a generator seeded
/// by the system, or `None` where the system gives no entropy.
#[verifier::external_body]
fn entropy_rng() -> Option<StdRng> {
    StdRng::from_rng(OsRng).ok()
}

/// Relies on rand's `SliceRandom::choose` for slices: on a non-empty slice it
/// returns one of its elements, drawn uniformly by index.
#[verifier::external_body]
fn choose_slot(rng: &mut StdRng, candidates: &Vec<usize>) -> (r: usize)
    requires
        candidates.len() > 0,
    ensures
        candidates@.contains(r),
{
    *candidates.choose(rng).unwrap()
}

/// The game engine: nine mole slots, the round and session counters, and the
/// random source that places new moles.
pub struct Mole {
    rng: StdRng,
    moles: Vec<Option<u128>>,
    score: u32,
    hits: u8,
    lives: u8,
    round_num: u8,
    spawn_interval_ms: u128,
    escape_window_ms: u128,
    spawn_timer: u128,
    last_frame: u128,
}

impl View for Mole {
    type V = MoleModel;

    closed spec fn view(&self) -> MoleModel {
        MoleModel {
            slots: self.moles@.map_values(|o: Option<u128>| opt_nat(o)),
            score: self.score as nat,
            hits_this_round: self.hits as nat,
            lives: self.lives as nat,
            round_num: self.round_num as nat,
            spawn_interval_ms: self.spawn_interval_ms as nat,
            escape_window_ms: self.escape_window_ms as nat,
            spawn_timer: self.spawn_timer as nat,
            last_frame_time: self.last_frame as nat,
        }
    }
}

impl Mole {
    /// The engine's state is a valid game.
    pub open spec fn wf(&self) -> bool {
        valid_model(self@)
    }

    fn from_rng(rng: StdRng) -> (r: Mole)
        ensures
            r.wf(),
            r@ == initial_model(0),
    {
        let r = Mole {
            rng,
            moles: vec![None; SLOT_COUNT],
            score: 0,
            hits: 0,
            lives: DEFAULT_LIVES,
            round_num: 1,
            spawn_interval_ms: DEFAULT_SPAWN_INTERVAL_MS,
            escape_window_ms: DEFAULT_ESCAPE_WINDOW_MS,
            spawn_timer: 0,
            last_frame: 0,
        };
        assert(r@.slots =~= initial_model(0).slots);
        r
    }

    /// A fresh game whose mole placement is seeded by the system; `None`
    /// where the system has no entropy to give.
    pub fn new() -> (r: Option<Mole>)
        ensures
            r matches Some(g) ==> g.wf() && g@ == initial_model(0),
    {
        match entropy_rng() {
            Some(rng) => Some(Mole::from_rng(rng)),
            None => None,
        }
    }

    /// A fresh game whose mole placement is fixed by `seed`.
    pub fn with_seed(seed: u64) -> (r: Mole)
        ensures
            r.wf(),
            r@ == initial_model(0),
    {
        Mole::from_rng(seeded_rng(seed))
    }

    /// Classifies slot `idx` at time `now`; reads the state only.
    pub fn get_mole_status(&self, idx: usize, now: u128) -> (r: MoleStatus)
        requires
            self.wf(),
            idx < SLOT_COUNT,
        ensures
            r == status(self@, idx as int, now as nat),
    {
        assert(self@.slots[idx as int] == opt_nat(self.moles@[idx as int]));
        match self.moles[idx] {
            None => MoleStatus::Inactive,
            Some(t) => {
                if now >= t && now - t > self.escape_window_ms {
                    MoleStatus::Escaped
                } else {
                    MoleStatus::Active
                }
            },
        }
    }

    /// Clears slot `idx`.
    fn reset_mole(&mut self, idx: usize)
        requires
            old(self).wf(),
            idx < SLOT_COUNT,
        ensures
            final(self).wf(),
            final(self)@ == (MoleModel { slots: old(self)@.slots.update(idx as int, None), ..old(self)@ }),
    {
        self.moles.set(idx, None);
        assert(self@.slots =~= old(self)@.slots.update(idx as int, None));
    }

    /// Escape resolution: clears every slot whose mole has overstayed the
    /// escape window and takes one life for each, never going below zero.
    pub fn check_for_mole_escapes(&mut self, now: u128)
        requires
            old(self).wf(),
        ensures
            final(self).wf(),
            final(self)@ == after_escapes(old(self)@, now as nat),
    {
        let ghost m0 = self@;
        let mut count: u8 = 0;
        let mut i: usize = 0;
        while i < SLOT_COUNT
            invariant
                self.wf(),
                valid_model(m0),
                0 <= i <= SLOT_COUNT,
                count as nat == escaped_among(m0, now as nat, i as int),
                count as int <= i,
                self@ == (MoleModel { slots: self@.slots, ..m0 }),
                forall|j: int|
                    0 <= j < i ==> #[trigger] self@.slots[j] == after_escapes(m0, now as nat).slots[j],
                forall|j: int| i <= j < SLOT_COUNT ==> #[trigger] self@.slots[j] == m0.slots[j],
            decreases SLOT_COUNT - i,
        {
            assert(status(self@, i as int, now as nat) == status(m0, i as int, now as nat));
            if self.get_mole_status(i, now) == MoleStatus::Escaped {
                self.reset_mole(i);
                count = count + 1;
            }
            assert(self@.slots[i as int] == after_escapes(m0, now as nat).slots[i as int]);
            i = i + 1;
        }
        assert(self@.slots =~= after_escapes(m0, now as nat).slots);
        if count <= self.lives {
            self.lives = self.lives - count;
        } else {
            self.lives = 0;
        }
    }

    /// Hit resolution: a digit key `'0'`..`'8'` on an active slot adds one to
    /// the score and to the round's hits and clears the slot; any other key,
    /// or none, changes nothing.
    pub fn check_for_mole_hits(&mut self, key: Option<char>, now: u128)
        requires
            old(self).wf(),
        ensures
            final(self).wf(),
            final(self)@ == after_hit(old(self)@, key, now as nat),
    {
        if let Some(c) = key {
            if '0' <= c && c <= '8' {
                let idx = (c as u32 - '0' as u32) as usize;
                if self.get_mole_status(idx, now) == MoleStatus::Active {
                    if self.hits < u8::MAX {
                        self.hits = self.hits + 1;
                    }
                    if self.score < u32::MAX {
                        self.score = self.score + 1;
                    }
                    self.reset_mole(idx);
                }
            }
        }
    }

    /// Starts a mole in slot `idx` at `now` if that slot is inactive.
    pub fn spawn_mole(&mut self, idx: usize, now: u128)
        requires
            old(self).wf(),
            idx < SLOT_COUNT,
        ensures
            final(self).wf(),
            final(self)@ == after_spawn_at(old(self)@, idx as int, now as nat),
    {
        assert(self@.slots[idx as int] == opt_nat(self.moles@[idx as int]));
        if self.moles[idx].is_none() {
            self.moles.set(idx, Some(now));
            assert(self@.slots =~= old(self)@.slots.update(idx as int, Some(now as nat)));
        }
    }

    /// The indices of the inactive slots, each once, in ascending order.
    pub fn inactive_slots(&self) -> (r: Vec<usize>)
        requires
            self.wf(),
        ensures
            forall|k: int| 0 <= k < r.len() ==> #[trigger] r@[k] < SLOT_COUNT && self@.slots[r@[k] as int] is None,
            forall|i: int| 0 <= i < SLOT_COUNT && #[trigger] self@.slots[i] is None ==> r@.contains(i as usize),
            forall|k1: int, k2: int| 0 <= k1 < k2 < r.len() ==> r@[k1] < r@[k2],
            r@.no_duplicates(),
    {
        let mut r: Vec<usize> = Vec::new();
        let mut i: usize = 0;
        while i < SLOT_COUNT
            invariant
                self.wf(),
                0 <= i <= SLOT_COUNT,
                forall|k: int| 0 <= k < r.len() ==> #[trigger] r@[k] < SLOT_COUNT && self@.slots[r@[k] as int] is None,
                forall|j: int| 0 <= j < i && #[trigger] self@.slots[j] is None ==> r@.contains(j as usize),
                forall|k: int| 0 <= k < r.len() ==> #[trigger] r@[k] < i,
                forall|k1: int, k2: int| 0 <= k1 < k2 < r.len() ==> r@[k1] < r@[k2],
            decreases SLOT_COUNT - i,
        {
            assert(self@.slots[i as int] == opt_nat(self.moles@[i as int]));
            let ghost r0 = r@;
            if self.moles[i].is_none() {
                r.push(i);
                assert forall|j: int|
                    0 <= j <= i && #[trigger] self@.slots[j] is None implies r@.contains(j as usize) by {
                    if j < i {
                        let k = choose|k: int| 0 <= k < r0.len() && r0[k] == j as usize;
                        assert(r@[k] == j as usize);
                    } else {
                        assert(r@[r.len() - 1] == i);
                    }
                }
            }
            i = i + 1;
        }
        assert(r@.no_duplicates()) by {
            assert forall|k1: int, k2: int| 0 <= k1 < r.len() && 0 <= k2 < r.len() && k1 != k2 implies r@[k1]
                != r@[k2] by {
                if k1 < k2 {
                    assert(r@[k1] < r@[k2]);
                } else {
                    assert(r@[k2] < r@[k1]);
                }
            }
        }
        r
    }

    /// Starts a mole in one inactive slot chosen at random, if there is one.
    pub fn spawn_random_mole(&mut self, now: u128)
        requires
            old(self).wf(),
        ensures
            final(self).wf(),
            !has_inactive(old(self)@) ==> final(self)@ == old(self)@,
            has_inactive(old(self)@) ==> exists|i: int|
                0 <= i < SLOT_COUNT && #[trigger] old(self)@.slots[i] is None
                    && final(self)@ == (MoleModel { slots: old(self)@.slots.update(i, Some(now as nat)), ..old(self)@ }),
    {
        let stopped = self.inactive_slots();
        if stopped.len() == 0 {
            assert forall|i: int| 0 <= i < SLOT_COUNT implies !(#[trigger] self@.slots[i] is None) by {
                if self@.slots[i] is None {
                    assert(stopped@.contains(i as usize));
                }
            }
            return;
        }
        let idx = choose_slot(&mut self.rng, &stopped);
        let ghost k = stopped@.index_of(idx);
        assert(stopped@[k] == idx);
        self.spawn_mole(idx, now);
    }

    /// Spawn scheduling: once more than the spawn interval has passed since the
    /// last attempt, tries to start a mole and restarts the interval at `now`,
    /// whether or not a slot was free.
    pub fn maybe_spawn(&mut self, now: u128)
        requires
            old(self).wf(),
        ensures
            final(self).wf(),
            spawn_outcome(old(self)@, final(self)@, now as nat),
    {
        if now > self.spawn_timer && now - self.spawn_timer > self.spawn_interval_ms {
            self.spawn_random_mole(now);
            self.spawn_timer = now;
        }
    }

    /// The light of slot `idx` at `now`: lit with its progress while active, dark otherwise.
    pub fn mole_light(&self, idx: usize, now: u128) -> (r: MoleLight)
        requires
            self.wf(),
            idx < SLOT_COUNT,
        ensures
            r == light_of(self@, idx as int, now as nat),
    {
        assert(self@.slots[idx as int] == opt_nat(self.moles@[idx as int]));
        match self.get_mole_status(idx, now) {
            MoleStatus::Active => {
                let t = self.moles[idx].unwrap();
                let elapsed_ms: u128 = if now >= t {
                    now - t
                } else {
                    0
                };
                MoleLight::Lit { elapsed_ms, window_ms: self.escape_window_ms }
            },
            _ => MoleLight::Off,
        }
    }

    /// Frame gating and rendering: when at least `FRAME_INTERVAL_MS` have
    /// passed since the last frame, returns the light of every slot and
    /// records `now` as the frame time; otherwise returns `None` and changes nothing.
    pub fn render_moles(&mut self, now: u128) -> (r: Option<Vec<MoleLight>>)
        requires
            old(self).wf(),
        ensures
            final(self).wf(),
            final(self)@ == after_render(old(self)@, now as nat),
            frame_result(old(self)@, now as nat, r),
    {
        if now < self.last_frame || now - self.last_frame < FRAME_INTERVAL_MS {
            return None;
        }
        let mut pixels: Vec<MoleLight> = Vec::new();
        let mut i: usize = 0;
        while i < SLOT_COUNT
            invariant
                self.wf(),
                0 <= i <= SLOT_COUNT,
                pixels@ =~= frame_of(self@, now as nat).take(i as int),
            decreases SLOT_COUNT - i,
        {
            let light = self.mole_light(i, now);
            pixels.push(light);
            i = i + 1;
        }
        assert(pixels@ =~= frame_of(self@, now as nat));
        self.last_frame = now;
        Some(pixels)
    }

    /// Round completion: resets the round's hits, speeds up spawning, scales
    /// the escape window, and adds a bonus life and a round.
    pub fn start_next_round(&mut self)
        requires
            old(self).wf(),
        ensures
            final(self).wf(),
            final(self)@ == next_round(old(self)@),
    {
        self.hits = 0;
        self.spawn_interval_ms = self.spawn_interval_ms * SPAWN_SPEED_CHANGE_NUM / SPEED_CHANGE_DEN;
        self.escape_window_ms = self.escape_window_ms * ESCAPE_SPEED_CHANGE_NUM / SPEED_CHANGE_DEN;
        if self.lives < u8::MAX {
            self.lives = self.lives + 1;
        }
        if self.round_num < u8::MAX {
            self.round_num = self.round_num + 1;
        }
    }

    /// Starts the spawn interval at `now`, as play begins.
    pub fn begin(&mut self, now: u128)
        requires
            old(self).wf(),
        ensures
            final(self).wf(),
            final(self)@ == (MoleModel { spawn_timer: now as nat, ..old(self)@ }),
    {
        self.spawn_timer = now;
    }

    /// Restores score, slots, spawn timer, difficulty, round, hits and lives
    /// to their starting values; the frame time and the random source stay.
    pub fn mole_game_reset(&mut self)
        requires
            old(self).wf(),
        ensures
            final(self).wf(),
            final(self)@ == initial_model(old(self)@.last_frame_time),
    {
        self.score = 0;
        self.moles = vec![None; SLOT_COUNT];
        self.spawn_timer = 0;
        self.spawn_interval_ms = DEFAULT_SPAWN_INTERVAL_MS;
        self.escape_window_ms = DEFAULT_ESCAPE_WINDOW_MS;
        self.round_num = 1;
        self.hits = 0;
        self.lives = DEFAULT_LIVES;
        assert(self@.slots =~= initial_model(old(self)@.last_frame_time).slots);
    }

    /// One tick of play at `now` with the key polled this tick: escapes are
    /// resolved first and end the game when no life is left; otherwise the
    /// key is scored, a spawn is attempted, a frame is rendered if due, and
    /// the round closes once its hit quota is met.
    pub fn tick(&mut self, now: u128, key: Option<char>) -> (r: Tick)
        requires
            old(self).wf(),
        ensures
            final(self).wf(),
            (r is Over) <==> after_escapes(old(self)@, now as nat).lives == 0,
            r is Over ==> final(self)@ == after_escapes(old(self)@, now as nat)
                && r->Over_score as nat == after_escapes(old(self)@, now as nat).score,
            r is Continue ==> exists|s: MoleModel|
                #[trigger] spawn_outcome(after_hit(after_escapes(old(self)@, now as nat), key, now as nat), s, now as nat)
                    && final(self)@ == settle(s, now as nat)
                    && frame_result(s, now as nat, r->Continue_frame),
    {
        self.check_for_mole_escapes(now);
        if self.lives == 0 {
            return Tick::Over { score: self.score };
        }
        self.check_for_mole_hits(key, now);
        let ghost h = self@;
        self.maybe_spawn(now);
        let ghost s = self@;
        let frame = self.render_moles(now);
        if self.hits >= HITS_PER_ROUND {
            self.start_next_round();
        }
        assert(spawn_outcome(h, s, now as nat));
        Tick::Continue { frame }
    }
    pub fn score(&self) -> (r: u32)
        ensures
            r as nat == self@.score,
    {
        self.score
    }

    pub fn lives(&self) -> (r: u8)
        ensures
            r as nat == self@.lives,
    {
        self.lives
    }

    pub fn hits_this_round(&self) -> (r: u8)
        ensures
            r as nat == self@.hits_this_round,
    {
        self.hits
    }

    pub fn round_num(&self) -> (r: u8)
        ensures
            r as nat == self@.round_num,
    {
        self.round_num
    }

    pub fn spawn_interval_ms(&self) -> (r: u128)
        ensures
            r as nat == self@.spawn_interval_ms,
    {
        self.spawn_interval_ms
    }

    pub fn escape_window_ms(&self) -> (r: u128)
        ensures
            r as nat == self@.escape_window_ms,
    {
        self.escape_window_ms
    }

    pub fn spawn_timer(&self) -> (r: u128)
        ensures
            r as nat == self@.spawn_timer,
    {
        self.spawn_timer
    }

    pub fn last_frame_time(&self) -> (r: u128)
        ensures
            r as nat == self@.last_frame_time,
    {
        self.last_frame
    }

    /// When the mole in slot `idx` came up, or `None` for an inactive slot.
    pub fn activation_time(&self, idx: usize) -> (r: Option<u128>)
        requires
            self.wf(),
            idx < SLOT_COUNT,
        ensures
            opt_nat(r) == self@.slots[idx as int],
    {
        self.moles[idx]
    }
}

/// A slot's status depends on nothing but its activation time, the escape
/// window and the time asked about: asking again with the same arguments
/// gives the same answer.
pub proof fn lemma_status_repeatable(m1: MoleModel, m2: MoleModel, idx: int, now: nat)
    requires
        valid_model(m1),
        valid_model(m2),
        0 <= idx < SLOT_COUNT,
        m1.slots[idx] == m2.slots[idx],
        m1.escape_window_ms == m2.escape_window_ms,
    ensures
        status(m1, idx, now) == status(m2, idx, now),
{
}

/// A slot that has escaped is cleared before hits are resolved, so a key on
/// it in the same tick scores nothing.
pub proof fn lemma_escaped_slot_not_hit(m: MoleModel, now: nat, key: Option<char>, idx: int)
    requires
        valid_model(m),
        0 <= idx < SLOT_COUNT,
        status(m, idx, now) == MoleStatus::Escaped,
        key_slot(key) == Some(idx),
    ensures
        after_escapes(m, now).slots[idx] is None,
        after_hit(after_escapes(m, now), key, now) == after_escapes(m, now),
{
}

/// Lives never go below zero, and the game ends at the first tick whose
/// escapes take as many lives as are left or more.
pub proof fn lemma_lives_floor(m: MoleModel, now: nat)
    requires
        valid_model(m),
    ensures
        after_escapes(m, now).lives == 0 <==> escaped_count(m, now) >= m.lives,
        escaped_count(m, now) < m.lives ==> after_escapes(m, now).lives == m.lives - escaped_count(m, now),
{
}

/// A spawn attempt changes only the slots and the spawn timer.
proof fn lemma_spawn_keeps_counters(m: MoleModel, s: MoleModel, now: nat)
    requires
        spawn_outcome(m, s, now),
    ensures
        s.score == m.score,
        s.hits_this_round == m.hits_this_round,
        s.lives == m.lives,
        s.round_num == m.round_num,
        s.spawn_interval_ms == m.spawn_interval_ms,
        s.escape_window_ms == m.escape_window_ms,
        s.last_frame_time == m.last_frame_time,
{
    if spawn_due(m, now) && has_inactive(m) {
        let i = choose|i: int|
            0 <= i < m.slots.len() && #[trigger] m.slots[i] is None && s == MoleModel {
                slots: m.slots.update(i, Some(now)),
                spawn_timer: now,
                ..m
            };
    }
}

/// The score never drops over a tick, whatever the tick leads to.
pub proof fn lemma_score_never_drops(m: MoleModel, now: nat, key: Option<char>, s: MoleModel)
    requires
        valid_model(m),
        spawn_outcome(after_hit(after_escapes(m, now), key, now), s, now),
    ensures
        after_escapes(m, now).score == m.score,
        settle(s, now).score >= m.score,
{
    lemma_spawn_keeps_counters(after_hit(after_escapes(m, now), key, now), s, now);
}

/// The tick that credits the tenth hit of a round closes it: the hit count
/// starts over, the spawn interval is scaled by 9/10, the escape window by
/// 10/10, and lives and round number each grow by one.
pub proof fn lemma_round_transition(m: MoleModel, now: nat, key: Option<char>, s: MoleModel)
    requires
        valid_model(m),
        m.hits_this_round + 1 == HITS_PER_ROUND,
        is_hit(after_escapes(m, now), key, now),
        spawn_outcome(after_hit(after_escapes(m, now), key, now), s, now),
        after_escapes(m, now).lives < u8::MAX,
        m.round_num < u8::MAX,
    ensures
        settle(s, now).hits_this_round == 0,
        settle(s, now).spawn_interval_ms == m.spawn_interval_ms * 9 / 10,
        settle(s, now).escape_window_ms == m.escape_window_ms,
        settle(s, now).lives == after_escapes(m, now).lives + 1,
        settle(s, now).round_num == m.round_num + 1,
        settle(s, now).score == m.score + 1 || m.score == u32::MAX,
{
    lemma_spawn_keeps_counters(after_hit(after_escapes(m, now), key, now), s, now);
}

/// Frames are spaced: a frame is produced only when at least
/// `FRAME_INTERVAL_MS` have passed since the previous one, and producing it
/// records its time.
pub proof fn lemma_frames_spaced(m: MoleModel, now: nat, f: Option<Vec<MoleLight>>)
    requires
        frame_result(m, now, f),
        f is Some,
    ensures
        now >= m.last_frame_time + FRAME_INTERVAL_MS,
        after_render(m, now).last_frame_time == now,
{
}

} // verus!
