//! Kinematic player controller: lateral movement, the jump accumulator and
//! gravity fall, composed in a fixed per-tick stage order.

use vstd::prelude::*;

verus! {

/// Horizontal run speed, in millipixels per millisecond (equal to 350 pixels
/// per second).
pub const PLAYER_SPEED: i64 = 350;

/// Upward speed while a jump is in flight, in millipixels per millisecond
/// (550 pixels per second).
pub const JUMP_VEL: i64 = 550;

/// Total rise of one jump, in millipixels (100 pixels). A jump ends exactly
/// when the accumulated rise reaches this height.
pub const MAX_JUMP_HEIGHT: i64 = 100_000;

/// Downward speed applied while no jump is in flight, in millipixels per
/// millisecond (200 pixels per second).
pub const PLAYER_GRAVITY: i64 = 200;

/// A 2D displacement request, in millipixels.
#[derive(Clone, Copy, Debug, PartialEq, Eq, Structural)]
pub struct Displacement {
    pub x: i64,
    pub y: i64,
}

/// The per-tick interface to the kinematic body: the displacement queued for
/// the upcoming physics step (`None` when no stage requested motion), and the
/// flag that makes the body transfer momentum to dynamic bodies it pushes.
#[derive(Clone, Copy, Debug)]
pub struct CharacterController {
    pub translation: Option<Displacement>,
    pub apply_impulse_to_dynamic_bodies: bool,
}

/// The digital inputs sampled for one tick.
#[derive(Clone, Copy, Debug)]
pub struct InputSnapshot {
    pub left: bool,
    pub right: bool,
    pub jump: bool,
}

/// Progress of an in-flight jump. `Rising { accumulated }` plays the role of
/// an attached jump-accumulator component; `Idle` its absence. Keeping the
/// two as one tagged value removes any ambiguity about the order of creation
/// and removal within a tick.
#[derive(Clone, Copy, Debug, PartialEq, Eq, Structural)]
pub enum JumpState {
    Idle,
    Rising { accumulated: i64 },
}

impl JumpState {
    /// Invariant: an in-flight jump has risen at least nothing and strictly
    /// less than the maximum height (the accumulator is removed on the tick
    /// the maximum is reached).
    pub open spec fn wf(self) -> bool {
        self matches JumpState::Rising { accumulated } ==> 0 <= accumulated
            < MAX_JUMP_HEIGHT
    }

    /// Whether a jump accumulator is currently attached.
    pub fn is_rising(&self) -> (b: bool)
        ensures
            b == (*self is Rising),
    {
        matches!(self, JumpState::Rising { .. })
    }
}

/// The horizontal component currently queued, or 0 when nothing is queued.
pub open spec fn queued_x(t: Option<Displacement>) -> int {
    match t {
        Some(d) => d.x as int,
        None => 0,
    }
}

/// The vertical component currently queued, or 0 when nothing is queued.
pub open spec fn queued_y(t: Option<Displacement>) -> int {
    match t {
        Some(d) => d.y as int,
        None => 0,
    }
}

/// Refreshes the impulse-cooperation flag: a kinematic body pushing dynamic
/// bodies must transfer momentum. Idempotent; nothing else changes.
pub fn modify_character_controller_impulses(controller: &mut CharacterController)
    ensures
        final(controller).apply_impulse_to_dynamic_bodies,
        final(controller).translation == old(controller).translation,
{
    controller.apply_impulse_to_dynamic_bodies = true;
}

/// Resolves the two opposing direction keys. When exactly one is held, the
/// horizontal displacement is set to the signed run distance for this tick
/// and whatever vertical displacement was already queued is preserved
/// (0 when nothing was queued yet). When neither or both are held, the
/// queued displacement is left untouched.
pub fn player_lateral_movement_system(
    controller: &mut CharacterController,
    left: bool,
    right: bool,
    dt_ms: u32,
)
    ensures
        final(controller).apply_impulse_to_dynamic_bodies == old(
            controller,
        ).apply_impulse_to_dynamic_bodies,
        left == right ==> final(controller).translation == old(controller).translation,
        right && !left ==> (final(controller).translation matches Some(d) && d.x == PLAYER_SPEED
            * dt_ms && d.y == queued_y(old(controller).translation)),
        left && !right ==> (final(controller).translation matches Some(d) && d.x == -(PLAYER_SPEED
            * dt_ms) && d.y == queued_y(old(controller).translation)),
{
    let run: i64 = PLAYER_SPEED * (dt_ms as i64);
    let dx: i64;
    if right && !left {
        dx = run;
    } else if left && !right {
        dx = -run;
    } else {
        return ;
    }
    let dy: i64 = match controller.translation {
        Some(existing_motion) => existing_motion.y,
        None => 0,
    };
    controller.translation = Some(Displacement { x: dx, y: dy });
}

/// Whether this tick's inputs create a fresh accumulator: jump is held, the
/// most recent grounded result is true, and no accumulator exists yet.
pub open spec fn jump_created(j: JumpState, jump_pressed: bool, grounded: bool) -> bool {
    jump_pressed && grounded && j is Idle
}

/// The jump state after the creation stage of one tick.
pub open spec fn jump_set_next(j: JumpState, jump_pressed: bool, grounded: bool) -> JumpState {
    if jump_created(j, jump_pressed, grounded) {
        JumpState::Rising { accumulated: 0 }
    } else {
        j
    }
}

/// The unclamped rise requested by one tick of an in-flight jump.
pub open spec fn jump_step(dt: int) -> int {
    JUMP_VEL * dt
}

/// The rise actually applied by one tick of an in-flight jump with
/// `accumulated` already risen: the step, clamped so the total never passes
/// the maximum height.
pub open spec fn jump_movement(accumulated: int, dt: int) -> int {
    if accumulated + jump_step(dt) >= MAX_JUMP_HEIGHT {
        MAX_JUMP_HEIGHT - accumulated
    } else {
        jump_step(dt)
    }
}

/// The jump state after the consumption stage of one tick: the accumulator is
/// removed exactly on the tick where the running total first reaches the
/// maximum height; otherwise it keeps accumulating.
pub open spec fn jump_next(j: JumpState, dt: int) -> JumpState {
    match j {
        JumpState::Idle => JumpState::Idle,
        JumpState::Rising { accumulated } => {
            if accumulated + jump_step(dt) >= MAX_JUMP_HEIGHT {
                JumpState::Idle
            } else {
                JumpState::Rising { accumulated: (accumulated + jump_step(dt)) as i64 }
            }
        },
    }
}

/// The vertical displacement queued by the consumption stage of one tick
/// (0 when no jump is in flight).
pub open spec fn jump_risen(j: JumpState, dt: int) -> int {
    match j {
        JumpState::Idle => 0,
        JumpState::Rising { accumulated } => jump_movement(accumulated as int, dt),
    }
}

/// Attaches a fresh accumulator when the jump key is held, the most recent
/// grounded result is true and no jump is already in flight; otherwise the
/// state is left as it is.
pub fn set_jump_accumulator(jump: &mut JumpState, jump_pressed: bool, grounded: bool)
    ensures
        *final(jump) == jump_set_next(*old(jump), jump_pressed, grounded),
        old(jump).wf() ==> final(jump).wf(),
{
    if jump_pressed && grounded && !jump.is_rising() {
        *jump = JumpState::Rising { accumulated: 0 };
    }
}

/// Consumes an in-flight accumulator for one tick: computes the step for this
/// frame delta, clamps it so the total rise never passes the maximum height,
/// removes the accumulator on the tick the maximum is reached (that tick
/// still applies the clamped step), queues the step as the vertical
/// displacement, and preserves the horizontal displacement already queued.
/// Does nothing when no jump is in flight.
pub fn use_jump_accumulator(
    controller: &mut CharacterController,
    jump: &mut JumpState,
    dt_ms: u32,
)
    requires
        old(jump).wf(),
    ensures
        final(jump).wf(),
        *final(jump) == jump_next(*old(jump), dt_ms as int),
        (*old(jump)) is Idle ==> final(controller).translation == old(controller).translation,
        (*old(jump)) is Rising ==> (final(controller).translation matches Some(d) && d.x == queued_x(
            old(controller).translation,
        ) && d.y == jump_risen(*old(jump), dt_ms as int)),
        final(controller).apply_impulse_to_dynamic_bodies == old(
            controller,
        ).apply_impulse_to_dynamic_bodies,
{
    let accumulated: i64 = match *jump {
        JumpState::Idle => {
            return ;
        },
        JumpState::Rising { accumulated } => accumulated,
    };
    let mut movement: i64 = JUMP_VEL * (dt_ms as i64);
    if accumulated + movement >= MAX_JUMP_HEIGHT {
        movement = MAX_JUMP_HEIGHT - accumulated;
        *jump = JumpState::Idle;
    } else {
        *jump = JumpState::Rising { accumulated: accumulated + movement };
    }
    let dx: i64 = match controller.translation {
        Some(existing_motion) => existing_motion.x,
        None => 0,
    };
    controller.translation = Some(Displacement { x: dx, y: movement });
}

/// Queues the gravity fall for one tick: a downward vertical displacement,
/// preserving the horizontal displacement already queued. Applies only while
/// no jump accumulator is attached; a body mid-jump is left untouched.
pub fn fall_system(controller: &mut CharacterController, jump: &JumpState, dt_ms: u32)
    ensures
        *jump is Rising ==> final(controller).translation == old(controller).translation,
        *jump is Idle ==> (final(controller).translation matches Some(d) && d.x == queued_x(
            old(controller).translation,
        ) && d.y == -(PLAYER_GRAVITY * dt_ms)),
        final(controller).apply_impulse_to_dynamic_bodies == old(
            controller,
        ).apply_impulse_to_dynamic_bodies,
{
    if jump.is_rising() {
        return ;
    }
    let movement: i64 = -(PLAYER_GRAVITY * (dt_ms as i64));
    let dx: i64 = match controller.translation {
        Some(existing_motion) => existing_motion.x,
        None => 0,
    };
    controller.translation = Some(Displacement { x: dx, y: movement });
}

/// Whether an accumulator is attached to the player at any point during a
/// tick with these inputs: either one was already in flight, or the creation
/// stage attaches a fresh one. Gravity is suppressed exactly in this case.
pub open spec fn accumulator_this_tick(j: JumpState, jump_pressed: bool, grounded: bool) -> bool {
    j is Rising || jump_created(j, jump_pressed, grounded)
}

/// The horizontal displacement queued once the lateral stage has run.
pub open spec fn lateral_x(t: Option<Displacement>, left: bool, right: bool, dt: int) -> int {
    if right && !left {
        PLAYER_SPEED * dt
    } else if left && !right {
        -(PLAYER_SPEED * dt)
    } else {
        queued_x(t)
    }
}

/// A tagged player entity. Its world position, in millipixels, is all the
/// camera fit reads of it.
#[derive(Clone, Copy, Debug, PartialEq, Eq, Structural)]
pub struct Player {
    pub x: i64,
    pub y: i64,
}

/// The player controller pass: it owns the fixed per-tick stage order in
/// which the movement systems run.
pub struct PlayerPlugin;

impl PlayerPlugin {
    /// Runs one simulation tick of the player controller, in the fixed stage
    /// order: lateral input resolution, jump-accumulator lifecycle (creation,
    /// then consumption of an accumulator that was already in flight), gravity
    /// fall, impulse-cooperation refresh.
    ///
    /// An accumulator created this tick starts rising on the next tick, so a
    /// jump can never be created and fully consumed within one tick; but it
    /// already suppresses gravity, as does an accumulator consumed to
    /// completion this tick (its clamped final step is what the tick applies).
    pub fn tick(
        controller: &mut CharacterController,
        jump: &mut JumpState,
        input: InputSnapshot,
        grounded: bool,
        dt_ms: u32,
    )
        requires
            old(jump).wf(),
        ensures
            final(jump).wf(),
            final(controller).apply_impulse_to_dynamic_bodies,
            // Gravity fall applies exactly on a tick where no jump
            // accumulator exists for the body; with one attached at any
            // point of the tick, the vertical displacement is the jump's
            // alone (or untouched on the creation tick).
            !accumulator_this_tick(*old(jump), input.jump, grounded) ==> (final(controller)
                .translation matches Some(d) && d.y == -(PLAYER_GRAVITY * dt_ms)),
            // Jump-accumulator lifecycle.
            *final(jump) == if (*old(jump)) is Rising {
                jump_next(*old(jump), dt_ms as int)
            } else {
                jump_set_next(*old(jump), input.jump, grounded)
            },
            // The queued displacement, stage by stage.
            ({
                let lat = lateral_x(old(controller).translation, input.left, input.right, dt_ms as int);
                if (*old(jump)) is Rising {
                    // Mid-jump: the (possibly clamped) jump step is the
                    // vertical displacement; gravity never applies.
                    final(controller).translation matches Some(d) && d.x == lat && d.y
                        == jump_risen(*old(jump), dt_ms as int)
                } else if jump_created(*old(jump), input.jump, grounded) {
                    // Creation tick: the fresh accumulator suppresses gravity
                    // and is not consumed yet, so only the lateral stage
                    // touches the queued displacement.
                    if input.left != input.right {
                        final(controller).translation matches Some(d) && d.x == lat && d.y
                            == queued_y(old(controller).translation)
                    } else {
                        final(controller).translation == old(controller).translation
                    }
                } else {
                    // No accumulator at any point this tick: gravity applies.
                    final(controller).translation matches Some(d) && d.x == lat && d.y == -(
                    PLAYER_GRAVITY * dt_ms)
                }
            }),
    {
        player_lateral_movement_system(controller, input.left, input.right, dt_ms);
        let entry_rising = jump.is_rising();
        set_jump_accumulator(jump, input.jump, grounded);
        let had_accumulator = jump.is_rising();
        if entry_rising {
            use_jump_accumulator(controller, jump, dt_ms);
        }
        if !had_accumulator {
            fall_system(controller, jump, dt_ms);
        }
        modify_character_controller_impulses(controller);
    }
}

/// The sum of the unclamped steps requested by a sequence of frame deltas.
pub open spec fn sum_jump_steps(dts: Seq<int>) -> int
    decreases dts.len(),
{
    if dts.len() == 0 {
        0
    } else {
        jump_step(dts[0]) + sum_jump_steps(dts.subrange(1, dts.len() as int))
    }
}

/// The jump state after the consumption stage has run once for each frame
/// delta in turn.
pub open spec fn run_jump(j: JumpState, dts: Seq<int>) -> JumpState
    decreases dts.len(),
{
    if dts.len() == 0 {
        j
    } else {
        run_jump(jump_next(j, dts[0]), dts.subrange(1, dts.len() as int))
    }
}

/// The total height risen over a sequence of frame deltas: the sum of the
/// (clamped) vertical displacements the consumption stage queued.
pub open spec fn total_risen(j: JumpState, dts: Seq<int>) -> int
    decreases dts.len(),
{
    if dts.len() == 0 {
        0
    } else {
        jump_risen(j, dts[0]) + total_risen(jump_next(j, dts[0]), dts.subrange(1, dts.len() as int))
    }
}

/// One jump run to its end, from any in-flight state: the total rise is the
/// requested sum of steps, capped at the height that is still left, and the
/// accumulator survives exactly as long as the cap is not reached.
pub proof fn lemma_jump_run(accumulated: i64, dts: Seq<int>)
    requires
        0 <= accumulated < MAX_JUMP_HEIGHT,
        forall|i: int| 0 <= i < dts.len() ==> dts[i] >= 0,
    ensures
        total_risen(JumpState::Rising { accumulated }, dts) == vstd::math::min(
            sum_jump_steps(dts),
            MAX_JUMP_HEIGHT - accumulated,
        ),
        run_jump(JumpState::Rising { accumulated }, dts) == if sum_jump_steps(dts)
            >= MAX_JUMP_HEIGHT - accumulated {
            JumpState::Idle
        } else {
            JumpState::Rising { accumulated: (accumulated + sum_jump_steps(dts)) as i64 }
        },
    decreases dts.len(),
{
    if dts.len() == 0 {
    } else {
        let rest = dts.subrange(1, dts.len() as int);
        assert(forall|i: int| 0 <= i < rest.len() ==> rest[i] >= 0);
        lemma_sum_jump_steps_nonneg(rest);
        let step = jump_step(dts[0]);
        if accumulated + step >= MAX_JUMP_HEIGHT {
            lemma_run_jump_idle(rest);
        } else {
            lemma_jump_run((accumulated + step) as i64, rest);
        }
    }
}

/// A finished jump stays finished: further ticks neither revive the
/// accumulator nor rise any higher.
pub proof fn lemma_run_jump_idle(dts: Seq<int>)
    ensures
        run_jump(JumpState::Idle, dts) == JumpState::Idle,
        total_risen(JumpState::Idle, dts) == 0,
    decreases dts.len(),
{
    if dts.len() > 0 {
        lemma_run_jump_idle(dts.subrange(1, dts.len() as int));
    }
}

/// Non-negative frame deltas request a non-negative total of steps.
pub proof fn lemma_sum_jump_steps_nonneg(dts: Seq<int>)
    requires
        forall|i: int| 0 <= i < dts.len() ==> dts[i] >= 0,
    ensures
        sum_jump_steps(dts) >= 0,
    decreases dts.len(),
{
    if dts.len() > 0 {
        let rest = dts.subrange(1, dts.len() as int);
        assert(forall|i: int| 0 <= i < rest.len() ==> rest[i] >= 0);
        lemma_sum_jump_steps_nonneg(rest);
    }
}

/// While Rising from a fresh accumulator, the accumulated jump height after
/// any number of ticks equals the requested sum of steps capped at
/// `MAX_JUMP_HEIGHT`, and the accumulator is destroyed exactly on the tick
/// where the running sum first reaches `MAX_JUMP_HEIGHT`: every prefix of the
/// run ends with the accumulator gone precisely when its sum has reached the
/// cap.
pub proof fn lemma_jump_height_capped(dts: Seq<int>)
    requires
        forall|i: int| 0 <= i < dts.len() ==> dts[i] > 0,
    ensures
        total_risen(JumpState::Rising { accumulated: 0 }, dts) == vstd::math::min(
            sum_jump_steps(dts),
            MAX_JUMP_HEIGHT as int,
        ),
        forall|n: int|
            0 <= n <= dts.len() ==> (run_jump(JumpState::Rising { accumulated: 0 }, dts.take(n))
                is Idle <==> sum_jump_steps(dts.take(n)) >= MAX_JUMP_HEIGHT),
{
    lemma_jump_run(0, dts);
    assert forall|n: int| 0 <= n <= dts.len() implies (run_jump(
        JumpState::Rising { accumulated: 0 },
        dts.take(n),
    ) is Idle <==> sum_jump_steps(dts.take(n)) >= MAX_JUMP_HEIGHT) by {
        assert(forall|i: int| 0 <= i < dts.take(n).len() ==> dts.take(n)[i] >= 0);
        lemma_jump_run(0, dts.take(n));
    }
}

/// Round trip: a jump created from Grounded-Idle and run until its
/// accumulator is consumed leaves the jump state exactly as it started, and
/// the next qualifying input (jump held while grounded) starts a fresh jump
/// just like the first one did.
pub proof fn lemma_jump_round_trip(dts: Seq<int>)
    requires
        forall|i: int| 0 <= i < dts.len() ==> dts[i] > 0,
        sum_jump_steps(dts) >= MAX_JUMP_HEIGHT,
    ensures
        ({
            let started = jump_set_next(JumpState::Idle, true, true);
            let finished = run_jump(started, dts);
            finished == JumpState::Idle && jump_set_next(finished, true, true) == started
        }),
{
    lemma_jump_run(0, dts);
}

/// Everything the player entity is spawned with.
pub struct PlayerBundle {
    pub player: Player,
    pub controller: CharacterController,
    pub collider: crate::ground::BoxCollider,
    pub jump: JumpState,
    pub rotation_locked: bool,
}

/// Builds the player entity as spawned at startup: a kinematic box of
/// half-extents 20 x 50 pixels at position (100, 300), rotation locked, with
/// impulse cooperation enabled, no displacement queued and no jump in flight.
pub fn startup_system() -> (b: PlayerBundle)
    ensures
        b.player == (Player { x: 100_000, y: 300_000 }),
        b.controller.translation is None,
        b.controller.apply_impulse_to_dynamic_bodies,
        b.collider == (crate::ground::BoxCollider { half_x: 20_000, half_y: 50_000 }),
        b.jump == JumpState::Idle,
        b.rotation_locked,
{
    PlayerBundle {
        player: Player { x: 100_000, y: 300_000 },
        controller: CharacterController {
            translation: None,
            apply_impulse_to_dynamic_bodies: true,
        },
        collider: crate::ground::BoxCollider { half_x: 20_000, half_y: 50_000 },
        jump: JumpState::Idle,
        rotation_locked: true,
    }
}

} // verus!
