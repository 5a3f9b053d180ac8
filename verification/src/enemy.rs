//! Spawn waves: which enemy templates may spawn at a difficulty level, and
//! how many enemies of each a wave holds.
//!
//! The pool of enemy templates is given by the difficulty level that each
//! template asks for, in the order of the pool. The batch size and the
//! difficulty modifier enter by their whole parts.

use vstd::prelude::*;

verus! {

/// Whether an enemy template that asks for `required_difficulty` may spawn
/// at `difficulty_level`.
pub open spec fn spec_can_spawn(required_difficulty: int, difficulty_level: int) -> bool {
    required_difficulty <= difficulty_level
}

/// How many enemies of one template a wave holds: the batch size times the
/// whole part of the difficulty modifier, and none where that is negative.
pub open spec fn spec_batch_size(enemies_per_batch: int, modifier: int) -> nat {
    if enemies_per_batch * modifier > 0 {
        (enemies_per_batch * modifier) as nat
    } else {
        0
    }
}

/// Whether the batch size can be computed in 32 bits.
pub open spec fn spec_batch_fits(enemies_per_batch: int, modifier: int) -> bool {
    i32::MIN <= enemies_per_batch * modifier <= i32::MAX
}

/// How many enemies of one template spawn in a wave: a full batch where the
/// template may spawn at the current difficulty level, none otherwise.
pub open spec fn spec_spawn_count(
    required_difficulty: int,
    difficulty_level: int,
    enemies_per_batch: int,
    modifier: int,
) -> nat {
    if spec_can_spawn(required_difficulty, difficulty_level) {
        spec_batch_size(enemies_per_batch, modifier)
    } else {
        0
    }
}

/// Whether some template of the pool may spawn at `difficulty_level`.
pub open spec fn spec_any_can_spawn(required_difficulty: Seq<i32>, difficulty_level: int) -> bool {
    exists|i: int|
        0 <= i < required_difficulty.len() && spec_can_spawn(
            #[trigger] required_difficulty[i] as int,
            difficulty_level,
        )
}

/// Whether the wave of one tick of the spawn clock can be computed: every
/// batch that the wave calls for fits in 32 bits. A tick on which the clock
/// has not run out, or on which no template may spawn, calls for none.
pub open spec fn spec_wave_fits(
    timer_finished: bool,
    required_difficulty: Seq<i32>,
    difficulty_level: int,
    enemies_per_batch: int,
    modifier: int,
) -> bool {
    timer_finished && spec_any_can_spawn(required_difficulty, difficulty_level) ==> spec_batch_fits(
        enemies_per_batch,
        modifier,
    )
}

/// Whether `wave` is the wave that one tick of the spawn clock brings: one
/// count for each template of the pool, in the order of the pool, which is
/// the template's spawn count on a tick on which the clock has run out and
/// zero on any other.
pub open spec fn spec_is_wave(
    wave: Seq<u32>,
    timer_finished: bool,
    required_difficulty: Seq<i32>,
    difficulty_level: int,
    enemies_per_batch: int,
    modifier: int,
) -> bool {
    &&& wave.len() == required_difficulty.len()
    &&& forall|i: int|
        0 <= i < wave.len() ==> #[trigger] wave[i] == if timer_finished {
            spec_spawn_count(
                required_difficulty[i] as int,
                difficulty_level,
                enemies_per_batch,
                modifier,
            )
        } else {
            0
        }
}

/// How many enemies of one template spawn in a wave.
pub fn spawn_count(
    required_difficulty: i32,
    difficulty_level: i32,
    enemies_per_batch: i32,
    modifier: i32,
) -> (count: u32)
    requires
        spec_can_spawn(required_difficulty as int, difficulty_level as int) ==> spec_batch_fits(
            enemies_per_batch as int,
            modifier as int,
        ),
    ensures
        count == spec_spawn_count(
            required_difficulty as int,
            difficulty_level as int,
            enemies_per_batch as int,
            modifier as int,
        ),
{
    if required_difficulty <= difficulty_level {
        let batch: i32 = enemies_per_batch * modifier;
        if batch > 0 {
            batch as u32
        } else {
            0
        }
    } else {
        0
    }
}

/// The wave that one tick of the spawn clock brings: for each template of
/// the pool, in order, how many enemies of it spawn. Nothing spawns on a
/// tick on which the clock has not run out.
pub fn spawn_wave(
    timer_finished: bool,
    required_difficulty: &Vec<i32>,
    difficulty_level: i32,
    enemies_per_batch: i32,
    modifier: i32,
) -> (wave: Vec<u32>)
    requires
        spec_wave_fits(
            timer_finished,
            required_difficulty@,
            difficulty_level as int,
            enemies_per_batch as int,
            modifier as int,
        ),
    ensures
        spec_is_wave(
            wave@,
            timer_finished,
            required_difficulty@,
            difficulty_level as int,
            enemies_per_batch as int,
            modifier as int,
        ),
{
    let mut wave: Vec<u32> = Vec::new();
    let mut i: usize = 0;
    while i < required_difficulty.len()
        invariant
            i <= required_difficulty@.len(),
            spec_wave_fits(
                timer_finished,
                required_difficulty@,
                difficulty_level as int,
                enemies_per_batch as int,
                modifier as int,
            ),
            spec_is_wave(
                wave@,
                timer_finished,
                required_difficulty@.take(i as int),
                difficulty_level as int,
                enemies_per_batch as int,
                modifier as int,
            ),
        decreases required_difficulty@.len() - i,
    {
        let count: u32 = if timer_finished {
            spawn_count(required_difficulty[i], difficulty_level, enemies_per_batch, modifier)
        } else {
            0
        };
        wave.push(count);
        i += 1;
    }
    wave
}

/// Whether some template of the pool may spawn at `difficulty_level`.
fn any_can_spawn(required_difficulty: &Vec<i32>, difficulty_level: i32) -> (any: bool)
    ensures
        any == spec_any_can_spawn(required_difficulty@, difficulty_level as int),
{
    let mut i: usize = 0;
    while i < required_difficulty.len()
        invariant
            i <= required_difficulty@.len(),
            forall|k: int|
                0 <= k < i ==> !spec_can_spawn(
                    #[trigger] required_difficulty@[k] as int,
                    difficulty_level as int,
                ),
        decreases required_difficulty@.len() - i,
    {
        if required_difficulty[i] <= difficulty_level {
            return true;
        }
        i += 1;
    }
    false
}

/// The wave that one tick of the spawn clock brings, or `None` where a
/// batch that the wave calls for does not fit in 32 bits.
pub fn checked_spawn_wave(
    timer_finished: bool,
    required_difficulty: &Vec<i32>,
    difficulty_level: i32,
    enemies_per_batch: i32,
    modifier: i32,
) -> (wave: Option<Vec<u32>>)
    ensures
        wave.is_some() <==> spec_wave_fits(
            timer_finished,
            required_difficulty@,
            difficulty_level as int,
            enemies_per_batch as int,
            modifier as int,
        ),
        wave matches Some(counts) ==> spec_is_wave(
            counts@,
            timer_finished,
            required_difficulty@,
            difficulty_level as int,
            enemies_per_batch as int,
            modifier as int,
        ),
{
    let fits = !timer_finished || enemies_per_batch.checked_mul(modifier).is_some()
        || !any_can_spawn(required_difficulty, difficulty_level);
    if fits {
        Some(
            spawn_wave(
                timer_finished,
                required_difficulty,
                difficulty_level,
                enemies_per_batch,
                modifier,
            ),
        )
    } else {
        None
    }
}

/// Raising the difficulty level never shrinks a wave: at a higher level a
/// template spawns at least as many enemies as at a lower one, the batch
/// size being equal.
pub proof fn higher_level_spawns_no_fewer(
    required_difficulty: int,
    lower_level: int,
    higher_level: int,
    enemies_per_batch: int,
    modifier: int,
)
    requires
        lower_level <= higher_level,
    ensures
        spec_spawn_count(required_difficulty, lower_level, enemies_per_batch, modifier)
            <= spec_spawn_count(required_difficulty, higher_level, enemies_per_batch, modifier),
{
}

} // verus!
