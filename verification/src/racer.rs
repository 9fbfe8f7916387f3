use vstd::prelude::*;
use vstd::pervasive::VecAdditionalExecFns;
use vstd::string::StrSliceExecFns;
use vstd::string::StringExecFns;

use crate::circuit::circuit_ok;
use crate::circuit::lemma_window_max_in_range;
use crate::circuit::lemma_window_max_snoc;
use crate::circuit::ranking_at;
use crate::circuit::seq_max;
use crate::circuit::window_max;
use crate::dice::roll;
use crate::labels::speed_adj;
use crate::labels::speed_label;
use crate::labels::turn_adj;
use crate::labels::turn_label;

verus! {

/// Who controls a racer: a human at the console or a computer brain.
#[derive(Debug, Clone)]
pub enum AI {
    Human,
    NPC(Brain),
}

/// The closed set of computer behaviour tags. Currently a classification
/// only: no behaviour is wired to the turn resolver.
#[derive(Debug, Clone)]
pub enum Brain {
    Nocombat,
    Aggressive,
    Beast,
    Deathwish,
    Lurker,
    Slug,
}

/// A position in laps and turns.
#[derive(Debug, Clone)]
pub struct Position {
    /// The lap
    pub lap: usize,
    /// The index of the current turn in the lap
    pub turn: usize,
}

/// Vroom!
#[derive(Debug, Clone)]
pub struct Racer {
    /// The name of the valiant driver
    pub name: String,
    /// The health of the car
    pub hp: isize,
    /// The current position
    pub position: Position,
    /// The speed ranking
    pub speed: isize,
    /// Don't Crash!
    pub alive: bool,
    /// Controller
    pub ai: AI,
    /// Turn Index
    pub turn: usize,
    /// Log
    pub log: Vec<Vec<String>>,
}

/// The number of steps taken at a given speed ranking: 1 below cruising,
/// 2 at cruising, 3 above.
pub open spec fn move_range_spec(speed: int) -> int {
    if speed < 0 {
        1
    } else if speed == 0 {
        2
    } else {
        3
    }
}

/// Speed after one `speed_up` call: incremented, clamped at 3.
pub open spec fn speed_step_up(speed: int) -> int {
    if speed < 3 {
        speed + 1
    } else {
        speed
    }
}

/// Speed after one `slow_down` call: decremented, clamped at -2.
pub open spec fn speed_step_down(speed: int) -> int {
    if speed > -2 {
        speed - 1
    } else {
        speed
    }
}

/// How a position advances by `steps` along a circuit of length `size`:
/// reaching or passing the lap end enters the next lap and resets the turn
/// index to the start, discarding any excess beyond the lap boundary.
pub open spec fn advanced(pre: Position, post: Position, steps: int, size: int) -> bool {
    if pre.turn + steps >= size {
        post.lap == pre.lap + 1 && post.turn == 0
    } else {
        post.lap == pre.lap && post.turn == pre.turn + steps
    }
}

/// The log keeps its bucket count, every bucket other than `t` is unchanged,
/// and bucket `t` keeps its old entries and gains exactly `added` new ones.
pub open spec fn bucket_grown(pre: Racer, post: Racer, t: int, added: int) -> bool {
    &&& 0 <= t < pre.log@.len()
    &&& post.log@.len() == pre.log@.len()
    &&& forall|i: int|
        0 <= i < pre.log@.len() && i != t ==> #[trigger] post.log@[i] == pre.log@[i]
    &&& post.log@[t]@.len() == pre.log@[t]@.len() + added
    &&& forall|j: int|
        0 <= j < pre.log@[t]@.len() ==> #[trigger] post.log@[t]@[j] == pre.log@[t]@[j]
}

/// The event string recorded by `speed_up`.
pub open spec fn speed_up_msg(name: Seq<char>, new_speed: int) -> Seq<char> {
    name + " speeds up to '"@ + speed_label(new_speed) + "' speed!"@
}

/// The event string recorded by `slow_down`.
pub open spec fn slow_down_msg(name: Seq<char>, new_speed: int) -> Seq<char> {
    name + " slows down to '"@ + speed_label(new_speed) + "' speed!"@
}

/// The event string recorded for a successfully made turn of a given
/// ranking.
pub open spec fn made_turn_msg(name: Seq<char>, ranking: int) -> Seq<char> {
    name + " makes the "@ + turn_label(ranking) + " turn!"@
}

/// The event string recorded for a failed turn of a given ranking.
pub open spec fn failed_turn_msg(name: Seq<char>, ranking: int) -> Seq<char> {
    name + " fails the "@ + turn_label(ranking) + " turn!"@
}

/// What `get_log` does: polled before the current bucket exists, it returns
/// one empty string and changes nothing; otherwise it returns the entries of
/// the current bucket, advances the turn index by one, and opens a fresh
/// empty bucket.
pub open spec fn polled(pre: Racer, post: Racer, r: Seq<String>) -> bool {
    if pre.log@.len() <= pre.turn {
        &&& post == pre
        &&& r.len() == 1
        &&& r[0]@ == Seq::<char>::empty()
    } else {
        &&& post.turn == pre.turn + 1
        &&& post.log@.len() == pre.log@.len() + 1
        &&& forall|i: int| 0 <= i < pre.log@.len() ==> #[trigger] post.log@[i] == pre.log@[i]
        &&& post.log@.last()@.len() == 0
        &&& r == pre.log@[pre.turn as int]@
        &&& post.name == pre.name
        &&& post.hp == pre.hp
        &&& post.position == pre.position
        &&& post.speed == pre.speed
        &&& post.alive == pre.alive
        &&& post.ai == pre.ai
    }
}

/// Copy the event strings of one log bucket.
fn clone_entries(v: &Vec<String>) -> (r: Vec<String>)
    ensures
        r@ == v@,
{
    let mut r: Vec<String> = Vec::new();
    let mut i: usize = 0;
    while i < v.len()
        invariant
            i <= v@.len(),
            r@.len() == i,
            forall|j: int| 0 <= j < i ==> #[trigger] r@[j] == v@[j],
        decreases v@.len() - i,
    {
        r.push(v[i].clone());
        i += 1;
    }
    proof {
        assert(r@ =~= v@);
    }
    r
}

/// Append one event string to the log bucket for turn `t`.
fn push_entry(log: &mut Vec<Vec<String>>, t: usize, msg: String)
    requires
        t < old(log)@.len(),
    ensures
        final(log)@.len() == old(log)@.len(),
        forall|i: int|
            0 <= i < old(log)@.len() && i != t ==> #[trigger] final(log)@[i] == old(log)@[i],
        final(log)@[t as int]@ == old(log)@[t as int]@.push(msg),
{
    let mut bucket = clone_entries(&log[t]);
    bucket.push(msg);
    log.set(t, bucket);
}

impl Racer {
    /// The structural invariant every racer keeps: speed clamped to
    /// `[-2, 3]`, HP never negative, elimination floors HP at zero, and one
    /// log bucket for every past turn plus the current one.
    pub open spec fn inv(self) -> bool {
        &&& -2 <= self.speed <= 3
        &&& self.hp >= 0
        &&& (!self.alive ==> self.hp == 0)
        &&& self.log@.len() == self.turn + 1
    }

    /// The success threshold for the racer's next turn: speed plus the
    /// hardest upcoming ranking within the move range.
    pub open spec fn difficulty_of(self, s: Seq<isize>) -> int {
        self.speed + window_max(s, self.position.turn as int, move_range_spec(self.speed as int))
    }

    /// The racer stands on the circuit and its lookahead window wraps past
    /// the end at most once.
    pub open spec fn window_fits(self, s: Seq<isize>) -> bool {
        &&& self.position.turn < s.len()
        &&& self.position.turn + move_range_spec(self.speed as int) <= 2 * s.len()
    }

    /// Create a new Racer with a given name.
    ///
    /// Place a new racer at the start of the circuit at the slowest speed,
    /// with no HP yet and one empty log bucket.
    pub fn new(name: String, ai: AI) -> (r: Racer)
        ensures
            r.name == name,
            r.hp == 0,
            r.position.lap == 0,
            r.position.turn == 0,
            r.speed == -2,
            r.alive,
            r.ai == ai,
            r.turn == 0,
            r.log@.len() == 1,
            r.log@[0]@.len() == 0,
            r.inv(),
    {
        let mut log: Vec<Vec<String>> = Vec::new();
        log.push(Vec::new());
        Racer {
            name,
            hp: 0,
            position: Position { lap: 0, turn: 0 },
            speed: -2,
            alive: true,
            ai,
            turn: 0,
            log,
        }
    }

    /// Return the first letter of the racer's name (the whole name if it is
    /// empty).
    pub fn shortname(&self) -> (r: String)
        ensures
            self.name@.len() == 0 ==> r@ == Seq::<char>::empty(),
            self.name@.len() > 0 ==> r@ == self.name@.subrange(0, 1),
    {
        let n = self.name.as_str().unicode_len();
        if n == 0 {
            String::new()
        } else {
            let first = self.name.as_str().substring_char(0, 1);
            String::from_str(first)
        }
    }

    /// Set HP to the default value: two more than the highest turn ranking
    /// of the circuit. No failure mode; callable at any time (race start and
    /// pitstops).
    pub fn reset_hp(&mut self, turns: &Vec<isize>)
        requires
            circuit_ok(turns@),
        ensures
            final(self).hp == seq_max(turns@) + 2,
            final(self).name == old(self).name,
            final(self).position == old(self).position,
            final(self).speed == old(self).speed,
            final(self).alive == old(self).alive,
            final(self).ai == old(self).ai,
            final(self).turn == old(self).turn,
            final(self).log == old(self).log,
            old(self).inv() && old(self).alive ==> final(self).inv(),
    {
        let m = max_ranking(turns);
        self.hp = m + 2;
    }

    /// Increment speed within the interval `[-2, 3]`, logging the new speed
    /// label; a no-op at the upper bound.
    pub fn speed_up(&mut self)
        requires
            old(self).turn < old(self).log@.len(),
        ensures
            final(self).speed == speed_step_up(old(self).speed as int),
            final(self).name == old(self).name,
            final(self).hp == old(self).hp,
            final(self).position == old(self).position,
            final(self).alive == old(self).alive,
            final(self).ai == old(self).ai,
            final(self).turn == old(self).turn,
            old(self).speed < 3 ==> bucket_grown(*old(self), *final(self), old(self).turn as int, 1),
            old(self).speed < 3 ==> final(self).log@[old(self).turn as int]@.last()@
                == speed_up_msg(old(self).name@, old(self).speed + 1),
            old(self).speed >= 3 ==> final(self).log == old(self).log,
            old(self).inv() ==> final(self).inv(),
    {
        if self.speed < 3 {
            let new_speed = self.speed + 1;
            let label = speed_adj(&new_speed);
            let msg = String::from_str(self.name.as_str()).concat(" speeds up to '").concat(
                label,
            ).concat("' speed!");
            let t = self.turn;
            push_entry(&mut self.log, t, msg);
            self.speed = new_speed;
        }
    }

    /// Decrement speed within the interval `[-2, 3]`, logging the new speed
    /// label; a no-op at the lower bound.
    pub fn slow_down(&mut self)
        requires
            old(self).turn < old(self).log@.len(),
        ensures
            final(self).speed == speed_step_down(old(self).speed as int),
            final(self).name == old(self).name,
            final(self).hp == old(self).hp,
            final(self).position == old(self).position,
            final(self).alive == old(self).alive,
            final(self).ai == old(self).ai,
            final(self).turn == old(self).turn,
            old(self).speed > -2 ==> bucket_grown(*old(self), *final(self), old(self).turn as int, 1),
            old(self).speed > -2 ==> final(self).log@[old(self).turn as int]@.last()@
                == slow_down_msg(old(self).name@, old(self).speed - 1),
            old(self).speed <= -2 ==> final(self).log == old(self).log,
            old(self).inv() ==> final(self).inv(),
    {
        if self.speed > -2 {
            let new_speed = self.speed - 1;
            let label = speed_adj(&new_speed);
            let msg = String::from_str(self.name.as_str()).concat(" slows down to '").concat(
                label,
            ).concat("' speed!");
            let t = self.turn;
            push_entry(&mut self.log, t, msg);
            self.speed = new_speed;
        }
    }

    /// Add the speed modifier to the hardest upcoming turn ranking in the
    /// circuit: the success threshold the die roll must meet or exceed.
    pub fn eval_difficulty(&self, turns: &Vec<isize>) -> (r: isize)
        requires
            circuit_ok(turns@),
            self.window_fits(turns@),
            -2 <= self.speed <= 3,
            turns@.len() + 3 <= usize::MAX,
        ensures
            r == self.difficulty_of(turns@),
            -1 <= r <= 9,
    {
        self.speed + self.next_turn(turns)
    }

    /// Reduce the racer's HP by `value`, logging the damage. If HP is driven
    /// to zero or below, log the elimination, clear `alive`, and floor HP at
    /// zero: a terminal state for the racer.
    pub fn take_damage(&mut self, value: &isize)
        requires
            old(self).turn < old(self).log@.len(),
            isize::MIN <= old(self).hp - *value <= isize::MAX,
        ensures
            final(self).name == old(self).name,
            final(self).position == old(self).position,
            final(self).speed == old(self).speed,
            final(self).ai == old(self).ai,
            final(self).turn == old(self).turn,
            old(self).hp - *value <= 0 ==> {
                &&& final(self).hp == 0
                &&& !final(self).alive
                &&& bucket_grown(*old(self), *final(self), old(self).turn as int, 2)
            },
            old(self).hp - *value > 0 ==> {
                &&& final(self).hp == old(self).hp - *value
                &&& final(self).alive == old(self).alive
                &&& bucket_grown(*old(self), *final(self), old(self).turn as int, 1)
            },
            old(self).inv() && *value >= 0 ==> final(self).inv(),
    {
        self.hp = self.hp - *value;
        let plural = if *value == 1 {
            ""
        } else {
            "s"
        };
        let shown = value.to_string();
        let msg = String::from_str(self.name.as_str()).concat("'s car takes ").concat(
            shown.as_str(),
        ).concat(" point").concat(plural).concat(" of damage!");
        let t = self.turn;
        push_entry(&mut self.log, t, msg);
        // Spin out!
        if self.hp <= 0 {
            let msg2 = String::from_str(self.name.as_str()).concat(
                "'s car is totalled! ",
            ).concat(self.name.as_str()).concat(" is out of the race!");
            push_entry(&mut self.log, t, msg2);
            self.alive = false;
            self.hp = 0;
        }
    }

    /// Return the accumulated event strings for the current turn bucket,
    /// advance the turn index, and open a fresh bucket. Polled before the
    /// bucket exists, return a single empty string and change nothing: a
    /// defensive default for an orchestration layer that polls more often
    /// than the racer acts.
    pub fn get_log(&mut self) -> (r: Vec<String>)
        requires
            old(self).turn < usize::MAX,
        ensures
            polled(*old(self), *final(self), r@),
    {
        if self.log.len() <= self.turn {
            let mut r: Vec<String> = Vec::new();
            r.push(String::new());
            r
        } else {
            self.turn = self.turn + 1;
            self.log.push(Vec::new());
            clone_entries(&self.log[self.turn - 1])
        }
    }

    /// Advance along the circuit by `steps` positions on a lap of length
    /// `size`. On reaching or passing the lap end, enter the next lap, log
    /// the crossing, and reset the turn index to the start of the lap.
    pub fn move_steps(&mut self, steps: usize, size: usize)
        requires
            old(self).turn < old(self).log@.len(),
            old(self).position.turn + steps <= usize::MAX,
            old(self).position.lap + 2 <= usize::MAX,
        ensures
            final(self).name == old(self).name,
            final(self).hp == old(self).hp,
            final(self).speed == old(self).speed,
            final(self).alive == old(self).alive,
            final(self).ai == old(self).ai,
            final(self).turn == old(self).turn,
            advanced(old(self).position, final(self).position, steps as int, size as int),
            old(self).position.turn + steps >= size ==> bucket_grown(
                *old(self),
                *final(self),
                old(self).turn as int,
                1,
            ),
            old(self).position.turn + steps < size ==> final(self).log == old(self).log,
    {
        self.position.turn = self.position.turn + steps;
        // Pass lap end
        if self.position.turn >= size {
            self.position.lap = self.position.lap + 1;
            let entering = self.position.lap + 1;
            let shown = entering.to_string();
            let msg = String::from_str(self.name.as_str()).concat(
                " crosses the start/finish line, entering lap ",
            ).concat(shown.as_str()).concat("!");
            let t = self.turn;
            push_entry(&mut self.log, t, msg);
            self.position.turn = 0;
        }
    }

    /// Return the number of steps the racer will take at the current speed.
    ///
    /// If the speed ranking is:
    /// - negative, 1 step
    /// - 0, 2 steps
    /// - positive, 3 steps
    pub fn move_range(&self) -> (r: isize)
        ensures
            r == move_range_spec(self.speed as int),
            self.speed < 0 ==> r == 1,
            self.speed == 0 ==> r == 2,
            self.speed > 0 ==> r == 3,
    {
        if self.speed < 0 {
            1
        } else if self.speed == 0 {
            2
        } else {
            3
        }
    }

    /// Return the next turn ranking: the highest ranking within the racer's
    /// move range, looking ahead circularly from the current position.
    pub fn next_turn(&self, turns: &Vec<isize>) -> (r: isize)
        requires
            circuit_ok(turns@),
            self.window_fits(turns@),
            turns@.len() + 3 <= usize::MAX,
        ensures
            r == window_max(turns@, self.position.turn as int, move_range_spec(self.speed as int)),
            1 <= r <= 6,
    {
        let k = self.move_range();
        let ku = k as usize;
        let start = self.position.turn;
        let mut m = turns[start];
        let mut i: usize = 1;
        while i < ku
            invariant
                circuit_ok(turns@),
                self.window_fits(turns@),
                turns@.len() + 3 <= usize::MAX,
                ku == move_range_spec(self.speed as int),
                start == self.position.turn,
                1 <= i <= ku,
                m == window_max(turns@, start as int, i as int),
            decreases ku - i,
        {
            let item = start + i;
            let v = if item < turns.len() {
                turns[item]
            } else {
                turns[item - turns.len()]
            };
            proof {
                assert(v == ranking_at(turns@, start + i));
                lemma_window_max_snoc(turns@, start as int, i as int);
            }
            if v > m {
                m = v;
            }
            i = i + 1;
        }
        proof {
            lemma_window_max_in_range(
                turns@,
                start as int,
                move_range_spec(self.speed as int),
            );
        }
        m
    }

    /// Attempt to make the next turn with a given die roll: the turn
    /// resolver with the randomness passed in explicitly, so deterministic
    /// rolls can be supplied. The contract pins the exact outcome for each
    /// roll: success moves the racer a full move range; failure logs the
    /// miss, costs the shortfall in HP, and moves one step fewer — or, if
    /// the damage eliminates the racer, does not move it at all.
    pub fn resolve_turn(&mut self, turns: &Vec<isize>, roll: usize)
        requires
            old(self).inv(),
            circuit_ok(turns@),
            old(self).window_fits(turns@),
            roll < 7,
            turns@.len() + 3 <= usize::MAX,
            old(self).position.lap + 2 <= usize::MAX,
        ensures
            turn_outcome(*old(self), *final(self), turns@, roll as int),
            final(self).inv(),
            final(self).position.turn < turns@.len(),
            old(self).position.lap <= final(self).position.lap <= old(self).position.lap + 1,
    {
        // The value needed to succeed
        let need = self.eval_difficulty(turns);
        // The racer's roll
        let diff = roll as isize - need;
        let step = self.move_range() as usize;

        if diff >= 0 {
            // Success!
            let nt = self.next_turn(turns);
            let adj = turn_adj(&nt);
            let msg = String::from_str(self.name.as_str()).concat(" makes the ").concat(
                adj,
            ).concat(" turn!");
            let t = self.turn;
            push_entry(&mut self.log, t, msg);
            self.move_steps(step, turns.len());
        } else {
            // Fail!
            let nt = self.next_turn(turns);
            let adj = turn_adj(&nt);
            let msg = String::from_str(self.name.as_str()).concat(" fails the ").concat(
                adj,
            ).concat(" turn!");
            let t = self.turn;
            push_entry(&mut self.log, t, msg);
            // Take damage
            let dmg = 0 - diff;
            self.take_damage(&dmg);
            // Move one less step
            if self.alive {
                self.move_steps(step - 1, turns.len());
            }
        }
    }

    /// Attempt to make the next turn, rolling the die.
    ///
    /// The roll is random, so the contract promises exactly that the racer
    /// took the outcome of some die value: every caller must cope with every
    /// outcome.
    pub fn make_turn(&mut self, turns: &Vec<isize>)
        requires
            old(self).inv(),
            circuit_ok(turns@),
            old(self).window_fits(turns@),
            turns@.len() + 3 <= usize::MAX,
            old(self).position.lap + 2 <= usize::MAX,
        ensures
            final(self).inv(),
            final(self).name == old(self).name,
            final(self).speed == old(self).speed,
            final(self).ai == old(self).ai,
            final(self).turn == old(self).turn,
            final(self).hp <= old(self).hp,
            final(self).position.turn < turns@.len(),
            old(self).position.lap <= final(self).position.lap <= old(self).position.lap + 1,
            exists|r: int|
                0 <= r < 7 && turn_outcome(*old(self), *final(self), turns@, r),
    {
        let r = roll();
        self.resolve_turn(turns, r);
        proof {
            let ri = r as int;
            assert(0 <= ri < 7 && turn_outcome(*old(self), *self, turns@, ri));
        }
    }
}

/// The exact state transition of one attempted turn for a given die roll.
pub open spec fn turn_outcome(pre: Racer, post: Racer, s: Seq<isize>, roll: int) -> bool {
    let step = move_range_spec(pre.speed as int);
    let need = pre.difficulty_of(s);
    let ranking = window_max(s, pre.position.turn as int, step) as int;
    let t = pre.turn as int;
    let entries = pre.log@[t]@.len() as int;
    &&& post.name == pre.name
    &&& post.speed == pre.speed
    &&& post.ai == pre.ai
    &&& post.turn == pre.turn
    &&& if roll >= need {
        // Success: the made turn is logged and the racer advances a full
        // move range, crossing the lap boundary where it overflows.
        &&& post.hp == pre.hp
        &&& post.alive == pre.alive
        &&& advanced(pre.position, post.position, step, s.len() as int)
        &&& bucket_grown(
            pre,
            post,
            t,
            if pre.position.turn + step >= s.len() {
                2
            } else {
                1
            },
        )
        &&& post.log@[t]@[entries]@ == made_turn_msg(pre.name@, ranking)
    } else if pre.hp - (need - roll) > 0 {
        // Failure survived: the miss and the damage are logged, the
        // shortfall is paid in HP, and the racer advances one step fewer.
        &&& post.hp == pre.hp - (need - roll)
        &&& post.alive == pre.alive
        &&& advanced(pre.position, post.position, step - 1, s.len() as int)
        &&& bucket_grown(
            pre,
            post,
            t,
            if pre.position.turn + step - 1 >= s.len() {
                3
            } else {
                2
            },
        )
        &&& post.log@[t]@[entries]@ == failed_turn_msg(pre.name@, ranking)
    } else {
        // Failure eliminated: HP is floored at zero, the racer is out of
        // the race and does not move.
        &&& post.hp == 0
        &&& !post.alive
        &&& post.position == pre.position
        &&& bucket_grown(pre, post, t, 3)
        &&& post.log@[t]@[entries]@ == failed_turn_msg(pre.name@, ranking)
    }
}

/// The highest turn ranking anywhere in the circuit.
fn max_ranking(turns: &Vec<isize>) -> (r: isize)
    requires
        circuit_ok(turns@),
    ensures
        r == seq_max(turns@),
        1 <= r <= 6,
{
    let mut m = turns[0];
    let mut i: usize = 1;
    proof {
        assert(turns@.subrange(0, 1) =~= seq![turns@[0]]);
    }
    while i < turns.len()
        invariant
            circuit_ok(turns@),
            1 <= i <= turns@.len(),
            m == seq_max(turns@.subrange(0, i as int)),
        decreases turns@.len() - i,
    {
        proof {
            assert(turns@.subrange(0, i + 1).drop_last() =~= turns@.subrange(0, i as int));
            assert(turns@.subrange(0, i + 1).last() == turns@[i as int]);
        }
        if turns[i] > m {
            m = turns[i];
        }
        i = i + 1;
    }
    proof {
        assert(turns@.subrange(0, turns@.len() as int) =~= turns@);
        crate::circuit::lemma_seq_max_is_max(turns@);
    }
    m
}

} // verus!
