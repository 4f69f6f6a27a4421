//! The round lifecycle: interlude, round start, round, round end, repeated
//! until every player has defended once.
use vstd::prelude::*;
use vstd::string::*;

verus! {

/// Players in a match; each defends in one round and attacks in the others.
pub const NUM_PLAYERS: usize = 2;
/// Rounds in a match.
pub const NUM_ROUNDS: u32 = 2;
/// Frames that an interlude lasts.
pub const INTERLUDE_LENGTH: u32 = 60;
/// Frames that a round lasts.
pub const ROUND_LENGTH: u32 = 6000;

/// The phase of the match; exactly one is active in a frame.
#[derive(Clone, Copy, Debug, PartialEq, Eq, Structural)]
pub enum RoundState {
    InterludeStart,
    Interlude,
    InterludeEnd,
    RoundStart,
    Round,
    RoundEnd,
}

impl Default for RoundState {
    fn default() -> (r: Self)
        ensures
            r == RoundState::InterludeStart,
    {
        RoundState::InterludeStart
    }
}

/// Frames spent in the current phase.
#[derive(Clone, Copy, Debug, PartialEq, Eq, Structural, Default)]
pub struct FrameCount {
    pub frame: u32,
}

/// What persists across rounds: the current round, and for each finished
/// round the splats its attackers left (round, remaining splats).
#[derive(Clone, Debug, Default)]
pub struct RoundData {
    pub cur_round: u32,
    pub results: Vec<(u32, usize)>,
}

/// The index of the result that wins: fewest remaining splats, the earliest
/// among equals.
pub open spec fn is_winning_index(results: Seq<(u32, usize)>, i: int) -> bool {
    &&& 0 <= i < results.len()
    &&& forall|j: int| 0 <= j < results.len() ==> results[i].1 <= #[trigger] results[j].1
    &&& forall|j: int| 0 <= j < i ==> results[i].1 < #[trigger] results[j].1
}

impl RoundData {
    /// The round whose attackers left the fewest splats (the earliest such
    /// result); `None` before any result is recorded.
    pub fn winner(&self) -> (r: Option<u32>)
        ensures
            r is None <==> self.results@.len() == 0,
            r matches Some(w) ==> exists|i: int|
                is_winning_index(self.results@, i) && #[trigger] self.results@[i].0 == w,
    {
        if self.results.len() == 0 {
            return None;
        }
        let mut best: usize = 0;
        let mut i: usize = 1;
        while i < self.results.len()
            invariant
                1 <= i <= self.results@.len(),
                best < i,
                forall|j: int| 0 <= j < i ==> self.results@[best as int].1 <= #[trigger] self.results@[j].1,
                forall|j: int| 0 <= j < best ==> self.results@[best as int].1 < #[trigger] self.results@[j].1,
            decreases self.results@.len() - i,
        {
            if self.results[i].1 < self.results[best].1 {
                best = i;
            }
            i += 1;
        }
        proof {
            assert(is_winning_index(self.results@, best as int));
        }
        Some(self.results[best].0)
    }
}

/// The character of decimal digit `d`.
pub open spec fn digit_char(d: nat) -> char {
    if d == 0 { '0' } else if d == 1 { '1' } else if d == 2 { '2' } else if d == 3 { '3' }
    else if d == 4 { '4' } else if d == 5 { '5' } else if d == 6 { '6' } else if d == 7 { '7' }
    else if d == 8 { '8' } else { '9' }
}

/// The decimal digits of `n`, most significant first, without leading zeros.
pub open spec fn decimal(n: nat) -> Seq<char>
    decreases n,
{
    if n < 10 {
        seq![digit_char(n)]
    } else {
        decimal(n / 10).push(digit_char(n % 10))
    }
}

/// Relies on `ToString` through the `Display` of `u64`: its decimal digits,
/// with no sign, padding or separators.
#[verifier::external_body]
fn decimal_string(n: u64) -> (r: String)
    ensures
        r@ == decimal(n as nat),
{
    n.to_string()
}

/// One line of the summary per recorded round: its janitor (counted from 1)
/// and the splats left.
pub open spec fn result_lines(results: Seq<(u32, usize)>) -> Seq<char>
    decreases results.len(),
{
    if results.len() == 0 {
        Seq::empty()
    } else {
        result_lines(results.drop_last()) + "Janitor "@ + decimal((results.last().0 + 1) as nat) + ": "@
            + decimal(results.last().1 as nat) + " splats left\n"@
    }
}

impl RoundData {
    /// The match summary: one line per recorded round, then the winner.
    pub fn to_string(&self) -> (r: String)
        requires
            self.results@.len() > 0,
        ensures
            exists|i: int|
                is_winning_index(self.results@, i) && r@ == result_lines(self.results@)
                    + "\nJanitor "@ + decimal((#[trigger] self.results@[i].0 + 1) as nat) + " wins!"@,
    {
        let mut out = String::new();
        let mut i: usize = 0;
        while i < self.results.len()
            invariant
                i <= self.results@.len(),
                out@ == result_lines(self.results@.take(i as int)),
            decreases self.results@.len() - i,
        {
            let (k, v) = self.results[i];
            let round_text = decimal_string(k as u64 + 1);
            let splat_text = decimal_string(v as u64);
            proof {
                let t = self.results@.take(i + 1);
                assert(t.drop_last() =~= self.results@.take(i as int));
                assert(t.last() == (k, v));
            }
            out.append("Janitor ");
            out.append(round_text.as_str());
            out.append(": ");
            out.append(splat_text.as_str());
            out.append(" splats left\n");
            i += 1;
        }
        proof {
            assert(self.results@.take(self.results@.len() as int) =~= self.results@);
        }
        let winner = self.winner();
        match winner {
            Some(w) => {
                let winner_text = decimal_string(w as u64 + 1);
                out.append("\nJanitor ");
                out.append(winner_text.as_str());
                out.append(" wins!");
            },
            None => {},
        }
        out
    }
}

/// What a round end leads to.
#[derive(Clone, Copy, Debug, PartialEq, Eq, Structural)]
pub enum RoundEndOutcome {
    /// Another round follows, after an interlude.
    NextRound,
    /// Every round was played; the match is over.
    MatchOver,
}

pub fn on_interlude_start(state: RoundState) -> (r: bool)
    ensures
        r == (state == RoundState::InterludeStart),
{
    state == RoundState::InterludeStart
}

pub fn on_interlude(state: RoundState) -> (r: bool)
    ensures
        r == (state == RoundState::Interlude),
{
    state == RoundState::Interlude
}

pub fn on_interlude_end(state: RoundState) -> (r: bool)
    ensures
        r == (state == RoundState::InterludeEnd),
{
    state == RoundState::InterludeEnd
}

pub fn on_round_start(state: RoundState) -> (r: bool)
    ensures
        r == (state == RoundState::RoundStart),
{
    state == RoundState::RoundStart
}

pub fn on_round(state: RoundState) -> (r: bool)
    ensures
        r == (state == RoundState::Round),
{
    state == RoundState::Round
}

pub fn on_round_end(state: RoundState) -> (r: bool)
    ensures
        r == (state == RoundState::RoundEnd),
{
    state == RoundState::RoundEnd
}

/// First tick of an interlude.
pub fn setup_interlude(state: &mut RoundState)
    ensures
        *final(state) == RoundState::Interlude,
{
    *state = RoundState::Interlude;
}

/// Counts an interlude frame; the interlude ends once it has lasted its length.
pub fn run_interlude(frame_count: &mut FrameCount, state: &mut RoundState)
    requires
        old(frame_count).frame < u32::MAX,
    ensures
        final(frame_count).frame == old(frame_count).frame + 1,
        *final(state) == if final(frame_count).frame >= INTERLUDE_LENGTH {
            RoundState::InterludeEnd
        } else {
            *old(state)
        },
{
    frame_count.frame = frame_count.frame + 1;
    if frame_count.frame >= INTERLUDE_LENGTH {
        *state = RoundState::InterludeEnd;
    }
}

/// Last tick of an interlude: the frame counter restarts and the round starts.
pub fn cleanup_interlude(frame_count: &mut FrameCount, state: &mut RoundState)
    ensures
        final(frame_count).frame == 0,
        *final(state) == RoundState::RoundStart,
{
    frame_count.frame = 0;
    *state = RoundState::RoundStart;
}

/// The tick on which the round's bodies are spawned; play begins.
pub fn start_round(frame_count: &mut FrameCount, state: &mut RoundState)
    ensures
        final(frame_count).frame == 0,
        *final(state) == RoundState::Round,
{
    frame_count.frame = 0;
    *state = RoundState::Round;
}

/// Counts a round frame; the round ends once it has lasted its length.
pub fn check_round_end(frame_count: &mut FrameCount, round_state: &mut RoundState)
    requires
        old(frame_count).frame < u32::MAX,
    ensures
        final(frame_count).frame == old(frame_count).frame + 1,
        *final(round_state) == if final(frame_count).frame >= ROUND_LENGTH {
            RoundState::RoundEnd
        } else {
            *old(round_state)
        },
{
    frame_count.frame = frame_count.frame + 1;
    if frame_count.frame >= ROUND_LENGTH {
        *round_state = RoundState::RoundEnd;
    }
}

/// Ends a round: the counter restarts and the round number goes up by one.
/// When every round has been played the match is over and the phase stays;
/// otherwise the next interlude begins.
pub fn cleanup_round(
    frame_count: &mut FrameCount,
    round_state: &mut RoundState,
    round_data: &mut RoundData,
) -> (r: RoundEndOutcome)
    requires
        old(round_data).cur_round < u32::MAX,
    ensures
        final(frame_count).frame == 0,
        final(round_data).cur_round == old(round_data).cur_round + 1,
        final(round_data).results@ == old(round_data).results@,
        r == if final(round_data).cur_round >= NUM_ROUNDS {
            RoundEndOutcome::MatchOver
        } else {
            RoundEndOutcome::NextRound
        },
        *final(round_state) == if r == RoundEndOutcome::MatchOver {
            *old(round_state)
        } else {
            RoundState::InterludeStart
        },
{
    frame_count.frame = 0;
    round_data.cur_round = round_data.cur_round + 1;
    if round_data.cur_round >= NUM_ROUNDS {
        RoundEndOutcome::MatchOver
    } else {
        *round_state = RoundState::InterludeStart;
        RoundEndOutcome::NextRound
    }
}

/// Whole seconds left in a round at frame `frame`, sixty frames a second.
pub fn remaining_secs(frame: u32) -> (r: u32)
    requires
        frame <= ROUND_LENGTH,
    ensures
        r == (ROUND_LENGTH - frame) / 60,
{
    (ROUND_LENGTH - frame) / 60
}

/// The player who defends in round `cur_round`.
pub fn defender_handle(cur_round: u32) -> (r: usize)
    ensures
        r == cur_round,
{
    cur_round as usize
}

/// The players who attack in round `cur_round`: every player but its
/// defender, in increasing order.
pub fn attacker_handles(cur_round: u32) -> (r: Vec<usize>)
    ensures
        forall|h: usize| #[trigger] r@.contains(h) <==> (h < NUM_PLAYERS && h != cur_round),
        forall|i: int, j: int| 0 <= i < j < r@.len() ==> r@[i] < r@[j],
{
    let mut r: Vec<usize> = Vec::new();
    let mut handle: usize = 0;
    while handle < NUM_PLAYERS
        invariant
            handle <= NUM_PLAYERS,
            forall|h: usize| #[trigger] r@.contains(h) <==> (h < handle && h != cur_round),
            forall|i: int, j: int| 0 <= i < j < r@.len() ==> r@[i] < r@[j],
            forall|i: int| 0 <= i < r@.len() ==> r@[i] < handle,
        decreases NUM_PLAYERS - handle,
    {
        if handle != cur_round as usize {
            proof {
                assert forall|h: usize| #[trigger] r@.push(handle).contains(h) <==> (h < handle + 1
                    && h != cur_round) by {
                    if r@.push(handle).contains(h) && h != handle {
                        let k = choose|k: int| 0 <= k < r@.push(handle).len() && r@.push(handle)[k] == h;
                        assert(r@.contains(h) || r@.push(handle)[k] == handle);
                    }
                    if h < handle && h != cur_round {
                        assert(r@.contains(h));
                        let k = choose|k: int| 0 <= k < r@.len() && r@[k] == h;
                        assert(r@.push(handle)[k] == h);
                    }
                    if h == handle {
                        assert(r@.push(handle)[r@.len() as int] == h);
                    }
                }
            }
            r.push(handle);
        } else {
            proof {
                assert forall|h: usize| #[trigger] r@.contains(h) <==> (h < handle + 1
                    && h != cur_round) by {
                    if r@.contains(h) {
                        let k = choose|k: int| 0 <= k < r@.len() && r@[k] == h;
                    }
                }
            }
        }
        handle += 1;
    }
    r
}

} // verus!
