//! The round prompt scheduler: composes the canonical prompt list for a
//! round and applies a bounded random reordering that keeps every causal
//! dependency between prompts intact.

use vstd::prelude::*;
use vstd::multiset::Multiset;

use rand::rngs::StdRng;

use crate::domain::Continent;
use crate::domain::PanicLevel;
use crate::domain::all_continents;
use crate::domain::spec_all_continents;
use crate::domain::spec_base_income;
use crate::prompt::TimedPhasePrompt;
use crate::prompt::precedence_respected;
use crate::prompt::prompt_wf;
use crate::prompt::spec_must_come_after;
use crate::randomness::random_continent;
use crate::randomness::shuffle_continents;
use crate::randomness::uniform_in;
use crate::randomness::weighted_pick3;

verus! {

broadcast use vstd::seq_lib::group_to_multiset_ensures, vstd::multiset::group_multiset_axioms;

/// Number of `RollUFOLocation` prompts a round requires: the first and
/// second rounds only roll two dice, later rounds roll all three.
pub open spec fn spec_num_rolls(round: u32) -> int {
    if round < 3 {
        2
    } else {
        3
    }
}

/// Number of threshold-gated bonus prompts of a round.
pub open spec fn spec_num_bonus(round: u32) -> int {
    (if round >= 2 { 1int } else { 0int }) + (if round >= 3 { 1int } else { 0int })
        + (if round >= 4 { 1int } else { 0int }) + (if round >= 5 { 1int } else { 0int })
        + (if round >= 6 { 1int } else { 0int }) + (if round >= 7 { 1int } else { 0int })
        + (if round >= 8 { 1int } else { 0int })
}

/// Kind of the `j`-th bonus prompt. The thresholds are cumulative in the
/// round number, so for any round the bonus prompts form a prefix of the
/// same fixed kind sequence.
pub open spec fn spec_bonus_shape(round: u32, j: int, p: TimedPhasePrompt) -> bool {
    if j == 0 || j == 5 {
        p matches TimedPhasePrompt::AddUFOsToLocation(_, count) && count == 2
    } else if j == 1 || j == 4 || j == 6 {
        p matches TimedPhasePrompt::SwapUFOLocations(a, b) && a != b
    } else if j == 2 || j == 3 {
        p matches TimedPhasePrompt::AddUFOsToLocation(_, count) && count == 1
    } else {
        false
    }
}

/// Length of the canonical prompt list, fully determined by the round
/// number and the alien-base flag.
pub open spec fn spec_canonical_len(round: u32, base_discovered: bool) -> int {
    1 + spec_num_rolls(round) + spec_num_bonus(round) + (if base_discovered { 1int } else { 0int })
        + 4
}

/// The canonical, not-yet-shuffled prompt list of a round: one income
/// prompt whose amount is within one of the base income, the round's rolls
/// over pairwise distinct continents, the threshold-gated bonus prompts,
/// the alien-base prompt when the flag is set, one interceptor assignment
/// per continent in canonical order, and one research prompt.
pub open spec fn is_canonical(
    s: Seq<TimedPhasePrompt>,
    round: u32,
    panic: PanicLevel,
    base_discovered: bool,
) -> bool {
    let nr = spec_num_rolls(round);
    let nb = spec_num_bonus(round);
    &&& s.len() == spec_canonical_len(round, base_discovered)
    &&& (s[0] matches TimedPhasePrompt::TakeIncome(amount) && spec_base_income(panic) - 1
        <= amount <= spec_base_income(panic) + 1)
    &&& forall|i: int| 1 <= i < 1 + nr ==> #[trigger] s[i] is RollUFOLocation
    &&& forall|i: int, j: int| 1 <= i < j < 1 + nr ==> s[i] != s[j]
    &&& forall|j: int| 0 <= j < nb ==> spec_bonus_shape(round, j, #[trigger] s[1 + nr + j])
    &&& (base_discovered ==> s[1 + nr + nb] is AlienBaseDiscovered)
    &&& s[s.len() - 4] == TimedPhasePrompt::AssignInterceptors(Continent::America)
    &&& s[s.len() - 3] == TimedPhasePrompt::AssignInterceptors(Continent::Africa)
    &&& s[s.len() - 2] == TimedPhasePrompt::AssignInterceptors(Continent::Eurasia)
    &&& s[s.len() - 1] == TimedPhasePrompt::ChooseResearch
}

/// Number of perturbations applied by the shuffle engine, a step function
/// of the leftover-UFO count.
pub open spec fn spec_num_shifts(leftover_ufos: u32) -> int {
    if leftover_ufos < 1 {
        0
    } else if leftover_ufos < 2 {
        3
    } else if leftover_ufos < 4 {
        5
    } else if leftover_ufos < 6 {
        7
    } else if leftover_ufos < 9 {
        9
    } else if leftover_ufos < 13 {
        12
    } else {
        15
    }
}

/// Number of remove-and-reinsert perturbations for a leftover-UFO count.
pub fn num_shifts_for_leftover(leftover_ufos: u32) -> (n: u32)
    ensures
        n == spec_num_shifts(leftover_ufos),
{
    if leftover_ufos < 1 {
        0
    } else if leftover_ufos < 2 {
        3
    } else if leftover_ufos < 4 {
        5
    } else if leftover_ufos < 6 {
        7
    } else if leftover_ufos < 9 {
        9
    } else if leftover_ufos < 13 {
        12
    } else {
        15
    }
}

/// Draw the round's income prompt: one of the offsets -1, 0, +1 with
/// weights 30, 50 and 20, added to the difficulty's base income.
fn sample_income_prompt(panic: &PanicLevel, rng: &mut StdRng) -> (p: TimedPhasePrompt)
    ensures
        p matches TimedPhasePrompt::TakeIncome(amount) && spec_base_income(*panic) - 1 <= amount
            <= spec_base_income(*panic) + 1,
{
    let mut amounts: Vec<i32> = Vec::new();
    amounts.push(-1);
    amounts.push(0);
    amounts.push(1);
    let idx = weighted_pick3(rng, 30, 50, 20);
    let adjustment = amounts[idx];
    assert(idx == 0 || idx == 1 || idx == 2);
    let base: i32 = match panic {
        PanicLevel::Yellow => 6,
        PanicLevel::Orange => 5,
        PanicLevel::Red => 4,
    };
    TimedPhasePrompt::TakeIncome(base + adjustment)
}

/// A sequence whose multiset of elements is that of the three continents
/// holds each continent exactly once.
proof fn lemma_three_continents(rc: Seq<Continent>)
    requires
        rc.to_multiset() == spec_all_continents().to_multiset(),
    ensures
        rc.len() == 3,
        rc.no_duplicates(),
{
    assert(spec_all_continents().no_duplicates());
    assert(spec_all_continents().to_multiset().len() == 3);
    assert(rc.to_multiset().len() == rc.len());
    spec_all_continents().lemma_multiset_has_no_duplicates();
    rc.lemma_multiset_has_no_duplicates_conv();
}

/// One roll prompt per continent, in the order given.
fn roll_prompts_for(continents: &Vec<Continent>) -> (v: Vec<TimedPhasePrompt>)
    ensures
        v@.len() == continents@.len(),
        forall|i: int|
            0 <= i < v@.len() ==> v@[i] == TimedPhasePrompt::RollUFOLocation(continents@[i]),
{
    let mut v: Vec<TimedPhasePrompt> = Vec::new();
    let mut k: usize = 0;
    while k < continents.len()
        invariant
            k <= continents@.len(),
            v@.len() == k,
            forall|i: int|
                0 <= i < k as int ==> v@[i] == TimedPhasePrompt::RollUFOLocation(continents@[i]),
        decreases continents@.len() - k,
    {
        v.push(TimedPhasePrompt::RollUFOLocation(continents[k]));
        k = k + 1;
    }
    v
}

/// The threshold-gated bonus prompts of a round, followed by the
/// alien-base prompt when the flag is set. Consumes fresh randomness for
/// every location argument.
fn bonus_prompts_for(
    round: u32,
    base_discovered: bool,
    round_continents: &mut Vec<Continent>,
    rng: &mut StdRng,
) -> (v: Vec<TimedPhasePrompt>)
    requires
        round >= 3 ==> old(round_continents)@.to_multiset() == spec_all_continents().to_multiset(),
    ensures
        v@.len() == spec_num_bonus(round) + (if base_discovered { 1int } else { 0int }),
        forall|j: int| 0 <= j < spec_num_bonus(round) ==> spec_bonus_shape(round, j, #[trigger] v@[j]),
        base_discovered ==> v@[spec_num_bonus(round)] is AlienBaseDiscovered,
{
    let mut v: Vec<TimedPhasePrompt> = Vec::new();
    if round >= 2 {
        v.push(TimedPhasePrompt::AddUFOsToLocation(random_continent(rng), 2));
    }
    if round >= 3 {
        shuffle_continents(rng, round_continents);
        proof {
            lemma_three_continents(round_continents@);
        }
        v.push(
            TimedPhasePrompt::SwapUFOLocations(round_continents[0], round_continents[1]),
        );
    }
    if round >= 4 {
        v.push(TimedPhasePrompt::AddUFOsToLocation(random_continent(rng), 1));
    }
    if round >= 5 {
        v.push(TimedPhasePrompt::AddUFOsToLocation(random_continent(rng), 1));
    }
    if round >= 6 {
        shuffle_continents(rng, round_continents);
        proof {
            lemma_three_continents(round_continents@);
        }
        v.push(
            TimedPhasePrompt::SwapUFOLocations(round_continents[0], round_continents[1]),
        );
    }
    if round >= 7 {
        v.push(TimedPhasePrompt::AddUFOsToLocation(random_continent(rng), 2));
    }
    if round >= 8 {
        shuffle_continents(rng, round_continents);
        proof {
            lemma_three_continents(round_continents@);
        }
        v.push(
            TimedPhasePrompt::SwapUFOLocations(round_continents[0], round_continents[1]),
        );
    }
    if base_discovered {
        v.push(TimedPhasePrompt::AlienBaseDiscovered(random_continent(rng)));
    }
    v
}

/// One interceptor-assignment prompt per continent, in the fixed canonical
/// continent order.
fn interceptor_prompts() -> (v: Vec<TimedPhasePrompt>)
    ensures
        v@ == seq![
            TimedPhasePrompt::AssignInterceptors(Continent::America),
            TimedPhasePrompt::AssignInterceptors(Continent::Africa),
            TimedPhasePrompt::AssignInterceptors(Continent::Eurasia),
        ],
{
    let mut v: Vec<TimedPhasePrompt> = Vec::new();
    v.push(TimedPhasePrompt::AssignInterceptors(Continent::America));
    v.push(TimedPhasePrompt::AssignInterceptors(Continent::Africa));
    v.push(TimedPhasePrompt::AssignInterceptors(Continent::Eurasia));
    assert(v@ =~= seq![
        TimedPhasePrompt::AssignInterceptors(Continent::America),
        TimedPhasePrompt::AssignInterceptors(Continent::Africa),
        TimedPhasePrompt::AssignInterceptors(Continent::Eurasia),
    ]);
    v
}

/// Assemble the canonical prompt list of a round, not yet shuffled.
/// Deterministic in shape; only the randomly drawn locations and the
/// income adjustment depend on the random source.
pub fn compose_round_prompts(
    round: u32,
    panic: &PanicLevel,
    base_discovered: bool,
    rng: &mut StdRng,
) -> (prompts: Vec<TimedPhasePrompt>)
    ensures
        is_canonical(prompts@, round, *panic, base_discovered),
{
    let income_prompt = sample_income_prompt(panic, rng);

    let mut round_continents = all_continents();
    shuffle_continents(rng, &mut round_continents);
    proof {
        lemma_three_continents(round_continents@);
    }

    // The first and second rounds only roll two dice.
    if round < 3 {
        round_continents.remove(2);
    }
    assert(round_continents@.no_duplicates());

    let mut ufo_prompts = roll_prompts_for(&round_continents);
    let ghost rolls = ufo_prompts@;
    let mut bonus_prompts = bonus_prompts_for(round, base_discovered, &mut round_continents, rng);
    let ghost bonus = bonus_prompts@;
    let mut assign_prompts = interceptor_prompts();

    let mut prompts: Vec<TimedPhasePrompt> = Vec::new();
    prompts.push(income_prompt);
    prompts.append(&mut ufo_prompts);
    prompts.append(&mut bonus_prompts);
    prompts.append(&mut assign_prompts);
    prompts.push(TimedPhasePrompt::ChooseResearch);

    proof {
        let s = prompts@;
        let nr = spec_num_rolls(round);
        let nb = spec_num_bonus(round);
        let d: int = if base_discovered { 1 } else { 0 };
        assert(rolls.len() == nr);
        assert(bonus.len() == nb + d);
        assert(s.len() == spec_canonical_len(round, base_discovered));
        assert(s[0] == income_prompt);
        assert forall|i: int| 1 <= i < 1 + nr implies #[trigger] s[i] is RollUFOLocation by {
            assert(s[i] == rolls[i - 1]);
        }
        assert forall|i: int, j: int| 1 <= i < j < 1 + nr implies s[i] != s[j] by {
            assert(s[i] == rolls[i - 1]);
            assert(s[j] == rolls[j - 1]);
        }
        assert forall|j: int| 0 <= j < nb implies spec_bonus_shape(
            round,
            j,
            #[trigger] s[1 + nr + j],
        ) by {
            assert(s[1 + nr + j] == bonus[j]);
        }
        if base_discovered {
            assert(s[1 + nr + nb] == bonus[nb]);
        }
        assert(s[s.len() - 4] == TimedPhasePrompt::AssignInterceptors(Continent::America));
        assert(s[s.len() - 3] == TimedPhasePrompt::AssignInterceptors(Continent::Africa));
        assert(s[s.len() - 2] == TimedPhasePrompt::AssignInterceptors(Continent::Eurasia));
        assert(s[s.len() - 1] == TimedPhasePrompt::ChooseResearch);
    }
    prompts
}

/// Index of the first prompt in the list that must come after `p`; the
/// list length when there is none. This is the exclusive upper bound for
/// reinserting `p`.
fn first_follower_index(prompts: &Vec<TimedPhasePrompt>, p: &TimedPhasePrompt) -> (r: usize)
    ensures
        r <= prompts@.len(),
        forall|i: int| 0 <= i < r ==> !spec_must_come_after(#[trigger] prompts@[i], *p),
        r < prompts@.len() ==> spec_must_come_after(prompts@[r as int], *p),
{
    let mut k: usize = 0;
    while k < prompts.len()
        invariant
            k <= prompts@.len(),
            forall|i: int| 0 <= i < k ==> !spec_must_come_after(#[trigger] prompts@[i], *p),
        decreases prompts@.len() - k,
    {
        if prompts[k].must_come_after(p) {
            return k;
        }
        k = k + 1;
    }
    k
}

/// One past the index of the last prompt in the list that `p` must come
/// after; zero when there is none. This is the inclusive lower bound for
/// reinserting `p`.
fn reinsert_floor_index(prompts: &Vec<TimedPhasePrompt>, p: &TimedPhasePrompt) -> (r: usize)
    ensures
        r <= prompts@.len(),
        forall|i: int|
            r <= i < prompts@.len() ==> !spec_must_come_after(*p, #[trigger] prompts@[i]),
        r > 0 ==> spec_must_come_after(*p, prompts@[r - 1]),
{
    let mut k: usize = prompts.len();
    while k > 0
        invariant
            k <= prompts@.len(),
            forall|i: int|
                k <= i < prompts@.len() ==> !spec_must_come_after(*p, #[trigger] prompts@[i]),
        decreases k,
    {
        if p.must_come_after(&prompts[k - 1]) {
            return k;
        }
        k = k - 1;
    }
    0
}

/// Removing a prompt keeps the remaining prompts in a legal order.
proof fn lemma_remove_respects(s: Seq<TimedPhasePrompt>, idx: int)
    requires
        precedence_respected(s),
        0 <= idx < s.len(),
    ensures
        precedence_respected(s.remove(idx)),
{
    let t = s.remove(idx);
    assert forall|i: int, j: int| 0 <= i < j < t.len() implies !spec_must_come_after(
        t[i],
        t[j],
    ) by {
        let i0: int = if i < idx {
            i
        } else {
            i + 1
        };
        let j0: int = if j < idx {
            j
        } else {
            j + 1
        };
        assert(t[i] == s[i0]);
        assert(t[j] == s[j0]);
        assert(!spec_must_come_after(s[i0], s[j0]));
    }
}

/// Reinserting a prompt anywhere between its precedence bounds keeps the
/// whole list in a legal order.
proof fn lemma_insert_respects(
    s: Seq<TimedPhasePrompt>,
    p: TimedPhasePrompt,
    pos: int,
    lo: int,
    hi: int,
)
    requires
        precedence_respected(s),
        0 <= lo <= pos <= hi <= s.len(),
        forall|i: int| 0 <= i < hi ==> !spec_must_come_after(#[trigger] s[i], p),
        forall|i: int| lo <= i < s.len() ==> !spec_must_come_after(p, #[trigger] s[i]),
    ensures
        precedence_respected(s.insert(pos, p)),
{
    let t = s.insert(pos, p);
    s.insert_ensures(pos, p);
    assert forall|i: int, j: int| 0 <= i < j < t.len() implies !spec_must_come_after(
        t[i],
        t[j],
    ) by {
        if i < pos && j < pos {
            assert(t[i] == s[i] && t[j] == s[j]);
            assert(!spec_must_come_after(s[i], s[j]));
        } else if i < pos && j == pos {
            assert(t[i] == s[i] && t[j] == p);
            assert(!spec_must_come_after(s[i], p));
        } else if i < pos && j > pos {
            assert(t[i] == s[i] && t[j] == s[j - 1]);
            assert(!spec_must_come_after(s[i], s[j - 1]));
        } else if i == pos {
            assert(t[i] == p && t[j] == s[j - 1]);
            assert(!spec_must_come_after(p, s[j - 1]));
        } else {
            assert(t[i] == s[i - 1] && t[j] == s[j - 1]);
            assert(!spec_must_come_after(s[i - 1], s[j - 1]));
        }
    }
}

/// Apply the round's remove-and-reinsert perturbations. Every prompt is
/// kept (the multiset of prompts is unchanged), the legal order is
/// preserved, and with zero shifts the list is returned exactly as given.
pub fn shift_prompts(prompts: &mut Vec<TimedPhasePrompt>, leftover_ufos: u32, rng: &mut StdRng)
    requires
        precedence_respected(old(prompts)@),
        1 <= old(prompts)@.len() < usize::MAX,
    ensures
        final(prompts)@.to_multiset() == old(prompts)@.to_multiset(),
        final(prompts)@.len() == old(prompts)@.len(),
        precedence_respected(final(prompts)@),
        spec_num_shifts(leftover_ufos) == 0 ==> final(prompts)@ == old(prompts)@,
{
    let num_shifts = num_shifts_for_leftover(leftover_ufos);
    let ghost orig = prompts@;
    let mut shift: u32 = 0;
    while shift < num_shifts
        invariant
            prompts@.to_multiset() == orig.to_multiset(),
            prompts@.len() == orig.len(),
            precedence_respected(prompts@),
            num_shifts == spec_num_shifts(leftover_ufos),
            num_shifts == 0 ==> prompts@ == orig,
            1 <= orig.len() < usize::MAX,
        decreases num_shifts - shift,
    {
        let ghost before = prompts@;
        let from_pos = uniform_in(rng, 0, prompts.len());
        let removed_prompt = prompts.remove(from_pos);
        proof {
            lemma_remove_respects(before, from_pos as int);
            assert(before.to_multiset().count(removed_prompt) > 0) by {
                assert(before.contains(removed_prompt));
            }
        }
        // The first prompt that must come after the removed one bounds the
        // reinsertion from above; the last prompt the removed one must come
        // after bounds it from below.
        let max_insert_pos = first_follower_index(prompts, &removed_prompt);
        let min_insert_pos = reinsert_floor_index(prompts, &removed_prompt);
        proof {
            if min_insert_pos > 0 && max_insert_pos < prompts@.len() {
                crate::prompt::lemma_precedence_kinds(
                    removed_prompt,
                    prompts@[min_insert_pos - 1],
                );
                crate::prompt::lemma_precedence_kinds(
                    prompts@[max_insert_pos as int],
                    removed_prompt,
                );
            }
            assert(min_insert_pos <= max_insert_pos);
        }
        // If the bounds ever crossed, the removed prompt would be dropped
        // here instead of reinserted. The proof above shows the bounds never
        // cross for this pairwise predicate: a follower bound requires the
        // removed prompt to be a roll, a floor bound requires it not to be.
        if min_insert_pos < max_insert_pos + 1 {
            let insert_pos = uniform_in(rng, min_insert_pos, max_insert_pos + 1);
            prompts.insert(insert_pos, removed_prompt);
            proof {
                lemma_insert_respects(
                    before.remove(from_pos as int),
                    removed_prompt,
                    insert_pos as int,
                    min_insert_pos as int,
                    max_insert_pos as int,
                );
                assert(prompts@.to_multiset() =~= before.to_multiset());
            }
        }
        shift = shift + 1;
    }
}

/// Number of roll prompts in a sequence.
pub open spec fn count_rolls(s: Seq<TimedPhasePrompt>) -> int
    decreases s.len(),
{
    if s.len() == 0 {
        0
    } else {
        count_rolls(s.drop_last()) + (if s.last() is RollUFOLocation {
            1int
        } else {
            0int
        })
    }
}

/// The number of roll prompts is a function of the multiset of prompts
/// alone: it is the summed multiplicity of the three possible rolls.
proof fn lemma_count_rolls_multiset(s: Seq<TimedPhasePrompt>)
    ensures
        count_rolls(s) == s.to_multiset().count(
            TimedPhasePrompt::RollUFOLocation(Continent::America),
        ) + s.to_multiset().count(TimedPhasePrompt::RollUFOLocation(Continent::Africa))
            + s.to_multiset().count(TimedPhasePrompt::RollUFOLocation(Continent::Eurasia)),
    decreases s.len(),
{
    if s.len() == 0 {
        assert(s.to_multiset() =~= Multiset::empty());
    } else {
        lemma_count_rolls_multiset(s.drop_last());
        assert(s =~= s.drop_last().push(s.last()));
        assert(s.to_multiset() =~= s.drop_last().to_multiset().insert(s.last()));
    }
}

/// Reordering a sequence of prompts does not change how many rolls it
/// holds: the count depends only on the multiset of prompts.
pub proof fn lemma_count_rolls_permutation(s: Seq<TimedPhasePrompt>, t: Seq<TimedPhasePrompt>)
    requires
        s.to_multiset() == t.to_multiset(),
    ensures
        count_rolls(s) == count_rolls(t),
{
    lemma_count_rolls_multiset(s);
    lemma_count_rolls_multiset(t);
}

/// Count the rolls of a sequence whose rolls stand exactly in the index
/// window `[lo, hi)`.
proof fn lemma_count_rolls_window(s: Seq<TimedPhasePrompt>, lo: int, hi: int)
    requires
        0 <= lo <= hi <= s.len(),
        forall|i: int| lo <= i < hi ==> #[trigger] s[i] is RollUFOLocation,
        forall|i: int|
            0 <= i < s.len() && !(lo <= i < hi) ==> !(#[trigger] s[i] is RollUFOLocation),
    ensures
        count_rolls(s) == hi - lo,
    decreases s.len(),
{
    if s.len() == 0 {
    } else {
        let last = s.len() - 1;
        if lo <= last < hi {
            assert(hi == s.len());
            lemma_count_rolls_window(s.drop_last(), lo, hi - 1);
        } else if hi <= last {
            lemma_count_rolls_window(s.drop_last(), lo, hi);
        } else {
            assert(lo == hi);
            lemma_count_rolls_window(s.drop_last(), last, last);
        }
    }
}

/// No position of a canonical list outside the roll window holds a roll
/// prompt.
proof fn lemma_canonical_non_roll(
    s: Seq<TimedPhasePrompt>,
    round: u32,
    panic: PanicLevel,
    base_discovered: bool,
    i: int,
)
    requires
        is_canonical(s, round, panic, base_discovered),
        0 <= i < s.len(),
        !(1 <= i < 1 + spec_num_rolls(round)),
    ensures
        !(s[i] is RollUFOLocation),
{
    let nr = spec_num_rolls(round);
    let nb = spec_num_bonus(round);
    if i == 0 {
    } else if 1 + nr <= i < 1 + nr + nb {
        let j = i - (1 + nr);
        assert(spec_bonus_shape(round, j, s[1 + nr + j]));
    } else if base_discovered && i == 1 + nr + nb {
    } else {
        assert(i >= s.len() - 4);
    }
}

/// The number of roll prompts of a canonical list: two for the first
/// three rounds, three from then on.
pub proof fn lemma_canonical_roll_count(
    s: Seq<TimedPhasePrompt>,
    round: u32,
    panic: PanicLevel,
    base_discovered: bool,
)
    requires
        is_canonical(s, round, panic, base_discovered),
    ensures
        count_rolls(s) == spec_num_rolls(round),
{
    let nr = spec_num_rolls(round);
    assert forall|i: int|
        0 <= i < s.len() && !(1 <= i < 1 + nr) implies !(#[trigger] s[i] is RollUFOLocation) by {
        lemma_canonical_non_roll(s, round, panic, base_discovered, i);
    }
    lemma_count_rolls_window(s, 1, 1 + nr);
}

/// A canonical list is a legal order: every prompt stands after all the
/// prompts it must come after, because the rolls stand at the front, and
/// only a roll is ever required to come earlier.
pub proof fn lemma_canonical_respects_precedence(
    s: Seq<TimedPhasePrompt>,
    round: u32,
    panic: PanicLevel,
    base_discovered: bool,
)
    requires
        is_canonical(s, round, panic, base_discovered),
    ensures
        precedence_respected(s),
{
    let nr = spec_num_rolls(round);
    assert forall|i: int, j: int| 0 <= i < j < s.len() implies !spec_must_come_after(
        s[i],
        s[j],
    ) by {
        if spec_must_come_after(s[i], s[j]) {
            crate::prompt::lemma_precedence_kinds(s[i], s[j]);
            if !(1 <= j < 1 + nr) {
                lemma_canonical_non_roll(s, round, panic, base_discovered, j);
            }
            assert(1 <= j < 1 + nr);
            assert(i == 0 || s[i] is RollUFOLocation);
        }
    }
}

/// Every prompt of a canonical list is well formed, and every income
/// prompt it holds carries an amount within one of the base income.
pub proof fn lemma_canonical_prompts_wf(
    s: Seq<TimedPhasePrompt>,
    round: u32,
    panic: PanicLevel,
    base_discovered: bool,
)
    requires
        is_canonical(s, round, panic, base_discovered),
    ensures
        forall|i: int| 0 <= i < s.len() ==> prompt_wf(#[trigger] s[i]),
        forall|i: int|
            0 <= i < s.len() ==> ((#[trigger] s[i]) matches TimedPhasePrompt::TakeIncome(amount)
                ==> spec_base_income(panic) - 1 <= amount <= spec_base_income(panic) + 1),
{
    let nr = spec_num_rolls(round);
    let nb = spec_num_bonus(round);
    assert forall|i: int| 0 <= i < s.len() implies prompt_wf(#[trigger] s[i]) && (
    s[i] matches TimedPhasePrompt::TakeIncome(amount) ==> spec_base_income(panic) - 1 <= amount
        <= spec_base_income(panic) + 1) by {
        if i == 0 {
        } else if 1 <= i < 1 + nr {
        } else if 1 + nr <= i < 1 + nr + nb {
            let j = i - (1 + nr);
            assert(spec_bonus_shape(round, j, s[1 + nr + j]));
        } else if base_discovered && i == 1 + nr + nb {
        } else {
            assert(i >= s.len() - 4);
        }
    }
}

/// The single entry point of the scheduler: assemble the canonical prompt
/// list for the round and apply the bounded random reordering driven by
/// the leftover-UFO count.
///
/// Whatever the random source produced, the result is a permutation of a
/// canonical list for the round, it respects every precedence constraint,
/// it holds exactly the round's number of rolls, every prompt is well
/// formed, and every income amount is within one of the base income. With
/// no leftover UFOs no shift is applied and the canonical list is returned
/// as composed.
pub fn generate_timed_phase_prompts(
    round: u32,
    panic: &PanicLevel,
    leftover_ufos: u32,
    discover_alien_base: bool,
    rng: &mut StdRng,
) -> (prompts: Vec<TimedPhasePrompt>)
    ensures
        exists|c: Seq<TimedPhasePrompt>|
            #[trigger] is_canonical(c, round, *panic, discover_alien_base) && prompts@.to_multiset()
                == c.to_multiset(),
        prompts@.len() == spec_canonical_len(round, discover_alien_base),
        precedence_respected(prompts@),
        count_rolls(prompts@) == spec_num_rolls(round),
        forall|k: int| 0 <= k < prompts@.len() ==> prompt_wf(#[trigger] prompts@[k]),
        forall|k: int|
            0 <= k < prompts@.len() ==> ((#[trigger] prompts@[k]) matches
            TimedPhasePrompt::TakeIncome(amount) ==> spec_base_income(*panic) - 1 <= amount
                <= spec_base_income(*panic) + 1),
        spec_num_shifts(leftover_ufos) == 0 ==> is_canonical(
            prompts@,
            round,
            *panic,
            discover_alien_base,
        ),
{
    let mut prompts = compose_round_prompts(round, panic, discover_alien_base, rng);
    let ghost canon = prompts@;
    proof {
        lemma_canonical_respects_precedence(canon, round, *panic, discover_alien_base);
        lemma_canonical_roll_count(canon, round, *panic, discover_alien_base);
        lemma_canonical_prompts_wf(canon, round, *panic, discover_alien_base);
    }
    shift_prompts(&mut prompts, leftover_ufos, rng);
    proof {
        lemma_count_rolls_permutation(prompts@, canon);
        assert forall|k: int| 0 <= k < prompts@.len() implies prompt_wf(#[trigger] prompts@[k])
            && (prompts@[k] matches TimedPhasePrompt::TakeIncome(amount) ==> spec_base_income(
            *panic,
        ) - 1 <= amount <= spec_base_income(*panic) + 1) by {
            let p = prompts@[k];
            assert(prompts@.contains(p));
            assert(prompts@.to_multiset().count(p) > 0);
            assert(canon.contains(p));
            let i = choose|i: int| 0 <= i < canon.len() && canon[i] == p;
            assert(prompt_wf(canon[i]));
        }
    }
    prompts
}

} // verus!
