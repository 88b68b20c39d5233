use vstd::prelude::*;
use crate::message::{Role, Turn};

verus! {

/// The transcript after generations that each ran alone and succeeded:
/// prompt `i` was answered with completion `i`, one call after the other.
pub open spec fn after_generations(
    start: Seq<Turn>,
    prompts: Seq<Seq<char>>,
    completions: Seq<Seq<char>>,
) -> Seq<Turn>
    decreases prompts.len(),
{
    if prompts.len() == 0 {
        start
    } else {
        let n = (prompts.len() - 1) as int;
        after_generations(start, prompts.take(n), completions.take(n)).push(
            Turn::user(prompts[n]),
        ).push(Turn::assistant(completions[n]))
    }
}

/// Generations run one at a time add two turns each after what was there:
/// user, assistant, user, assistant, ... in the order of the calls.
pub proof fn lemma_sequential_generations(
    start: Seq<Turn>,
    prompts: Seq<Seq<char>>,
    completions: Seq<Seq<char>>,
)
    requires
        prompts.len() == completions.len(),
    ensures
        after_generations(start, prompts, completions).len() == start.len() + 2 * prompts.len(),
        after_generations(start, prompts, completions).take(start.len() as int) == start,
        forall|i: int|
            0 <= i < prompts.len() ==> #[trigger] after_generations(start, prompts, completions)[start.len() + 2 * i]
                == Turn::user(prompts[i]),
        forall|i: int|
            0 <= i < prompts.len() ==> #[trigger] after_generations(start, prompts, completions)[start.len() + 2 * i + 1]
                == Turn::assistant(completions[i]),
    decreases prompts.len(),
{
    if prompts.len() > 0 {
        let n = (prompts.len() - 1) as int;
        let ps = prompts.take(n);
        let cs = completions.take(n);
        lemma_sequential_generations(start, ps, cs);
        let before = after_generations(start, ps, cs);
        let after = after_generations(start, prompts, completions);
        assert(after == before.push(Turn::user(prompts[n])).push(Turn::assistant(completions[n])));
        assert(after.take(start.len() as int) =~= before.take(start.len() as int));
        assert forall|i: int| 0 <= i < prompts.len() implies #[trigger] after[start.len() + 2 * i]
            == Turn::user(prompts[i]) by {
            if i < n {
                assert(before[start.len() + 2 * i] == Turn::user(ps[i]));
            }
        }
        assert forall|i: int| 0 <= i < prompts.len() implies #[trigger] after[start.len() + 2 * i + 1]
            == Turn::assistant(completions[i]) by {
            if i < n {
                assert(before[start.len() + 2 * i + 1] == Turn::assistant(cs[i]));
            }
        }
    }
}

/// How many turns of `history` were spoken in `role`.
pub open spec fn count_role(history: Seq<Turn>, role: Role) -> nat
    decreases history.len(),
{
    if history.len() == 0 {
        0
    } else {
        count_role(history.drop_last(), role) + if history.last().role == role {
            1nat
        } else {
            0nat
        }
    }
}

/// A generation that fails at the server leaves one more user turn than
/// before it, and no more assistant turns.
pub proof fn lemma_failed_generation(history: Seq<Turn>, prompt: Seq<char>)
    ensures
        count_role(history.push(Turn::user(prompt)), Role::User) == count_role(history, Role::User) + 1,
        count_role(history.push(Turn::user(prompt)), Role::Assistant) == count_role(
            history,
            Role::Assistant,
        ),
{
    assert(history.push(Turn::user(prompt)).drop_last() =~= history);
}

/// One step of overlapping generations, in the order the transcript saw it:
/// a prompt recorded, or an answer that came back (a completion, or nothing
/// when the call failed).
pub enum Step {
    Begin(Seq<char>),
    Finish(Option<Seq<char>>),
}

/// The transcript after the steps, from an empty one.
pub open spec fn replay(steps: Seq<Step>) -> Seq<Turn>
    decreases steps.len(),
{
    if steps.len() == 0 {
        Seq::empty()
    } else {
        let before = replay(steps.drop_last());
        match steps.last() {
            Step::Begin(prompt) => before.push(Turn::user(prompt)),
            Step::Finish(Some(completion)) => before.push(Turn::assistant(completion)),
            Step::Finish(None) => before,
        }
    }
}

/// Where the turn of step `i` lands: after every turn recorded before it.
pub open spec fn landing(steps: Seq<Step>, i: int) -> int {
    replay(steps.take(i)).len() as int
}

/// What the first `k` steps recorded stays at the front of the transcript.
pub proof fn lemma_replay_prefix(steps: Seq<Step>, k: int)
    requires
        0 <= k <= steps.len(),
    ensures
        replay(steps.take(k)).len() <= replay(steps).len(),
        replay(steps).take(replay(steps.take(k)).len() as int) == replay(steps.take(k)),
    decreases steps.len(),
{
    if k == steps.len() {
        assert(steps.take(k) =~= steps);
        assert(replay(steps).take(replay(steps).len() as int) =~= replay(steps));
    } else {
        let shorter = steps.drop_last();
        assert(shorter.take(k) =~= steps.take(k));
        lemma_replay_prefix(shorter, k);
        let r = replay(steps);
        let s = replay(shorter);
        let t = replay(steps.take(k));
        assert(r.take(t.len() as int) =~= s.take(t.len() as int));
    }
}

/// The turn that step `i` records is whole and stays where it landed.
pub proof fn lemma_step_lands(steps: Seq<Step>, i: int)
    requires
        0 <= i < steps.len(),
    ensures
        steps[i] matches Step::Begin(prompt) ==> landing(steps, i) < replay(steps).len()
            && replay(steps)[landing(steps, i)] == Turn::user(prompt),
        steps[i] matches Step::Finish(Some(completion)) ==> landing(steps, i) < replay(steps).len()
            && replay(steps)[landing(steps, i)] == Turn::assistant(completion),
        (steps[i] is Begin || (steps[i] matches Step::Finish(Some(_)))) ==> landing(steps, i) + 1
            <= replay(steps.take(i + 1)).len(),
{
    let upto = steps.take(i + 1);
    assert(upto.drop_last() =~= steps.take(i));
    assert(upto.last() == steps[i]);
    lemma_replay_prefix(steps, i + 1);
    let whole = replay(steps);
    let t = replay(upto);
    let at = landing(steps, i);
    if steps[i] is Begin || (steps[i] matches Step::Finish(Some(_))) {
        assert(at < t.len());
        assert(whole.take(t.len() as int)[at] == whole[at]);
        assert(t[at] == whole[at]);
    }
}

/// Overlapping generations: whatever the order in which the prompts and the
/// answers of several calls reach the transcript, a call's prompt lands
/// before its completion, and each lands as a whole turn.
pub proof fn lemma_overlapping_generations(steps: Seq<Step>, begin: int, finish: int)
    requires
        0 <= begin < finish < steps.len(),
        steps[begin] is Begin,
        steps[finish] matches Step::Finish(Some(_)),
    ensures
        landing(steps, begin) < landing(steps, finish) < replay(steps).len(),
        replay(steps)[landing(steps, begin)] == Turn::user(steps[begin]->Begin_0),
        replay(steps)[landing(steps, finish)] == Turn::assistant(steps[finish]->Finish_0->Some_0),
{
    lemma_step_lands(steps, begin);
    lemma_step_lands(steps, finish);
    let upto = steps.take(finish);
    assert(upto.take(begin + 1) =~= steps.take(begin + 1));
    lemma_replay_prefix(upto, begin + 1);
}

} // verus!
