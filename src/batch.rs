use vstd::prelude::*;
use crate::provider::{CallError, Provider};
use crate::response::{answer_of, carries};

verus! {

/// The outcome of a batch, from the outcomes of its calls in input order:
/// every answer, in the same order, when all calls succeeded; otherwise the
/// error of the first call, by position, that failed.
pub open spec fn batch_result(outcomes: Seq<Result<String, CallError>>) -> Result<Seq<String>, CallError>
    decreases outcomes.len(),
{
    if outcomes.len() == 0 {
        Ok(Seq::empty())
    } else {
        match outcomes[0] {
            Err(e) => Err(e),
            Ok(s) => match batch_result(outcomes.drop_first()) {
                Ok(rest) => Ok(seq![s] + rest),
                Err(e) => Err(e),
            },
        }
    }
}

proof fn lemma_batch_result_push(outcomes: Seq<Result<String, CallError>>, last: Result<String, CallError>)
    ensures
        batch_result(outcomes.push(last)) == (match batch_result(outcomes) {
            Err(e) => Err(e),
            Ok(answers) => match last {
                Ok(s) => Ok(answers.push(s)),
                Err(e) => Err::<Seq<String>, CallError>(e),
            },
        }),
    decreases outcomes.len(),
{
    let pushed = outcomes.push(last);
    assert(pushed[0] == if outcomes.len() > 0 { outcomes[0] } else { last });
    if outcomes.len() > 0 {
        assert(pushed.drop_first() =~= outcomes.drop_first().push(last));
        lemma_batch_result_push(outcomes.drop_first(), last);
        if let Ok(s) = outcomes[0] {
            if let Ok(rest) = batch_result(outcomes.drop_first()) {
                if let Ok(t) = last {
                    assert((seq![s] + rest).push(t) =~= seq![s] + rest.push(t));
                }
            }
        }
    } else {
        assert(pushed.drop_first() =~= Seq::<Result<String, CallError>>::empty());
        assert(batch_result(pushed.drop_first()) == Ok::<Seq<String>, CallError>(Seq::empty()));
        assert(batch_result(outcomes) == Ok::<Seq<String>, CallError>(Seq::empty()));
        if let Ok(t) = last {
            assert(seq![t] + Seq::<String>::empty() =~= Seq::<String>::empty().push(t));
        }
    }
}

proof fn lemma_batch_result_prefix_failed(outcomes: Seq<Result<String, CallError>>, k: int)
    requires
        0 <= k <= outcomes.len(),
        batch_result(outcomes.take(k)) is Err,
    ensures
        batch_result(outcomes) == batch_result(outcomes.take(k)),
    decreases outcomes.len() - k,
{
    if k < outcomes.len() {
        assert(outcomes.take(k + 1) =~= outcomes.take(k).push(outcomes[k]));
        lemma_batch_result_push(outcomes.take(k), outcomes[k]);
        lemma_batch_result_prefix_failed(outcomes, k + 1);
    } else {
        assert(outcomes.take(k) =~= outcomes);
    }
}

/// A batch succeeds exactly when every one of its calls succeeded, and then
/// its answers are the calls' answers, index for index: answer `i` belongs
/// to prompt `i`, whatever order the calls finished in.
pub proof fn batch_succeeds_exactly_when_every_call_does(outcomes: Seq<Result<String, CallError>>)
    ensures
        batch_result(outcomes) is Ok <==> forall|i: int| 0 <= i < outcomes.len() ==> (#[trigger] outcomes[i]) is Ok,
        batch_result(outcomes) is Ok ==> batch_result(outcomes)->Ok_0.len() == outcomes.len(),
        batch_result(outcomes) is Ok ==> forall|i: int| 0 <= i < outcomes.len()
            ==> batch_result(outcomes)->Ok_0[i] == (#[trigger] outcomes[i])->Ok_0,
    decreases outcomes.len(),
{
    if outcomes.len() > 0 {
        let tail = outcomes.drop_first();
        batch_succeeds_exactly_when_every_call_does(tail);
        assert forall|i: int| 1 <= i < outcomes.len() implies outcomes[i] == #[trigger] tail[i - 1] by {}
        if (forall|i: int| 0 <= i < outcomes.len() ==> (#[trigger] outcomes[i]) is Ok) {
            assert(outcomes[0] is Ok);
            assert forall|i: int| 0 <= i < tail.len() implies (#[trigger] tail[i]) is Ok by {
                assert(outcomes[i + 1] is Ok);
            }
        }
        if batch_result(outcomes) is Ok {
            let answers = batch_result(outcomes)->Ok_0;
            assert(answers =~= seq![outcomes[0]->Ok_0] + batch_result(tail)->Ok_0);
            assert forall|i: int| 0 <= i < outcomes.len() implies (#[trigger] outcomes[i]) is Ok
                && answers[i] == outcomes[i]->Ok_0 by {
                if i > 0 {
                    assert(tail[i - 1] is Ok);
                }
            }
        }
    }
}

/// A failed call fails the whole batch, and no answer is handed out: the
/// batch reports the error of the first call, by position, that failed.
pub proof fn batch_reports_first_failure(outcomes: Seq<Result<String, CallError>>, k: int)
    requires
        0 <= k < outcomes.len(),
        outcomes[k] is Err,
        forall|j: int| 0 <= j < k ==> (#[trigger] outcomes[j]) is Ok,
    ensures
        batch_result(outcomes) == Err::<Seq<String>, CallError>(outcomes[k]->Err_0),
    decreases k,
{
    if k > 0 {
        let tail = outcomes.drop_first();
        assert(outcomes[0] is Ok);
        assert forall|j: int| 0 <= j < k - 1 implies (#[trigger] tail[j]) is Ok by {
            assert(outcomes[j + 1] is Ok);
        }
        batch_reports_first_failure(tail, k - 1);
    }
}

/// On success, answer `i` of a batch is the text that the body answering
/// prompt `i` holds, for every `i`, whichever call finished first.
pub proof fn batch_answers_follow_prompt_order(
    provider: Provider,
    bodies: Seq<Seq<char>>,
    outcomes: Seq<Result<String, CallError>>,
)
    requires
        outcomes.len() == bodies.len(),
        forall|i: int| 0 <= i < bodies.len() ==> carries(#[trigger] outcomes[i], answer_of(provider, bodies[i])),
        batch_result(outcomes) is Ok,
    ensures
        batch_result(outcomes)->Ok_0.len() == bodies.len(),
        forall|i: int| 0 <= i < bodies.len()
            ==> (#[trigger] batch_result(outcomes)->Ok_0[i])@ == answer_of(provider, bodies[i])->Ok_0,
{
    batch_succeeds_exactly_when_every_call_does(outcomes);
    assert forall|i: int| 0 <= i < bodies.len() implies (#[trigger] batch_result(outcomes)->Ok_0[i])@
        == answer_of(provider, bodies[i])->Ok_0 by {
        assert(outcomes[i] is Ok);
        assert(carries(outcomes[i], answer_of(provider, bodies[i])));
    }
}

/// An answer body that cannot be read, for any one prompt of a batch, fails
/// the whole batch: no partial list of answers comes back.
pub proof fn batch_fails_on_any_unreadable_answer(
    provider: Provider,
    bodies: Seq<Seq<char>>,
    outcomes: Seq<Result<String, CallError>>,
    k: int,
)
    requires
        outcomes.len() == bodies.len(),
        forall|i: int| 0 <= i < bodies.len() ==> carries(#[trigger] outcomes[i], answer_of(provider, bodies[i])),
        0 <= k < bodies.len(),
        answer_of(provider, bodies[k]) is Err,
    ensures
        batch_result(outcomes) is Err,
{
    batch_succeeds_exactly_when_every_call_does(outcomes);
    assert(carries(outcomes[k], answer_of(provider, bodies[k])));
    assert(outcomes[k] is Err);
}

/// Folds the outcomes of a batch's calls, in input order, into the batch's
/// result: all answers in input order, or the first error by position.
/// Answers of other calls are dropped when one failed.
pub fn collect_responses(outcomes: Vec<Result<String, CallError>>) -> (r: Result<Vec<String>, CallError>)
    ensures
        match batch_result(outcomes@) {
            Ok(answers) => r is Ok && r->Ok_0@ == answers,
            Err(e) => r == Err::<Vec<String>, CallError>(e),
        },
{
    let mut responses: Vec<String> = Vec::with_capacity(outcomes.len());
    let mut i: usize = 0;
    let n = outcomes.len();
    let ghost all = outcomes@;
    let mut pending = outcomes;
    // Turn the outcomes over, so that popping yields them in input order.
    let mut rest: Vec<Result<String, CallError>> = Vec::with_capacity(n);
    while rest.len() < n
        invariant
            all == outcomes@,
            n == all.len(),
            pending@ == all.take(n - rest@.len()),
            rest@.len() <= n,
            forall|j: int| 0 <= j < rest@.len() ==> #[trigger] rest@[j] == all[n - 1 - j],
        decreases n - rest@.len(),
    {
        proof {
            assert(pending@.len() == n - rest@.len());
        }
        let outcome = pending.pop().unwrap();
        rest.push(outcome);
        proof {
            assert(pending@ =~= all.take(n - rest@.len()));
        }
    }
    while i < n
        invariant
            all == outcomes@,
            n == all.len(),
            i <= n,
            rest@.len() == n - i,
            forall|j: int| 0 <= j < n - i ==> #[trigger] rest@[j] == all[n - 1 - j],
            batch_result(all.take(i as int)) == Ok::<Seq<String>, CallError>(responses@),
        decreases n - i,
    {
        proof {
            assert(rest@[n - i - 1] == all[i as int]);
        }
        let outcome = rest.pop().unwrap();
        proof {
            assert(outcome == all[i as int]);
            assert(all.take(i as int + 1) =~= all.take(i as int).push(all[i as int]));
            lemma_batch_result_push(all.take(i as int), all[i as int]);
        }
        match outcome {
            Ok(s) => responses.push(s),
            Err(e) => {
                proof {
                    assert(batch_result(all.take(i as int + 1)) == Err::<Seq<String>, CallError>(e));
                    lemma_batch_result_prefix_failed(all, i as int + 1);
                }
                return Err(e);
            },
        }
        i = i + 1;
    }
    proof {
        assert(all.take(n as int) =~= all);
    }
    Ok(responses)
}

} // verus!
