//! Parts of a conversation, and how they make up a whole.

use vstd::prelude::*;
use crate::error::CliErrorView;
use crate::tmux::{
    captured, checked, identifier_of, ConversationView, Outcome, Talk, TmuxReplyView,
    TmuxRequestView, TmuxStdioPolicy,
};

verus! {

impl<T> Talk<T> {
    /// A talk in which nothing is said.
    pub open spec fn silent(result: Result<T, CliErrorView>) -> Talk<T> {
        Talk { answered: seq![], outcome: Outcome::Done(result) }
    }

    /// This talk, after `requests` have been answered.
    pub open spec fn preceded_by(self, requests: Seq<TmuxRequestView>) -> Talk<T> {
        Talk { answered: requests + self.answered, outcome: self.outcome }
    }

    /// This talk and, where it ends well, `next`.
    pub open spec fn followed_by<U>(self, next: Talk<U>) -> Talk<U> {
        match self.outcome {
            Outcome::Done(Ok(_)) => next.preceded_by(self.answered),
            Outcome::Done(Err(error)) => Talk {
                answered: self.answered,
                outcome: Outcome::Done(Err(error)),
            },
            Outcome::Waiting(request) => Talk {
                answered: self.answered,
                outcome: Outcome::Waiting(request),
            },
        }
    }
}

/// One step of a script: a captured request that has to succeed and, it may be,
/// to print an identifier.
pub ghost struct Step {
    pub request: TmuxRequestView,
    pub action: Seq<char>,
    pub wants_identifier: bool,
}

/// The step that runs `tmux` with `args`.
pub open spec fn checked_step(args: Seq<Seq<char>>, action: Seq<char>) -> Step {
    Step { request: captured(args), action, wants_identifier: false }
}

/// The step that runs `tmux` with `args` to get an identifier.
pub open spec fn identifier_step(args: Seq<Seq<char>>, action: Seq<char>) -> Step {
    Step { request: captured(args), action, wants_identifier: true }
}

impl Step {
    /// What is wrong with a reply to this step, if anything is.
    pub open spec fn fault(self, reply: TmuxReplyView) -> Option<CliErrorView> {
        if self.wants_identifier {
            match identifier_of(reply, self.action) {
                Ok(_) => None,
                Err(error) => Some(error),
            }
        } else {
            match checked(reply, self.action, TmuxStdioPolicy::Capture) {
                Ok(_) => None,
                Err(error) => Some(error),
            }
        }
    }
}

/// The requests of the steps, in order.
pub open spec fn requests(steps: Seq<Step>) -> Seq<TmuxRequestView> {
    steps.map_values(|step: Step| step.request)
}

/// Whether the first `n` steps have been answered without a fault.
pub open spec fn passed(steps: Seq<Step>, unheard: Seq<TmuxReplyView>, n: int) -> bool {
    &&& 0 <= n <= steps.len()
    &&& n <= unheard.len()
    &&& forall|i: int| 0 <= i < n ==> (#[trigger] steps[i]).fault(unheard[i]) is None
}

/// The first step, from `from` on, that does not pass: the one that has no reply
/// yet, or the one whose reply is a fault. The number of steps, where all pass.
pub open spec fn halt(steps: Seq<Step>, unheard: Seq<TmuxReplyView>, from: int) -> int
    decreases steps.len() - from,
{
    if 0 <= from < steps.len() && from < unheard.len() && steps[from].fault(unheard[from])
        is None {
        halt(steps, unheard, from + 1)
    } else {
        from
    }
}

/// The part of a conversation in which the steps are taken one by one, up to the
/// first fault.
pub open spec fn script(steps: Seq<Step>, unheard: Seq<TmuxReplyView>) -> Talk<()> {
    let n = halt(steps, unheard, 0);
    if n == steps.len() {
        Talk { answered: requests(steps), outcome: Outcome::Done(Ok(())) }
    } else if n == unheard.len() {
        Talk {
            answered: requests(steps).take(n),
            outcome: Outcome::Waiting(steps[n].request),
        }
    } else {
        Talk {
            answered: requests(steps).take(n + 1),
            outcome: Outcome::Done(Err(steps[n].fault(unheard[n])->0)),
        }
    }
}

/// Where a script halts, all steps before have passed, and the one there has not.
pub proof fn lemma_halt(steps: Seq<Step>, unheard: Seq<TmuxReplyView>, from: int)
    requires
        passed(steps, unheard, from),
    ensures
        from <= halt(steps, unheard, from),
        passed(steps, unheard, halt(steps, unheard, from)),
        ({
            let n = halt(steps, unheard, from);
            n < steps.len() && n < unheard.len() ==> steps[n].fault(unheard[n]) is Some
        }),
    decreases steps.len() - from,
{
    if from < steps.len() && from < unheard.len() && steps[from].fault(unheard[from]) is None {
        lemma_halt(steps, unheard, from + 1);
    }
}

/// A script halts after the steps that are known to pass.
pub proof fn lemma_halt_after(steps: Seq<Step>, unheard: Seq<TmuxReplyView>, from: int, n: int)
    requires
        passed(steps, unheard, n),
        0 <= from <= n,
    ensures
        halt(steps, unheard, from) == halt(steps, unheard, n),
    decreases n - from,
{
    if from < n {
        assert(steps[from].fault(unheard[from]) is None);
        lemma_halt_after(steps, unheard, from + 1, n);
    }
}

/// A script takes no more replies than there are.
pub proof fn lemma_script_bound(steps: Seq<Step>, unheard: Seq<TmuxReplyView>)
    ensures
        script(steps, unheard).answered.len() <= unheard.len(),
{
    lemma_halt(steps, unheard, 0);
}

/// A script whose first `n` steps have passed goes on with the next `m`: they
/// pass too, or the script ends where they do.
pub proof fn lemma_script_part(
    steps: Seq<Step>,
    unheard: Seq<TmuxReplyView>,
    n: int,
    m: int,
)
    requires
        passed(steps, unheard, n),
        0 <= m,
        n + m <= steps.len(),
    ensures
        ({
            let part = script(steps.subrange(n, n + m), unheard.skip(n));
            if part.outcome matches Outcome::Done(Ok(_)) {
                &&& passed(steps, unheard, n + m)
                &&& requests(steps).take(n + m) == requests(steps).take(n) + part.answered
            } else {
                &&& script(steps, unheard).outcome == part.outcome
                &&& script(steps, unheard).answered == requests(steps).take(n) + part.answered
            }
        }),
{
    let part_steps = steps.subrange(n, n + m);
    let part_unheard = unheard.skip(n);
    let part = script(part_steps, part_unheard);
    let h = halt(part_steps, part_unheard, 0);
    lemma_halt(part_steps, part_unheard, 0);
    assert forall|i: int| 0 <= i < n + h implies (#[trigger] steps[i]).fault(unheard[i])
        is None by {
        if i >= n {
            assert(part_steps[i - n].fault(part_unheard[i - n]) is None);
        }
    }
    assert(passed(steps, unheard, n + h));
    lemma_halt_after(steps, unheard, 0, n + h);
    if h == m {
        assert(requests(steps).take(n + m) =~= requests(steps).take(n) + part.answered);
    } else {
        assert(part_steps[h] == steps[n + h]);
        assert(halt(steps, unheard, n + h) == n + h);
        assert(script(steps, unheard).answered =~= requests(steps).take(n) + part.answered);
    }
}

/// Answered requests leave the replies that come after theirs.
pub proof fn lemma_unheard_after(tmux: ConversationView, answered: Seq<TmuxRequestView>)
    requires
        answered.len() <= tmux.unheard().len(),
    ensures
        tmux.after(answered).unheard() == tmux.unheard().skip(answered.len() as int),
{
    assert(tmux.after(answered).unheard() =~= tmux.unheard().skip(answered.len() as int));
}

/// In a conversation in which the first `n` steps of a script have passed, the
/// request of the next one is made: it passes too, or the script ends there.
pub proof fn lemma_next_step(before: ConversationView, steps: Seq<Step>, n: int)
    requires
        passed(steps, before.unheard(), n),
        n < steps.len(),
    ensures
        ({
            let unheard = before.unheard();
            let now = before.after(requests(steps).take(n));
            let talk = script(steps, unheard);
            if now.unheard().len() == 0 {
                &&& talk.outcome == Outcome::<()>::Waiting(steps[n].request)
                &&& before.after(talk.answered) == now.after(seq![])
            } else {
                &&& before.after(requests(steps).take(n + 1)) == now.after(seq![steps[n].request])
                &&& match steps[n].fault(now.unheard()[0]) {
                    None => passed(steps, unheard, n + 1),
                    Some(error) => {
                        &&& talk.outcome == Outcome::<()>::Done(Err(error))
                        &&& before.after(talk.answered) == now.after(seq![steps[n].request])
                    },
                }
            }
        }),
{
    let unheard = before.unheard();
    let now = before.after(requests(steps).take(n));
    lemma_unheard_after(before, requests(steps).take(n));
    lemma_halt_after(steps, unheard, 0, n);
    assert(now =~= now.after(seq![]));
    assert(before.after(requests(steps).take(n + 1)) =~= now.after(seq![steps[n].request]));
}

/// In a conversation in which the first `n` steps of a script have passed, the
/// next ones are taken as a script of their own: they pass too, or the script
/// ends where they do.
pub proof fn lemma_next_part(before: ConversationView, steps: Seq<Step>, n: int, part: Seq<Step>)
    requires
        passed(steps, before.unheard(), n),
        n + part.len() <= steps.len(),
        steps.subrange(n, n + part.len()) == part,
    ensures
        ({
            let unheard = before.unheard();
            let now = before.after(requests(steps).take(n));
            let talk = script(part, now.unheard());
            if talk.outcome matches Outcome::Done(Ok(_)) {
                &&& passed(steps, unheard, n + part.len())
                &&& before.after(requests(steps).take(n + part.len())) == now.after(talk.answered)
            } else {
                &&& script(steps, unheard).outcome == talk.outcome
                &&& before.after(script(steps, unheard).answered) == now.after(talk.answered)
            }
        }),
{
    let unheard = before.unheard();
    let now = before.after(requests(steps).take(n));
    let talk = script(part, now.unheard());
    lemma_unheard_after(before, requests(steps).take(n));
    lemma_script_part(steps, unheard, n, part.len() as int);
    assert(before.after(requests(steps).take(n) + talk.answered) =~= now.after(talk.answered));
}

} // verus!
