use crate::config::{Config, ConfigView};
use crate::smart_door::kernel::{step, transition, Step};
use crate::smart_door::model::{Effect, Model, ModelView, Msg, MsgView};
use vstd::prelude::*;

verus! {

/// The controller after a run of messages, and all the effects asked for on
/// the way, in order.
pub open spec fn run(config: ConfigView, model: ModelView, msgs: Seq<MsgView>) -> Step
    decreases msgs.len(),
{
    if msgs.len() == 0 {
        (model, Seq::empty())
    } else {
        let (next, effects) = step(config, model, msgs[0]);
        let (last, more) = run(config, next, msgs.drop_first());
        (last, effects + more)
    }
}

/// A run of at least one message is its first step, then the run of the
/// rest from where that step leads.
pub proof fn lemma_run_unfold(config: ConfigView, model: ModelView, msgs: Seq<MsgView>)
    requires
        msgs.len() > 0,
    ensures
        run(config, model, msgs).0 == run(
            config,
            step(config, model, msgs[0]).0,
            msgs.drop_first(),
        ).0,
        run(config, model, msgs).1 == step(config, model, msgs[0]).1 + run(
            config,
            step(config, model, msgs[0]).0,
            msgs.drop_first(),
        ).1,
{
}

/// A run with one more message at its end is the run without it, then
/// the step on that message.
pub proof fn lemma_run_push(config: ConfigView, model: ModelView, msgs: Seq<MsgView>, last: MsgView)
    ensures
        run(config, model, msgs.push(last)).0 == step(
            config,
            run(config, model, msgs).0,
            last,
        ).0,
        run(config, model, msgs.push(last)).1 == run(config, model, msgs).1 + step(
            config,
            run(config, model, msgs).0,
            last,
        ).1,
    decreases msgs.len(),
{
    let all = msgs.push(last);
    lemma_run_unfold(config, model, all);
    if msgs.len() > 0 {
        assert(all.drop_first() =~= msgs.drop_first().push(last));
        lemma_run_unfold(config, model, msgs);
        lemma_run_push(config, step(config, model, msgs[0]).0, msgs.drop_first(), last);
    }
}

/// The messages in the opposite order.
fn reversed(msgs: Vec<Msg>) -> (r: Vec<Msg>)
    ensures
        r.deep_view() == msgs.deep_view().reverse(),
{
    let mut left = msgs;
    let mut r: Vec<Msg> = Vec::new();
    while left.len() > 0
        invariant
            left@.len() <= msgs@.len(),
            left@ == msgs@.take(left@.len() as int),
            r@.len() == msgs@.len() - left@.len(),
            forall|k: int| 0 <= k < r@.len() ==> r@[k] == msgs@[msgs@.len() - 1 - k],
        decreases left@.len(),
    {
        match left.pop() {
            Some(msg) => {
                r.push(msg);
            },
            None => {},
        }
    }
    r
}

/// Feeds a run of messages to the controller, one step after the other,
/// and gathers the effects that the steps ask for, in order.
pub fn replay(config: &Config, model: Model, msgs: Vec<Msg>) -> (r: (Model, Vec<Effect>))
    ensures
        r.0@ == run(config@, model@, msgs.deep_view()).0,
        r.1.deep_view() == run(config@, model@, msgs.deep_view()).1,
{
    let ghost all = msgs.deep_view();
    let ghost start = model@;
    let mut waiting = reversed(msgs);
    let mut model = model;
    let mut effects: Vec<Effect> = Vec::new();
    assert(waiting.deep_view().len() == waiting@.len());
    while waiting.len() > 0
        invariant
            waiting@.len() <= all.len(),
            waiting.deep_view() == all.skip(all.len() - waiting@.len()).reverse(),
            model@ == run(config@, start, all.take(all.len() - waiting@.len())).0,
            effects.deep_view() == run(
                config@,
                start,
                all.take(all.len() - waiting@.len()),
            ).1,
        decreases waiting@.len(),
    {
        let ghost done = all.take(all.len() - waiting@.len());
        let ghost at = all.len() - waiting@.len();
        let ghost stack = waiting.deep_view();
        match waiting.pop() {
            Some(msg) => {
                proof {
                    assert(stack[stack.len() - 1] == all.skip(at)[0]);
                    assert(all.take(at + 1) =~= done.push(all[at]));
                    lemma_run_push(config@, start, done, all[at]);
                    let now = waiting.deep_view();
                    let want = all.skip(at + 1).reverse();
                    assert forall|k: int| 0 <= k < now.len() implies now[k] == want[k] by {
                        assert(stack[k] == all.skip(at)[stack.len() - 1 - k]);
                    }
                }
                let (next, more) = transition(config, model, msg);
                model = next;
                let mut more = more;
                effects.append(&mut more);
            },
            None => {},
        }
    }
    assert(all.take(all.len() as int) =~= all);
    (model, effects)
}

} // verus!
