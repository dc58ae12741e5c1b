//! Laws on keeping a pool free of connections that are idle for too long.
use vstd::prelude::*;

use crate::client::idle::{IdleAction, IdleEvent, IdleStage, IdleTask};
use crate::client::pool::{ConnectionPool, IdleConnection};

verus! {

/// A new task waits to be polled, and keeps to the time that it was made for.
pub proof fn law_new_task(idle_dur: u128)
    ensures
        forall|task: IdleTask| #[trigger]
            call_ensures(IdleTask::new, (idle_dur,), task) ==> task.idle_dur == idle_dur
                && task.stage is Polled,
{
}

/// A task that is polled first looks whether the pool was closed. It stops where it was; else it
/// looks whether the interval is over. It sweeps where that is over, and else waits to be polled.
pub proof fn law_task_steps()
    ensures
        forall|task: &mut IdleTask|
            task.stage is Polled ==> #[trigger] call_requires(
                IdleTask::step,
                (task, IdleEvent::Polled),
            ),
        forall|task: &mut IdleTask, closed: bool|
            task.stage is Closed ==> #[trigger] call_requires(
                IdleTask::step,
                (task, IdleEvent::Closed(closed)),
            ),
        forall|task: &mut IdleTask, over: bool|
            task.stage is Tick ==> #[trigger] call_requires(
                IdleTask::step,
                (task, IdleEvent::Tick(over)),
            ),
        forall|task: &mut IdleTask, action: IdleAction|
            task.stage is Polled && #[trigger] call_ensures(
                IdleTask::step,
                (task, IdleEvent::Polled),
                action,
            ) ==> action is PollClosed && final(task).stage is Closed,
        forall|task: &mut IdleTask, action: IdleAction|
            task.stage is Closed && #[trigger] call_ensures(
                IdleTask::step,
                (task, IdleEvent::Closed(true)),
                action,
            ) ==> action is Exit && final(task).stage is Finished,
        forall|task: &mut IdleTask, action: IdleAction|
            task.stage is Closed && #[trigger] call_ensures(
                IdleTask::step,
                (task, IdleEvent::Closed(false)),
                action,
            ) ==> action is PollTick && final(task).stage is Tick,
        forall|task: &mut IdleTask, action: IdleAction|
            task.stage is Tick && #[trigger] call_ensures(
                IdleTask::step,
                (task, IdleEvent::Tick(true)),
                action,
            ) ==> action is Sweep && final(task).stage is Pool,
        forall|task: &mut IdleTask, action: IdleAction|
            task.stage is Tick && #[trigger] call_ensures(
                IdleTask::step,
                (task, IdleEvent::Tick(false)),
                action,
            ) ==> action is Pending && final(task).stage is Polled,
        forall|task: &mut IdleTask, event: IdleEvent, action: IdleAction| #[trigger]
            call_ensures(IdleTask::step, (task, event), action) ==> final(task).idle_dur
                == task.idle_dur,
{
}

/// A sweep of a pool that is there keeps, for each key and in their order, exactly the connections
/// that became idle no longer ago than the task allows, and the task goes on. Where the pool is
/// gone, the task stops.
pub proof fn law_task_sweeps<K, B, E>(now: u128)
    requires
        vstd::std_specs::hash::obeys_key_model::<K>(),
    ensures
        forall|task: &mut IdleTask, pool: Option<&mut ConnectionPool<K, B, E>>|
            task.stage is Pool ==> #[trigger] call_requires(
                IdleTask::sweep_at::<K, B, E>,
                (task, pool, now),
            ),
        forall|task: &mut IdleTask, pool: Option<&mut ConnectionPool<K, B, E>>|
            task.stage is Pool ==> #[trigger] call_requires(
                IdleTask::sweep::<K, B, E>,
                (task, pool),
            ),
        forall|task: &mut IdleTask, pool: &mut ConnectionPool<K, B, E>, action: IdleAction|
            task.stage is Pool && #[trigger] call_ensures(
                IdleTask::sweep_at::<K, B, E>,
                (task, Some(pool), now),
                action,
            ) ==> {
                &&& action is PollClosed
                &&& final(task).stage is Closed
                &&& final(task).idle_dur == task.idle_dur
                &&& final(pool)@.max_idle == pool@.max_idle
                &&& final(pool)@.idle_dur == pool@.idle_dur
                &&& final(pool)@.clock == pool@.clock
                &&& final(pool)@.home == pool@.home
                &&& forall|k: K| #[trigger]
                    final(pool)@.queue(k) == pool@.queue(k).filter(
                        |idle: IdleConnection<B, E>| now <= idle.idle_at + task.idle_dur,
                    )
            },
        forall|task: &mut IdleTask, pool: &mut ConnectionPool<K, B, E>, action: IdleAction|
            task.stage is Pool && #[trigger] call_ensures(
                IdleTask::sweep::<K, B, E>,
                (task, Some(pool)),
                action,
            ) ==> {
                &&& action is PollClosed
                &&& final(task).stage is Closed
                &&& final(task).idle_dur == task.idle_dur
                &&& exists|time: u128| #[trigger]
                    pool@.showed(time) && forall|k: K| #[trigger]
                        final(pool)@.queue(k) == pool@.queue(k).filter(
                            |idle: IdleConnection<B, E>| time <= idle.idle_at + task.idle_dur,
                        )
            },
        forall|task: &mut IdleTask, action: IdleAction|
            task.stage is Pool && #[trigger] call_ensures(
                IdleTask::sweep_at::<K, B, E>,
                (task, None::<&mut ConnectionPool<K, B, E>>, now),
                action,
            ) ==> action is Exit && final(task).stage is Finished,
        forall|task: &mut IdleTask, action: IdleAction|
            task.stage is Pool && #[trigger] call_ensures(
                IdleTask::sweep::<K, B, E>,
                (task, None::<&mut ConnectionPool<K, B, E>>),
                action,
            ) ==> action is Exit && final(task).stage is Finished,
{
    assert forall|task: &mut IdleTask, pool: &mut ConnectionPool<K, B, E>, action: IdleAction|
        task.stage is Pool && #[trigger] call_ensures(
            IdleTask::sweep_at::<K, B, E>,
            (task, Some(pool), now),
            action,
        ) implies forall|k: K| #[trigger]
        final(pool)@.queue(k) == pool@.queue(k).filter(
            |idle: IdleConnection<B, E>| now <= idle.idle_at + task.idle_dur,
        ) by {
        super::pool::lemma_swept_queues(pool@, now, task.idle_dur);
    }
    assert forall|task: &mut IdleTask, pool: &mut ConnectionPool<K, B, E>, action: IdleAction|
        task.stage is Pool && #[trigger] call_ensures(
            IdleTask::sweep::<K, B, E>,
            (task, Some(pool)),
            action,
        ) implies exists|time: u128| #[trigger]
        pool@.showed(time) && forall|k: K| #[trigger]
            final(pool)@.queue(k) == pool@.queue(k).filter(
                |idle: IdleConnection<B, E>| time <= idle.idle_at + task.idle_dur,
            ) by {
        let time = choose|time: u128|
            pool@.showed(time) && final(pool)@ == #[trigger] pool@.swept(time, task.idle_dur);
        super::pool::lemma_swept_queues(pool@, time, task.idle_dur);
        assert(pool@.showed(time));
    }
}

} // verus!
