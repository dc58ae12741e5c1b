//! The task that keeps a pool free of connections that are idle for too long.
use vstd::prelude::*;

use super::pool::ConnectionPool;

verus! {

/// What an [`IdleTask`] waits for.
#[derive(Debug, Clone, Copy, PartialEq, Eq, Structural)]
pub enum IdleStage {
    /// Whether the pool has been closed.
    Closed,
    /// Whether the interval is over.
    Tick,
    /// Whether the pool still is there.
    Pool,
    /// To be polled again.
    Polled,
    /// Nothing: the task is over.
    Finished,
}

/// An answer to an [`IdleAction`].
#[derive(Debug, Clone, Copy, PartialEq, Eq, Structural)]
pub enum IdleEvent {
    /// The task is polled again.
    Polled,
    /// Whether the pool has been closed.
    Closed(bool),
    /// Whether the interval is over.
    Tick(bool),
    /// Whether the pool still was there; it then was swept. Only a sweep answers this.
    Pool(bool),
}

/// What is to be done.
#[derive(Debug, Clone, Copy, PartialEq, Eq, Structural)]
pub enum IdleAction {
    /// Look whether the pool has been closed.
    PollClosed,
    /// Look whether the interval is over.
    PollTick,
    /// Look whether the pool still is there, and sweep it.
    Sweep,
    /// Wait to be polled again.
    Pending,
    /// Stop.
    Exit,
}

impl IdleStage {
    /// Whether `event` answers what the task waits for.
    pub open spec fn awaits(self, event: IdleEvent) -> bool {
        match event {
            IdleEvent::Polled => self == IdleStage::Polled,
            IdleEvent::Closed(_) => self == IdleStage::Closed,
            IdleEvent::Tick(_) => self == IdleStage::Tick,
            IdleEvent::Pool(_) => self == IdleStage::Pool,
        }
    }

    /// What an awaited event leads to.
    pub open spec fn after(self, event: IdleEvent) -> (IdleStage, IdleAction) {
        match event {
            IdleEvent::Polled => (IdleStage::Closed, IdleAction::PollClosed),
            IdleEvent::Closed(true) => (IdleStage::Finished, IdleAction::Exit),
            IdleEvent::Closed(false) => (IdleStage::Tick, IdleAction::PollTick),
            IdleEvent::Tick(true) => (IdleStage::Pool, IdleAction::Sweep),
            IdleEvent::Tick(false) => (IdleStage::Polled, IdleAction::Pending),
            IdleEvent::Pool(true) => (IdleStage::Closed, IdleAction::PollClosed),
            IdleEvent::Pool(false) => (IdleStage::Finished, IdleAction::Exit),
        }
    }
}

/// Keeps a pool free of connections that are idle for too long.
pub struct IdleTask {
    /// How long, in nanoseconds, a connection may be idle.
    pub idle_dur: u128,
    pub stage: IdleStage,
}

impl IdleTask {
    pub fn new(idle_dur: u128) -> (task: Self)
        ensures
            task == (IdleTask { idle_dur, stage: IdleStage::Polled }),
    {
        IdleTask { idle_dur, stage: IdleStage::Polled }
    }

    /// Takes the answer to the action before, and says what to do next. Whether the pool was swept is
    /// answered by [`IdleTask::sweep`] and [`IdleTask::sweep_at`] alone, which do it.
    pub fn step(&mut self, event: IdleEvent) -> (action: IdleAction)
        requires
            old(self).stage.awaits(event),
            !(event is Pool),
        ensures
            (final(self).stage, action) == old(self).stage.after(event),
            final(self).idle_dur == old(self).idle_dur,
    {
        self.turn(event)
    }

    /// Takes an answer, and says what to do next.
    fn turn(&mut self, event: IdleEvent) -> (action: IdleAction)
        requires
            old(self).stage.awaits(event),
        ensures
            (final(self).stage, action) == old(self).stage.after(event),
            final(self).idle_dur == old(self).idle_dur,
    {
        let (stage, action) = match event {
            IdleEvent::Polled => (IdleStage::Closed, IdleAction::PollClosed),
            IdleEvent::Closed(closed) => if closed {
                (IdleStage::Finished, IdleAction::Exit)
            } else {
                (IdleStage::Tick, IdleAction::PollTick)
            },
            IdleEvent::Tick(over) => if over {
                (IdleStage::Pool, IdleAction::Sweep)
            } else {
                (IdleStage::Polled, IdleAction::Pending)
            },
            IdleEvent::Pool(there) => if there {
                (IdleStage::Closed, IdleAction::PollClosed)
            } else {
                (IdleStage::Finished, IdleAction::Exit)
            },
        };
        self.stage = stage;
        action
    }

    /// Sweeps the pool at `now`, if it still is there, and says what to do next.
    pub fn sweep_at<K, B, E>(
        &mut self,
        pool: Option<&mut ConnectionPool<K, B, E>>,
        now: u128,
    ) -> (action: IdleAction)
        requires
            old(self).stage == IdleStage::Pool,
        ensures
            (final(self).stage, action) == old(self).stage.after(IdleEvent::Pool(pool is Some)),
            final(self).idle_dur == old(self).idle_dur,
            pool matches Some(p) ==> final(p)@.same_settings(p@),
            pool matches Some(p) ==> (vstd::std_specs::hash::obeys_key_model::<K>()
                ==> final(p)@ == p@.swept(now, old(self).idle_dur)),
    {
        match pool {
            Some(pool) => {
                pool.clear_expired_at(now, self.idle_dur);
                self.turn(IdleEvent::Pool(true))
            },
            None => self.turn(IdleEvent::Pool(false)),
        }
    }

    /// Sweeps the pool, if it still is there, and says what to do next.
    pub fn sweep<K, B, E>(&mut self, pool: Option<&mut ConnectionPool<K, B, E>>) -> (action:
        IdleAction)
        requires
            old(self).stage == IdleStage::Pool,
        ensures
            (final(self).stage, action) == old(self).stage.after(IdleEvent::Pool(pool is Some)),
            final(self).idle_dur == old(self).idle_dur,
            pool matches Some(p) ==> final(p)@.same_settings(p@),
            pool matches Some(p) ==> (vstd::std_specs::hash::obeys_key_model::<K>()
                ==> exists|now: u128|
                p@.showed(now) && final(p)@ == #[trigger] p@.swept(now, old(self).idle_dur)),
    {
        match pool {
            Some(pool) => {
                let now: u128 = pool.now();
                self.sweep_at(Some(pool), now)
            },
            None => self.turn(IdleEvent::Pool(false)),
        }
    }
}

/// What an idle task waits for after `events`.
pub open spec fn idle_stage_after(events: Seq<IdleEvent>) -> IdleStage
    decreases events.len(),
{
    if events.len() == 0 {
        IdleStage::Polled
    } else {
        idle_stage_after(events.drop_last()).after(events.last()).0
    }
}

/// Whether each of `events` answers the action before it.
pub open spec fn is_idle_history(events: Seq<IdleEvent>) -> bool
    decreases events.len(),
{
    events.len() > 0 ==> {
        &&& is_idle_history(events.drop_last())
        &&& idle_stage_after(events.drop_last()).awaits(events.last())
    }
}

/// How many of `events` are `event`.
pub open spec fn count(events: Seq<IdleEvent>, event: IdleEvent) -> nat
    decreases events.len(),
{
    if events.len() == 0 {
        0
    } else {
        count(events.drop_last(), event) + (if events.last() == event {
            1nat
        } else {
            0nat
        })
    }
}

/// An idle task stops only where the pool was closed or is gone, and then waits for nothing.
pub proof fn law_idle_stops(events: Seq<IdleEvent>, event: IdleEvent)
    requires
        is_idle_history(events),
    ensures
        idle_stage_after(events) == IdleStage::Finished <==> events.len() > 0 && (events.last()
            == IdleEvent::Closed(true) || events.last() == IdleEvent::Pool(false)),
        idle_stage_after(events) == IdleStage::Finished ==> !is_idle_history(events.push(event)),
{
    assert(events.push(event).drop_last() =~= events);
}

/// The pool is swept once for each interval that is over, and never else.
pub proof fn law_one_sweep_per_interval(events: Seq<IdleEvent>)
    requires
        is_idle_history(events),
    ensures
        count(events, IdleEvent::Tick(true)) == count(events, IdleEvent::Pool(true)) + count(
            events,
            IdleEvent::Pool(false),
        ) + (if idle_stage_after(events) == IdleStage::Pool {
            1nat
        } else {
            0nat
        }),
        count(events, IdleEvent::Pool(false)) <= 1,
        count(events, IdleEvent::Pool(false)) == 1 ==> idle_stage_after(events)
            == IdleStage::Finished,
    decreases events.len(),
{
    if events.len() > 0 {
        law_one_sweep_per_interval(events.drop_last());
    }
}

} // verus!
