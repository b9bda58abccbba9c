//! The render actor's mailbox and the order of its work.
//!
//! The window thread never waits for the actor: it leaves wakes, controls and
//! activations in one bounded mailbox, and the actor takes them in batches.
use std::collections::VecDeque;

use vstd::prelude::*;

verus! {

pub const ACTIVATION_CAPACITY: usize = 8;

#[derive(Clone, Copy, Debug, PartialEq, Eq, Structural)]
pub struct Controls {
    pub close: bool,
    pub reopen: bool,
    pub save_as: bool,
}

/// What waits for the actor. `G` is the window's geometry, `T` an activated
/// path.
pub struct Pending<G, T> {
    pub wake: bool,
    pub geometry: G,
    pub controls: Controls,
    pub retire: bool,
    pub activations: VecDeque<T>,
}

/// The mathematical content of a [`Pending`].
pub struct Mailbox<G, T> {
    pub wake: bool,
    pub geometry: G,
    pub controls: Controls,
    pub retire: bool,
    pub activations: Seq<T>,
}

impl<G, T> View for Pending<G, T> {
    type V = Mailbox<G, T>;

    open spec fn view(&self) -> Mailbox<G, T> {
        Mailbox {
            wake: self.wake,
            geometry: self.geometry,
            controls: self.controls,
            retire: self.retire,
            activations: self.activations@,
        }
    }
}

/// An activation found no place.
#[derive(Clone, Copy, Debug, PartialEq, Eq, Structural)]
pub struct ActivationFull;

impl ActivationFull {
    pub fn message(self) -> (r: &'static str)
        ensures
            r@ == "파일 열기 요청이 가득 찼거나 종료 중입니다"@,
    {
        "파일 열기 요청이 가득 찼거나 종료 중입니다"
    }
}

pub open spec fn no_controls() -> Controls {
    Controls { close: false, reopen: false, save_as: false }
}

impl<G, T> Mailbox<G, T> {
    pub open spec fn wf(self) -> bool {
        self.activations.len() <= ACTIVATION_CAPACITY
    }

    pub open spec fn empty(geometry: G, retire: bool) -> Self {
        Mailbox {
            wake: false,
            geometry,
            controls: no_controls(),
            retire,
            activations: Seq::empty(),
        }
    }

    pub open spec fn woken(self) -> Self {
        Mailbox { wake: true, ..self }
    }

    pub open spec fn with_controls(self, controls: Controls) -> Self {
        Mailbox { controls, ..self.woken() }
    }

    pub open spec fn takes_activations(self) -> bool {
        !self.retire && !self.controls.close && self.activations.len() < ACTIVATION_CAPACITY
    }
}

impl<G: Copy, T> Pending<G, T> {
    pub fn new(geometry: G) -> (r: Self)
        ensures
            r@ == Mailbox::<G, T>::empty(geometry, false),
            r@.wf(),
    {
        let r = Pending {
            wake: false,
            geometry,
            controls: Controls { close: false, reopen: false, save_as: false },
            retire: false,
            activations: VecDeque::new(),
        };
        assert(r@.activations =~= Seq::empty());
        r
    }

    /// Takes everything that waits. The geometry stays, and a retired actor
    /// stays retired.
    pub fn take_batch(&mut self) -> (r: Self)
        ensures
            r@ == old(self)@,
            final(self)@ == Mailbox::<G, T>::empty(old(self)@.geometry, old(self)@.retire),
            final(self)@.wf(),
    {
        let mut batch = Pending {
            wake: false,
            geometry: self.geometry,
            controls: Controls { close: false, reopen: false, save_as: false },
            retire: self.retire,
            activations: VecDeque::new(),
        };
        assert(batch@.activations =~= Seq::empty());
        std::mem::swap(&mut batch, self);
        batch
    }

    /// Leaves an activated path, in order. A closing or retired actor takes
    /// none, nor does a full mailbox.
    pub fn activate(&mut self, path: T) -> (r: Result<(), ActivationFull>)
        ensures
            r is Ok <==> old(self)@.takes_activations(),
            final(self)@ == (if r is Ok {
                Mailbox {
                    activations: old(self)@.activations.push(path),
                    ..old(self)@.woken()
                }
            } else {
                old(self)@
            }),
            old(self)@.wf() ==> final(self)@.wf(),
    {
        if self.retire || self.controls.close || self.activations.len() >= ACTIVATION_CAPACITY {
            return Err(ActivationFull);
        }
        self.activations.push_back(path);
        self.wake = true;
        Ok(())
    }

    pub fn wake(&mut self)
        ensures
            final(self)@ == old(self)@.woken(),
    {
        self.wake = true;
    }

    /// Only the latest geometry counts.
    pub fn geometry(&mut self, geometry: G)
        ensures
            final(self)@ == (Mailbox { geometry, ..old(self)@.woken() }),
    {
        self.geometry = geometry;
        self.wake = true;
    }

    pub fn close(&mut self)
        ensures
            final(self)@ == old(self)@.with_controls(
                Controls { close: true, ..old(self)@.controls },
            ),
    {
        self.controls = Controls { close: true, ..self.controls };
        self.wake = true;
    }

    pub fn reopen(&mut self)
        ensures
            final(self)@ == old(self)@.with_controls(
                Controls { reopen: true, ..old(self)@.controls },
            ),
    {
        self.controls = Controls { reopen: true, ..self.controls };
        self.wake = true;
    }

    pub fn save_as(&mut self)
        ensures
            final(self)@ == old(self)@.with_controls(
                Controls { save_as: true, ..old(self)@.controls },
            ),
    {
        self.controls = Controls { save_as: true, ..self.controls };
        self.wake = true;
    }

    pub fn retire(&mut self)
        ensures
            final(self)@ == (Mailbox { retire: true, ..old(self)@.woken() }),
    {
        self.retire = true;
        self.wake = true;
    }

    /// The batch holds more than a plain frame.
    pub fn is_control_boundary(&self) -> (r: bool)
        ensures
            r == (self@.retire || self@.controls != no_controls() || self@.activations.len() > 0),
    {
        self.retire || self.controls.close || self.controls.reopen || self.controls.save_as
            || self.activations.len() > 0
    }
}

/// How the actor waits for its mailbox.
#[derive(Clone, Copy, Debug, PartialEq, Eq, Structural)]
pub enum ActorWait {
    /// Until something is left there.
    Sleep,
    /// Shortly: a close or a copy is being watched.
    Poll,
    Nothing,
}

pub fn actor_wait(wake: bool, closing: bool, saving_as: bool) -> (r: ActorWait)
    ensures
        r == (if wake {
            ActorWait::Nothing
        } else if closing || saving_as {
            ActorWait::Poll
        } else {
            ActorWait::Sleep
        }),
{
    if wake {
        ActorWait::Nothing
    } else if closing || saving_as {
        ActorWait::Poll
    } else {
        ActorWait::Sleep
    }
}

/// The steps of a batch, in order.
#[derive(Clone, Copy, Debug, PartialEq, Eq, Structural)]
pub enum ActorStage {
    Resize,
    SaveAs,
    /// Open the activated paths, oldest first.
    Activate,
    /// Close and suspend the canvas; the actor ends.
    Retire,
    Reopen,
    Close,
    PollClose,
    Render,
    /// The batch is done.
    Done,
    Ended,
}

/// What a batch asks for. `closing` is what holds when the stage is over.
#[derive(Clone, Copy, Debug, PartialEq, Eq, Structural)]
pub struct BatchFacts {
    pub controls: Controls,
    pub has_activations: bool,
    pub retire: bool,
    pub closing: bool,
}

impl ActorStage {
    pub open spec fn number(self) -> int {
        match self {
            ActorStage::Resize => 0,
            ActorStage::SaveAs => 1,
            ActorStage::Activate => 2,
            ActorStage::Retire => 3,
            ActorStage::Reopen => 4,
            ActorStage::Close => 5,
            ActorStage::PollClose => 6,
            ActorStage::Render => 7,
            ActorStage::Done => 8,
            ActorStage::Ended => 8,
        }
    }

    pub open spec fn shown(facts: BatchFacts) -> ActorStage {
        if facts.closing { ActorStage::PollClose } else { ActorStage::Render }
    }

    pub open spec fn closed(facts: BatchFacts) -> ActorStage {
        if facts.controls.close { ActorStage::Close } else { ActorStage::shown(facts) }
    }

    pub open spec fn activated(facts: BatchFacts) -> ActorStage {
        if facts.retire {
            ActorStage::Retire
        } else if facts.controls.reopen {
            ActorStage::Reopen
        } else {
            ActorStage::closed(facts)
        }
    }

    pub open spec fn saved(facts: BatchFacts) -> ActorStage {
        if facts.has_activations { ActorStage::Activate } else { ActorStage::activated(facts) }
    }

    pub open spec fn followed_by(self, facts: BatchFacts) -> ActorStage {
        match self {
            ActorStage::Resize => if facts.controls.save_as {
                ActorStage::SaveAs
            } else {
                ActorStage::saved(facts)
            },
            ActorStage::SaveAs => ActorStage::saved(facts),
            ActorStage::Activate => ActorStage::activated(facts),
            ActorStage::Retire => ActorStage::Ended,
            ActorStage::Reopen => ActorStage::closed(facts),
            ActorStage::Close => ActorStage::PollClose,
            ActorStage::PollClose => ActorStage::Done,
            ActorStage::Render => ActorStage::Done,
            ActorStage::Done => ActorStage::Done,
            ActorStage::Ended => ActorStage::Ended,
        }
    }

    fn after_reopen(facts: BatchFacts) -> (r: ActorStage)
        ensures
            r == ActorStage::closed(facts),
    {
        if facts.controls.close {
            ActorStage::Close
        } else if facts.closing {
            ActorStage::PollClose
        } else {
            ActorStage::Render
        }
    }

    fn after_activation(facts: BatchFacts) -> (r: ActorStage)
        ensures
            r == ActorStage::activated(facts),
    {
        if facts.retire {
            ActorStage::Retire
        } else if facts.controls.reopen {
            ActorStage::Reopen
        } else {
            Self::after_reopen(facts)
        }
    }

    fn after_save(facts: BatchFacts) -> (r: ActorStage)
        ensures
            r == ActorStage::saved(facts),
    {
        if facts.has_activations {
            ActorStage::Activate
        } else {
            Self::after_activation(facts)
        }
    }

    /// The stage after this one. Everything accepted before a retirement is
    /// carried out before it.
    pub fn next(self, facts: BatchFacts) -> (r: ActorStage)
        ensures
            r == self.followed_by(facts),
    {
        match self {
            ActorStage::Resize => {
                if facts.controls.save_as {
                    ActorStage::SaveAs
                } else {
                    Self::after_save(facts)
                }
            },
            ActorStage::SaveAs => Self::after_save(facts),
            ActorStage::Activate => Self::after_activation(facts),
            ActorStage::Retire => ActorStage::Ended,
            ActorStage::Reopen => Self::after_reopen(facts),
            ActorStage::Close => ActorStage::PollClose,
            ActorStage::PollClose => ActorStage::Done,
            ActorStage::Render => ActorStage::Done,
            ActorStage::Done => ActorStage::Done,
            ActorStage::Ended => ActorStage::Ended,
        }
    }
}

/// The life of the actor's thread.
#[derive(Clone, Copy, Debug, PartialEq, Eq, Structural)]
pub struct RenderActor {
    pub started: bool,
    pub finished: bool,
    pub surface_retired: bool,
    /// A thread has to be joined.
    pub worker: bool,
}

impl RenderActor {
    pub open spec fn unstarted() -> RenderActor {
        RenderActor { started: false, finished: true, surface_retired: true, worker: false }
    }

    pub fn new() -> (r: Self)
        ensures
            r == RenderActor::unstarted(),
    {
        RenderActor { started: false, finished: true, surface_retired: true, worker: false }
    }

    /// Whether the thread has to be started. That happens once, and never for
    /// a retired actor or a window that is gone.
    pub fn start(&mut self, parent_alive: bool, retired: bool) -> (spawn: bool)
        ensures
            spawn == (!old(self).started && parent_alive && !retired),
            *final(self) == (RenderActor {
                started: true,
                finished: old(self).finished && !spawn,
                surface_retired: old(self).surface_retired && !spawn,
                ..*old(self)
            }),
    {
        let first = !self.started;
        self.started = true;
        if first && parent_alive && !retired {
            self.finished = false;
            self.surface_retired = false;
            return true;
        }
        false
    }

    /// Whether the thread could be started.
    pub fn spawned(&mut self, succeeded: bool)
        ensures
            *final(self) == (if succeeded {
                RenderActor { worker: true, ..*old(self) }
            } else {
                RenderActor { finished: true, surface_retired: true, ..*old(self) }
            }),
    {
        if succeeded {
            self.worker = true;
        } else {
            self.finished = true;
            self.surface_retired = true;
        }
    }

    /// The actor's surface is gone; its thread is about to end.
    pub fn run_ended(&mut self)
        ensures
            *final(self) == (RenderActor { finished: true, surface_retired: true, ..*old(self) }),
    {
        self.surface_retired = true;
        self.finished = true;
    }

    /// The actor is over. Its thread is joined only once it has really ended.
    pub fn finished(&mut self, thread_ended: bool) -> (r: bool)
        ensures
            r == (old(self).finished && (!old(self).worker || thread_ended)),
            *final(self) == (RenderActor { worker: old(self).worker && !r, ..*old(self) }),
    {
        if !self.finished || (self.worker && !thread_ended) {
            return false;
        }
        self.worker = false;
        true
    }
}

/// Batches hand over every accepted activation, in the order of acceptance,
/// and none of them twice.
pub proof fn batches_keep_activation_order<G, T>(pending: Mailbox<G, T>, path: T)
    requires
        pending.wf(),
        pending.takes_activations(),
    ensures
        ({
            let after = Mailbox { activations: pending.activations.push(path), ..pending.woken() };
            &&& after.wf()
            &&& after.activations.last() == path
            &&& after.activations.drop_last() == pending.activations
            &&& Mailbox::<G, T>::empty(after.geometry, after.retire).activations.len() == 0
        }),
{
    assert(pending.activations.push(path).drop_last() =~= pending.activations);
}

/// A retired actor takes no activation, in this batch or any later one.
pub proof fn retirement_is_final<G, T>(pending: Mailbox<G, T>)
    requires
        pending.retire,
    ensures
        !pending.takes_activations(),
        Mailbox::<G, T>::empty(pending.geometry, pending.retire).retire,
{
}

/// A batch moves forward, and carries out copies and activations before it
/// retires the actor.
pub proof fn batches_move_forward(stage: ActorStage, facts: BatchFacts)
    ensures
        stage.number() < 8 ==> stage.followed_by(facts).number() > stage.number(),
        facts.has_activations && stage.followed_by(facts) is Retire ==> stage is Activate,
        facts.retire ==> !(stage.followed_by(facts) is Render) || stage is Reopen,
        stage.followed_by(facts) is Ended <==> stage is Retire || stage is Ended,
{
}

} // verus!
