//! The phases of a frame and their order.

use vstd::prelude::*;

verus! {

/// The phases of a frame, in the order in which they run.
#[derive(Clone, Copy, Debug, PartialEq, Eq, Structural)]
pub enum FramePhase {
    /// Computation on the host; uniform values may be written.
    Immediate,
    /// The buffers that changed are written.
    Update,
    /// The commands are recorded; no buffer is written.
    Record,
}

/// The token of one phase of one frame: the phase, the frame-in-flight slot
/// that the frame uses, and, in the record phase, whether a buffer was
/// written in the frame's update phase.
#[derive(Clone, Copy, Debug, PartialEq, Eq, Structural)]
pub struct FrameContext {
    pub phase: FramePhase,
    pub slot: usize,
    pub changed: bool,
}

/// What the frame loop reports when a phase has run.
#[derive(Clone, Copy, Debug, PartialEq, Eq, Structural)]
pub enum FrameEvent {
    ImmediateDone,
    /// The update phase has run; `changed` says whether any buffer was
    /// written in it.
    UpdateDone { changed: bool },
    RecordDone,
}

/// A report that does not belong to the phase that is running.
#[derive(Clone, Copy, Debug, PartialEq, Eq, Structural)]
pub enum FrameError {
    OutOfOrder,
}

impl FrameContext {
    /// Whether buffers may be written in the phase: in every phase but the
    /// record phase.
    pub open spec fn may_write_spec(self) -> bool {
        self.phase != FramePhase::Record
    }

    /// Tells whether buffers may be written in the phase.
    pub fn may_write(&self) -> (r: bool)
        ensures
            r == self.may_write_spec(),
    {
        match self.phase {
            FramePhase::Record => false,
            _ => true,
        }
    }
}

/// The token that follows `ctx` on the report `event`, with `slots` frames
/// in flight: each phase is followed by the next on its own report, the
/// record phase by the immediate phase of the next frame, which uses the
/// next slot; any other report has no successor.
pub open spec fn next_context(ctx: FrameContext, slots: nat, event: FrameEvent) -> Option<
    FrameContext,
> {
    match (ctx.phase, event) {
        (FramePhase::Immediate, FrameEvent::ImmediateDone) => Some(
            FrameContext { phase: FramePhase::Update, slot: ctx.slot, changed: false },
        ),
        (FramePhase::Update, FrameEvent::UpdateDone { changed }) => Some(
            FrameContext { phase: FramePhase::Record, slot: ctx.slot, changed },
        ),
        (FramePhase::Record, FrameEvent::RecordDone) => Some(
            FrameContext {
                phase: FramePhase::Immediate,
                slot: if ctx.slot + 1 < slots {
                    (ctx.slot + 1) as usize
                } else {
                    0
                },
                changed: false,
            },
        ),
        _ => None,
    }
}

/// One frame runs its three phases in order and ends where the next frame
/// begins: from the immediate phase, the three reports in order lead
/// through the update and the record phase to the immediate phase of the
/// next slot.
pub proof fn lemma_frame_cycle(ctx: FrameContext, slots: nat, changed: bool)
    requires
        ctx.phase == FramePhase::Immediate,
    ensures
        ({
            let update = next_context(ctx, slots, FrameEvent::ImmediateDone);
            let record = next_context(update->0, slots, FrameEvent::UpdateDone { changed });
            let next = next_context(record->0, slots, FrameEvent::RecordDone);
            &&& update is Some && update->0.phase == FramePhase::Update
            &&& record is Some && record->0.phase == FramePhase::Record && record->0.changed
                == changed
            &&& next is Some && next->0.phase == FramePhase::Immediate
            &&& update->0.slot == ctx.slot && record->0.slot == ctx.slot
            &&& next->0.slot == (if ctx.slot + 1 < slots {
                (ctx.slot + 1) as usize
            } else {
                0
            })
        }),
{
}

/// The update phase is reached only from the immediate phase, and the
/// record phase only from the update phase.
pub proof fn lemma_phase_order(ctx: FrameContext, slots: nat, event: FrameEvent)
    requires
        next_context(ctx, slots, event) is Some,
    ensures
        next_context(ctx, slots, event)->0.phase == FramePhase::Update ==> ctx.phase
            == FramePhase::Immediate,
        next_context(ctx, slots, event)->0.phase == FramePhase::Record ==> ctx.phase
            == FramePhase::Update,
        next_context(ctx, slots, event)->0.phase == FramePhase::Immediate ==> ctx.phase
            == FramePhase::Record,
{
}

/// Whether any of the reports says that a buffer was written.
pub open spec fn any_changed_spec(reports: Seq<bool>) -> bool {
    exists|i: int| 0 <= i < reports.len() && #[trigger] reports[i]
}

/// Tells whether any buffer reports that it was written.
pub fn any_changed(reports: &Vec<bool>) -> (r: bool)
    ensures
        r == any_changed_spec(reports@),
{
    let mut i: usize = 0;
    while i < reports.len()
        invariant
            i <= reports.len(),
            forall|k: int| 0 <= k < i ==> !#[trigger] reports@[k],
        decreases reports.len() - i,
    {
        if reports[i] {
            return true;
        }
        i = i + 1;
    }
    false
}

/// The controller of the frame loop: it knows which phase of which frame
/// runs, and moves on when the phase is reported done.
pub struct FrameController {
    ctx: FrameContext,
    slots: usize,
}

impl FrameController {
    /// The token of the phase that runs.
    pub closed spec fn context_spec(&self) -> FrameContext {
        self.ctx
    }

    /// The number of frames in flight.
    pub closed spec fn slots_spec(&self) -> nat {
        self.slots as nat
    }

    #[verifier::type_invariant]
    spec fn inv(&self) -> bool {
        self.ctx.slot < self.slots
    }

    /// Makes a controller for `slots` frames in flight, at the immediate
    /// phase of the first. There is none for no frame in flight.
    pub fn new(slots: usize) -> (made: Option<FrameController>)
        ensures
            made is Some <==> slots > 0,
            made matches Some(c) ==> c.slots_spec() == slots && c.context_spec() == (FrameContext {
                phase: FramePhase::Immediate,
                slot: 0,
                changed: false,
            }),
    {
        if slots == 0 {
            None
        } else {
            Some(
                FrameController {
                    ctx: FrameContext { phase: FramePhase::Immediate, slot: 0, changed: false },
                    slots,
                },
            )
        }
    }

    /// Returns the token of the phase that runs.
    pub fn context(&self) -> (ctx: FrameContext)
        ensures
            ctx == self.context_spec(),
            ctx.slot < self.slots_spec(),
    {
        proof {
            use_type_invariant(self);
        }
        self.ctx
    }

    /// Takes the report that a phase is done, and returns the token of the
    /// phase that runs next. A report that does not belong to the running
    /// phase is refused and changes nothing.
    pub fn step(&mut self, event: FrameEvent) -> (r: Result<FrameContext, FrameError>)
        ensures
            final(self).slots_spec() == old(self).slots_spec(),
            match next_context(old(self).context_spec(), old(self).slots_spec(), event) {
                Some(next) => r == Ok::<FrameContext, FrameError>(next) && final(self).context_spec()
                    == next,
                None => r == Err::<FrameContext, FrameError>(FrameError::OutOfOrder)
                    && final(self).context_spec() == old(self).context_spec(),
            },
    {
        proof {
            use_type_invariant(&*self);
        }
        let next = match (self.ctx.phase, event) {
            (FramePhase::Immediate, FrameEvent::ImmediateDone) => FrameContext {
                phase: FramePhase::Update,
                slot: self.ctx.slot,
                changed: false,
            },
            (FramePhase::Update, FrameEvent::UpdateDone { changed }) => FrameContext {
                phase: FramePhase::Record,
                slot: self.ctx.slot,
                changed,
            },
            (FramePhase::Record, FrameEvent::RecordDone) => FrameContext {
                phase: FramePhase::Immediate,
                slot: if self.ctx.slot + 1 < self.slots {
                    self.ctx.slot + 1
                } else {
                    0
                },
                changed: false,
            },
            _ => {
                return Err(FrameError::OutOfOrder);
            },
        };
        self.ctx = next;
        Ok(next)
    }
}

} // verus!
