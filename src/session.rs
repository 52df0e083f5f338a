use vstd::prelude::*;

use crate::rom::{flash_bank_erase, program_call, program_spec, sector_erase_call, sector_erase_spec, RomCall};
use crate::status::{decode_flash_status, decoded, FlashError};

verus! {

/// The processor state that a session brackets: the instruction-cache
/// control register and the global interrupt enable.
#[derive(Clone, Copy, Debug, PartialEq, Eq, Structural)]
pub struct MachineState {
    pub cache_ctrl: u32,
    pub interrupts_enabled: bool,
}

/// A change to the processor state that the session asks the platform to
/// make, in order.
#[derive(Clone, Copy, Debug, PartialEq, Eq, Structural)]
pub enum Effect {
    WriteCacheCtrl(u32),
    DisableInterrupts,
    EnableInterrupts,
}

/// The state after making one change `e` to `m`.
pub open spec fn apply_effect(m: MachineState, e: Effect) -> MachineState {
    match e {
        Effect::WriteCacheCtrl(v) => MachineState { cache_ctrl: v, ..m },
        Effect::DisableInterrupts => MachineState { interrupts_enabled: false, ..m },
        Effect::EnableInterrupts => MachineState { interrupts_enabled: true, ..m },
    }
}

/// The state after making `es` in order, starting from `m`.
pub open spec fn apply_effects(m: MachineState, es: Seq<Effect>) -> MachineState
    decreases es.len(),
{
    if es.len() == 0 {
        m
    } else {
        apply_effect(apply_effects(m, es.drop_last()), es.last())
    }
}

/// What a session asks for when it starts: switch the instruction cache
/// off, then mask interrupts.
pub open spec fn start_effects() -> Seq<Effect> {
    seq![Effect::WriteCacheCtrl(0), Effect::DisableInterrupts]
}

/// What a session asks for when it ends: put back the cache control value
/// that it saved, then unmask interrupts.
pub open spec fn end_effects(saved_cache_ctrl: u32) -> Seq<Effect> {
    seq![Effect::WriteCacheCtrl(saved_cache_ctrl), Effect::EnableInterrupts]
}

impl MachineState {
    /// Makes one change.
    pub fn apply(&mut self, e: Effect)
        ensures
            *final(self) == apply_effect(*old(self), e),
    {
        match e {
            Effect::WriteCacheCtrl(v) => self.cache_ctrl = v,
            Effect::DisableInterrupts => self.interrupts_enabled = false,
            Effect::EnableInterrupts => self.interrupts_enabled = true,
        }
    }

    /// Makes the changes of `es` in order.
    pub fn apply_all(&mut self, es: &[Effect])
        ensures
            *final(self) == apply_effects(*old(self), es@),
    {
        let mut i: usize = 0;
        while i < es.len()
            invariant
                i <= es@.len(),
                *self == apply_effects(*old(self), es@.take(i as int)),
            decreases es@.len() - i,
        {
            assert(es@.take(i + 1).drop_last() == es@.take(i as int));
            self.apply(es[i]);
            i = i + 1;
        }
        assert(es@.take(es@.len() as int) == es@);
    }
}

/// Where a session stands.
#[derive(Clone, Copy, Debug, PartialEq, Eq, Structural)]
pub enum Phase {
    /// Started, with no ROM call in flight.
    Active,
    /// A ROM call has been handed out and its status is awaited.
    Awaiting(RomCall),
    /// Ended; the processor state has been handed back.
    TornDown,
}

/// The state of a session.
#[derive(Clone, Copy, Debug, PartialEq, Eq, Structural)]
pub struct SessionState {
    pub saved_cache_ctrl: u32,
    pub phase: Phase,
}

/// A step of a session between its start and its end.
#[derive(Clone, Copy, Debug, PartialEq, Eq, Structural)]
pub enum Operation {
    EraseAll,
    EraseSector(u32),
    ProgramPage(u32, u32),
    Complete(u32),
}

impl SessionState {
    /// The state after one step. A step that the session does not take in
    /// its present phase leaves it as it is.
    pub open spec fn after(self, op: Operation) -> SessionState {
        match (self.phase, op) {
            (Phase::Active, Operation::EraseSector(a)) => SessionState {
                phase: Phase::Awaiting(sector_erase_spec(a)),
                ..self
            },
            (Phase::Active, Operation::ProgramPage(a, len)) => SessionState {
                phase: Phase::Awaiting(program_spec(a, len)),
                ..self
            },
            (Phase::Awaiting(_), Operation::Complete(_)) => SessionState {
                phase: Phase::Active,
                ..self
            },
            _ => self,
        }
    }

    /// The state after the steps of `ops` in order.
    pub open spec fn after_all(self, ops: Seq<Operation>) -> SessionState
        decreases ops.len(),
    {
        if ops.len() == 0 {
            self
        } else {
            self.after_all(ops.drop_last()).after(ops.last())
        }
    }
}

/// One flash programming session. Starting it saves the cache control
/// value and asks for the cache to be switched off and interrupts masked;
/// ending it asks for both to be put back.
pub struct Algorithm {
    saved_cache_ctrl: u32,
    phase: Phase,
}

impl View for Algorithm {
    type V = SessionState;

    closed spec fn view(&self) -> SessionState {
        SessionState { saved_cache_ctrl: self.saved_cache_ctrl, phase: self.phase }
    }
}

impl Algorithm {
    /// Starts a session on a processor whose cache control register holds
    /// `cache_ctrl`, and returns it with the changes the platform must make.
    pub fn new(cache_ctrl: u32) -> (r: (Algorithm, [Effect; 2]))
        ensures
            r.0@ == (SessionState { saved_cache_ctrl: cache_ctrl, phase: Phase::Active }),
            r.1@ == start_effects(),
    {
        let effects = [Effect::WriteCacheCtrl(0), Effect::DisableInterrupts];
        (Algorithm { saved_cache_ctrl: cache_ctrl, phase: Phase::Active }, effects)
    }

    /// Where the session stands.
    pub fn phase(&self) -> (r: Phase)
        ensures
            r == self@.phase,
    {
        self.phase
    }

    /// Erases the whole bank, which on this device reports success without
    /// touching the flash.
    pub fn erase_all(&mut self) -> (r: Result<(), FlashError>)
        requires
            old(self)@.phase == Phase::Active,
        ensures
            r == Ok::<(), FlashError>(()),
            final(self)@ == old(self)@.after(Operation::EraseAll),
    {
        let status = flash_bank_erase();
        decode_flash_status(status)
    }

    /// Hands out the ROM call that erases the sector holding `address`.
    pub fn erase_sector(&mut self, address: u32) -> (r: RomCall)
        requires
            old(self)@.phase == Phase::Active,
        ensures
            r == sector_erase_spec(address),
            final(self)@ == old(self)@.after(Operation::EraseSector(address)),
            final(self)@.phase == Phase::Awaiting(r),
    {
        let call = sector_erase_call(address);
        self.phase = Phase::Awaiting(call);
        call
    }

    /// Hands out the ROM call that writes `data` at `address`.
    pub fn program_page(&mut self, address: u32, data: &[u8]) -> (r: RomCall)
        requires
            old(self)@.phase == Phase::Active,
            data@.len() <= u32::MAX,
        ensures
            r == program_spec(address, data@.len() as u32),
            final(self)@ == old(self)@.after(Operation::ProgramPage(address, data@.len() as u32)),
            final(self)@.phase == Phase::Awaiting(r),
    {
        let call = program_call(data, address);
        self.phase = Phase::Awaiting(call);
        call
    }

    /// Takes the status word that the ROM call in flight returned, and
    /// passes on what it means.
    pub fn complete(&mut self, status: u32) -> (r: Result<(), FlashError>)
        requires
            old(self)@.phase is Awaiting,
        ensures
            r == decoded(status),
            final(self)@ == old(self)@.after(Operation::Complete(status)),
            final(self)@.phase == Phase::Active,
    {
        self.phase = Phase::Active;
        decode_flash_status(status)
    }

    /// Ends the session, whatever its operations returned, and returns the
    /// changes that put the processor back as it was.
    pub fn end(&mut self) -> (r: [Effect; 2])
        requires
            old(self)@.phase != Phase::TornDown,
        ensures
            r@ == end_effects(old(self)@.saved_cache_ctrl),
            final(self)@ == (SessionState {
                saved_cache_ctrl: old(self)@.saved_cache_ctrl,
                phase: Phase::TornDown,
            }),
    {
        self.phase = Phase::TornDown;
        [Effect::WriteCacheCtrl(self.saved_cache_ctrl), Effect::EnableInterrupts]
    }
}

/// No step between start and end changes the saved cache control value.
pub proof fn lemma_steps_keep_saved(s: SessionState, ops: Seq<Operation>)
    ensures
        s.after_all(ops).saved_cache_ctrl == s.saved_cache_ctrl,
    decreases ops.len(),
{
    if ops.len() > 0 {
        lemma_steps_keep_saved(s, ops.drop_last());
    }
}

/// Whatever steps a session takes between its start and its end, and
/// whatever they return, making the changes that the start and the end ask
/// for gives back the cache control value from before the start; with
/// interrupts enabled before, the processor is back as it was.
pub proof fn lemma_cache_restored(m: MachineState, ops: Seq<Operation>)
    ensures
        ({
            let s = SessionState { saved_cache_ctrl: m.cache_ctrl, phase: Phase::Active };
            let after = apply_effects(
                apply_effects(m, start_effects()),
                end_effects(s.after_all(ops).saved_cache_ctrl),
            );
            &&& after.cache_ctrl == m.cache_ctrl
            &&& after.interrupts_enabled
            &&& m.interrupts_enabled ==> after == m
        }),
{
    let s = SessionState { saved_cache_ctrl: m.cache_ctrl, phase: Phase::Active };
    lemma_steps_keep_saved(s, ops);
    reveal_with_fuel(apply_effects, 3);
}

/// On a processor with interrupts enabled, they stay enabled until the
/// start of a session has made its last change, are masked from then until
/// the end of the session has made its last change, and are enabled after
/// it. The steps in between ask for no change at all.
pub proof fn lemma_interrupts_masked_during_session(m: MachineState, saved_cache_ctrl: u32)
    requires
        m.interrupts_enabled,
    ensures
        apply_effects(m, start_effects().drop_last()).interrupts_enabled,
        !apply_effects(m, start_effects()).interrupts_enabled,
        !apply_effects(
            apply_effects(m, start_effects()),
            end_effects(saved_cache_ctrl).drop_last(),
        ).interrupts_enabled,
        apply_effects(
            apply_effects(m, start_effects()),
            end_effects(saved_cache_ctrl),
        ).interrupts_enabled,
{
    reveal_with_fuel(apply_effects, 3);
    assert(start_effects().drop_last() =~= seq![Effect::WriteCacheCtrl(0)]);
    assert(end_effects(saved_cache_ctrl).drop_last() =~= seq![Effect::WriteCacheCtrl(saved_cache_ctrl)]);
}

} // verus!
