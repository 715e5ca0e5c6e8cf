use vstd::prelude::*;
use vstd::arithmetic::div_mod::lemma_add_mod_noop;
use crate::boundary::{
    advance_pc, entered_hart, installed_registers, saved_after_trap, trap_exit_of,
    trapped_registers, ContextSwitchReason, TrapExit, INSTRUCTION_WIDTH,
};
use crate::hart::{
    exception_code, is_interrupt_cause, trap_cause_of, HartModel, TrapCause, CAUSE_ECALL_FROM_U,
};
use crate::stored_state::{StoredStateModel, SLOT_SP};

verus! {

/// A return value set in a record is what the process finds in `a0` (`x10`)
/// when it is next resumed, and nothing else that the process is handed
/// differs from what it would have been handed without it.
pub proof fn lemma_return_value_round_trip(
    h: HartModel,
    stack_pointer: usize,
    s: StoredStateModel,
    value: isize,
)
    requires
        s.wf(),
        h.x.len() == 32,
    ensures
        entered_hart(h, stack_pointer, s.with_return_value(value)).x[10] == value as usize,
        forall|n: int|
            0 <= n < 32 && n != 10 ==> #[trigger] entered_hart(
                h,
                stack_pointer,
                s.with_return_value(value),
            ).x[n] == entered_hart(h, stack_pointer, s).x[n],
        entered_hart(h, stack_pointer, s.with_return_value(value)).mepc == entered_hart(
            h,
            stack_pointer,
            s,
        ).mepc,
        entered_hart(h, stack_pointer, s.with_return_value(value)).mstatus == entered_hart(
            h,
            stack_pointer,
            s,
        ).mstatus,
{
}

/// Installing a record's registers and saving them back at a trap that
/// left them untouched gives the record back, but for the stack-pointer
/// slot, which takes the stack pointer the process ran with.
pub proof fn lemma_register_round_trip(stack_pointer: usize, s: StoredStateModel)
    requires
        s.wf(),
    ensures
        trapped_registers(installed_registers(stack_pointer, s.regs), s.regs) == s.regs.update(
            SLOT_SP as int,
            stack_pointer,
        ),
{
    assert(trapped_registers(installed_registers(stack_pointer, s.regs), s.regs) =~= s.regs.update(
        SLOT_SP as int,
        stack_pointer,
    ));
}

/// The record after a run of traps, one after another, each from the given
/// hart state.
pub open spec fn after_traps(s: StoredStateModel, traps: Seq<HartModel>) -> StoredStateModel
    decreases traps.len(),
{
    if traps.len() == 0 {
        s
    } else {
        saved_after_trap(after_traps(s, traps.drop_last()), traps.last())
    }
}

/// Moving an address past one instruction is adding the instruction width
/// modulo the size of the address space.
pub proof fn lemma_advance_pc_modular(pc: usize)
    ensures
        advance_pc(pc) as int == (pc + INSTRUCTION_WIDTH) % (usize::MAX + 1),
{
    let m = usize::MAX + 1;
    if pc + INSTRUCTION_WIDTH > usize::MAX {
        assert((pc + INSTRUCTION_WIDTH) % m == pc + INSTRUCTION_WIDTH - m) by {
            vstd::arithmetic::div_mod::lemma_fundamental_div_mod_converse(
                pc + INSTRUCTION_WIDTH,
                m,
                1,
                pc + INSTRUCTION_WIDTH - m,
            );
        }
    } else {
        vstd::arithmetic::div_mod::lemma_small_mod((pc + INSTRUCTION_WIDTH) as nat, m as nat);
    }
}

/// A system call taken at the resume address moves the resume address past
/// the calling instruction exactly once; a run of `n` such calls, with
/// nothing else moving the resume address between them, moves it by `n`
/// instruction widths in all.
pub proof fn lemma_syscalls_advance_pc(s: StoredStateModel, traps: Seq<HartModel>)
    requires
        forall|i: int|
            0 <= i < traps.len() ==> #[trigger] trap_cause_of(traps[i].mcause)
                == TrapCause::EnvironmentCall,
        forall|i: int|
            0 <= i < traps.len() ==> #[trigger] traps[i].mepc == after_traps(s, traps.take(i)).pc,
    ensures
        after_traps(s, traps).pc as int == (s.pc + INSTRUCTION_WIDTH * traps.len()) % (usize::MAX
            + 1),
    decreases traps.len(),
{
    let m = usize::MAX + 1;
    if traps.len() == 0 {
        vstd::arithmetic::div_mod::lemma_small_mod(s.pc as nat, m as nat);
    } else {
        let n = traps.len() - 1;
        let prefix = traps.drop_last();
        assert forall|i: int| 0 <= i < prefix.len() implies #[trigger] prefix[i].mepc == after_traps(
            s,
            prefix.take(i),
        ).pc by {
            assert(prefix.take(i) =~= traps.take(i));
            assert(traps[i].mepc == after_traps(s, traps.take(i)).pc);
        }
        assert forall|i: int| 0 <= i < prefix.len() implies #[trigger] trap_cause_of(
            prefix[i].mcause,
        ) == TrapCause::EnvironmentCall by {
            assert(trap_cause_of(traps[i].mcause) == TrapCause::EnvironmentCall);
        }
        lemma_syscalls_advance_pc(s, prefix);
        let before = after_traps(s, prefix);
        assert(traps.take(n) =~= prefix);
        assert(traps[n].mepc == before.pc);
        assert(trap_cause_of(traps[n].mcause) == TrapCause::EnvironmentCall);
        lemma_advance_pc_modular(before.pc);
        lemma_add_mod_noop(s.pc + INSTRUCTION_WIDTH * n, INSTRUCTION_WIDTH as int, m);
        vstd::arithmetic::div_mod::lemma_small_mod(INSTRUCTION_WIDTH as nat, m as nat);
        assert(s.pc + INSTRUCTION_WIDTH * n + INSTRUCTION_WIDTH == s.pc + INSTRUCTION_WIDTH * traps.len());
    }
}

/// Every trap-cause value ends a switch in exactly one way: an interrupt
/// resumes the kernel as interrupted, an environment call resumes it with
/// the decoded request or a fault, and every other cause halts.
pub proof fn lemma_every_cause_classified(mcause: usize, saved: StoredStateModel)
    ensures
        trap_exit_of(mcause, saved) is Halt <==> (!is_interrupt_cause(mcause) && exception_code(
            mcause,
        ) != CAUSE_ECALL_FROM_U),
        is_interrupt_cause(mcause) ==> trap_exit_of(mcause, saved) == (TrapExit::Resume {
            stack_pointer: saved.regs[SLOT_SP as int],
            reason: ContextSwitchReason::Interrupted,
        }),
        (!is_interrupt_cause(mcause) && exception_code(mcause) == CAUSE_ECALL_FROM_U) ==> (
        trap_exit_of(mcause, saved) matches TrapExit::Resume { reason, .. } && (
        reason is SyscallFired || reason is Fault)),
        (!is_interrupt_cause(mcause) && exception_code(mcause) != CAUSE_ECALL_FROM_U) ==> (
        trap_exit_of(mcause, saved) == TrapExit::Halt { code: exception_code(mcause) }),
{
}

} // verus!
