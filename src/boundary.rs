use vstd::prelude::*;
use crate::hart::{
    classify_trap, process_status, process_status_of, trap_cause_of, Hart, HartModel, TrapCause,
    REG_SP,
};
use crate::stored_state::{
    slot_of_register, RiscvimacStoredState, StoredStateModel, SLOT_A0, SLOT_RA, SLOT_SP,
};
use crate::syscall_decode::{arguments_to_syscall, syscall_of, Syscall};

verus! {

/// Width in bytes of the environment-call instruction, by which the resume
/// address is moved past it after a system call.
pub const INSTRUCTION_WIDTH: usize = 4;

/// Why a process stopped executing and control came back to the kernel.
#[derive(Copy, Clone, Debug, PartialEq, Eq)]
pub enum ContextSwitchReason {
    /// The process made a system call that decoded to this request.
    SyscallFired { syscall: Syscall },
    /// The process made a system call that did not decode.
    Fault,
    /// A hardware interrupt stopped the process.
    Interrupted,
}

/// The end of one context switch.
#[derive(Copy, Clone, Debug, PartialEq, Eq)]
pub enum TrapExit {
    /// The kernel resumes, with the process's stack pointer at the trap.
    Resume { stack_pointer: usize, reason: ContextSwitchReason },
    /// A trap that the engine does not handle: the system must halt and show
    /// the failure instead of resuming anything.
    Halt { code: usize },
}

/// A function for a process to run: its entry address and four arguments.
#[derive(Copy, Clone, Debug, PartialEq, Eq, Structural)]
pub struct FunctionCall {
    pub pc: usize,
    pub argument0: usize,
    pub argument1: usize,
    pub argument2: usize,
    pub argument3: usize,
}

/// The kernel's own registers, kept aside while a process runs.
#[derive(Copy, Clone)]
pub struct KernelContext {
    pub regs: [usize; 32],
}

/// Runs a process on the hart from the state the engine installed until the
/// process traps, leaving in the hart its registers, `mepc` and `mcause` as
/// they were at the trap.
pub trait ProcessRunner {
    fn run_until_trap(&mut self, hart: &mut Hart);
}

/// The register file that the process starts with: `x0` zero, `sp` the given
/// stack pointer, every other register from its slot of the record.
pub open spec fn installed_registers(stack_pointer: usize, regs: Seq<usize>) -> Seq<usize> {
    Seq::new(
        32,
        |n: int|
            if n == 0 {
                0usize
            } else if n == REG_SP {
                stack_pointer
            } else {
                regs[slot_of_register(n)]
            },
    )
}

/// The hart as handed to the process: registers installed, the status word
/// set for the drop in privilege, `mepc` at the resume address, and the
/// kernel's stack pointer in `mscratch`.
pub open spec fn entered_hart(h: HartModel, stack_pointer: usize, s: StoredStateModel) -> HartModel {
    HartModel {
        x: installed_registers(stack_pointer, s.regs),
        mstatus: process_status(h.mstatus),
        mepc: s.pc,
        mscratch: h.x[REG_SP as int],
        mcause: h.mcause,
    }
}

/// The record's slots after a trap: slot `k` takes register `x(k + 1)`; the
/// unused last slot is kept.
pub open spec fn trapped_registers(x: Seq<usize>, regs: Seq<usize>) -> Seq<usize> {
    Seq::new(32, |k: int| if k < 31 { x[k + 1] } else { regs[k] })
}

/// The resume address moved past one environment-call instruction.
pub open spec fn advance_pc(pc: usize) -> usize {
    pc.wrapping_add(INSTRUCTION_WIDTH)
}

/// The record after a trap from hart state `t`: registers saved, and the
/// resume address at `mepc`, moved past the instruction for a system call.
pub open spec fn saved_after_trap(s: StoredStateModel, t: HartModel) -> StoredStateModel {
    StoredStateModel {
        regs: trapped_registers(t.x, s.regs),
        pc: if trap_cause_of(t.mcause) == TrapCause::EnvironmentCall {
            advance_pc(t.mepc)
        } else {
            t.mepc
        },
    }
}

/// The request held in a saved record: the class selector is the low byte of
/// `a0`, the arguments are `a1 ..= a4`.
pub open spec fn request_in(s: StoredStateModel) -> Option<Syscall> {
    syscall_of(
        (s.regs[SLOT_A0 as int] % 256) as u8,
        s.regs[SLOT_A0 + 1],
        s.regs[SLOT_A0 + 2],
        s.regs[SLOT_A0 + 3],
        s.regs[SLOT_A0 + 4],
    )
}

/// The end of a switch whose trap left the saved record `saved`, by cause.
pub open spec fn trap_exit_of(mcause: usize, saved: StoredStateModel) -> TrapExit {
    match trap_cause_of(mcause) {
        TrapCause::Interrupt => TrapExit::Resume {
            stack_pointer: saved.regs[SLOT_SP as int],
            reason: ContextSwitchReason::Interrupted,
        },
        TrapCause::EnvironmentCall => TrapExit::Resume {
            stack_pointer: saved.regs[SLOT_SP as int],
            reason: match request_in(saved) {
                Some(syscall) => ContextSwitchReason::SyscallFired { syscall },
                None => ContextSwitchReason::Fault,
            },
        },
        TrapCause::Unhandled { code } => TrapExit::Halt { code },
    }
}

/// The hart after the kernel takes it back from trap state `t`: `mcause`
/// handed over in `mscratch` and, unless the system halts, the kernel's
/// registers back in place.
pub open spec fn returned_hart(t: HartModel, kernel: Seq<usize>, exit: TrapExit) -> HartModel {
    HartModel {
        x: if exit is Halt {
            t.x
        } else {
            kernel
        },
        mstatus: t.mstatus,
        mepc: t.mepc,
        mscratch: t.mcause,
        mcause: t.mcause,
    }
}

impl StoredStateModel {
    /// The record with `value` in the return-value register `a0`.
    pub open spec fn with_return_value(self, value: isize) -> StoredStateModel {
        StoredStateModel { regs: self.regs.update(SLOT_A0 as int, value as usize), pc: self.pc }
    }

    /// The record primed to run `call`: its arguments in `a0 ..= a3`, `ra`
    /// at the previous resume address unless this is the first function the
    /// process runs, and the resume address at the call's entry.
    pub open spec fn primed(self, call: FunctionCall, first_function: bool) -> StoredStateModel {
        let args = self.regs.update(SLOT_A0 as int, call.argument0).update(
            SLOT_A0 + 1,
            call.argument1,
        ).update(SLOT_A0 + 2, call.argument2).update(SLOT_A0 + 3, call.argument3);
        StoredStateModel {
            regs: if first_function {
                args
            } else {
                args.update(SLOT_RA as int, self.pc)
            },
            pc: call.pc,
        }
    }
}

/// The user-kernel boundary for machine-mode-only RISC-V cores.
pub struct SysCall();

impl SysCall {
    pub fn new() -> SysCall {
        SysCall()
    }

    /// Places `return_value` in the process's return-value register, where
    /// the process finds it as the result of its system call when it resumes.
    pub fn set_syscall_return_value(
        &self,
        stack_pointer: usize,
        state: &mut RiscvimacStoredState,
        return_value: isize,
    )
        ensures
            final(state)@ == old(state)@.with_return_value(return_value),
    {
        state.regs.set(SLOT_A0, return_value as usize);
    }

    /// Primes the record so that the process next runs `callback`. Always
    /// succeeds with the stack pointer unchanged.
    pub fn set_process_function(
        &self,
        stack_pointer: usize,
        remaining_stack_memory: usize,
        state: &mut RiscvimacStoredState,
        callback: FunctionCall,
        first_function: bool,
    ) -> (r: Result<usize, usize>)
        ensures
            r == Ok::<usize, usize>(stack_pointer),
            final(state)@ == old(state)@.primed(callback, first_function),
            first_function ==> final(state).regs[SLOT_RA as int] == old(state).regs[SLOT_RA as int],
            !first_function ==> final(state).regs[SLOT_RA as int] == old(state).pc,
            final(state).pc == callback.pc,
    {
        let previous_pc = state.pc;
        state.regs.set(SLOT_A0, callback.argument0);
        state.regs.set(SLOT_A0 + 1, callback.argument1);
        state.regs.set(SLOT_A0 + 2, callback.argument2);
        state.regs.set(SLOT_A0 + 3, callback.argument3);
        if !first_function {
            state.regs.set(SLOT_RA, previous_pc);
        }
        state.pc = callback.pc;
        Ok(stack_pointer)
    }

    /// Hands the hart to the process: keeps the kernel's registers aside,
    /// leaves the kernel's stack pointer in `mscratch`, sets the status word
    /// so that `mret` drops privilege with interrupts enabled, puts the
    /// resume address in `mepc`, and loads the process's registers with `sp`
    /// at `stack_pointer`.
    pub fn enter_process(
        &self,
        hart: &mut Hart,
        stack_pointer: usize,
        state: &RiscvimacStoredState,
    ) -> (kernel: KernelContext)
        ensures
            kernel.regs@ == old(hart)@.x,
            final(hart)@ == entered_hart(old(hart)@, stack_pointer, state@),
    {
        let kernel = KernelContext { regs: hart.x };
        hart.mscratch = hart.x[REG_SP];
        hart.mstatus = process_status_of(hart.mstatus);
        hart.mepc = state.pc;
        let mut x: [usize; 32] = [0usize; 32];
        let mut n: usize = 1;
        while n < 32
            invariant
                1 <= n <= 32,
                x@.len() == 32,
                forall|i: int| 0 <= i < n ==> x@[i] == installed_registers(stack_pointer, state.regs@)[i],
            decreases 32 - n,
        {
            if n == REG_SP {
                x.set(n, stack_pointer);
            } else {
                x.set(n, state.regs[n - 1]);
            }
            n = n + 1;
        }
        hart.x = x;
        assert(hart.x@ =~= installed_registers(stack_pointer, state.regs@));
        kernel
    }

    /// Takes the hart back after a trap: saves the process's registers and
    /// `mepc` into the record, hands `mcause` over in `mscratch` and
    /// classifies it. After a system call the resume address moves past the
    /// calling instruction and the request is decoded from the record; after
    /// an interrupt the process resumes where it stopped. Unless the trap is
    /// one the engine does not handle, the kernel's registers are restored.
    pub fn return_to_kernel(
        &self,
        hart: &mut Hart,
        kernel: &KernelContext,
        state: &mut RiscvimacStoredState,
    ) -> (r: TrapExit)
        ensures
            final(state)@ == saved_after_trap(old(state)@, old(hart)@),
            r == trap_exit_of(old(hart).mcause, final(state)@),
            final(hart)@ == returned_hart(old(hart)@, kernel.regs@, r),
    {
        let ghost old_regs = state.regs@;
        let mut k: usize = 0;
        while k < 31
            invariant
                k <= 31,
                state.regs@.len() == 32,
                hart.x@.len() == 32,
                forall|i: int| 0 <= i < k ==> state.regs@[i] == hart.x@[i + 1],
                forall|i: int| k <= i < 32 ==> state.regs@[i] == old_regs[i],
            decreases 31 - k,
        {
            state.regs.set(k, hart.x[k + 1]);
            k = k + 1;
        }
        assert(state.regs@ =~= trapped_registers(hart.x@, old_regs));
        state.pc = hart.mepc;
        hart.mscratch = hart.mcause;
        let reason = match classify_trap(hart.mscratch) {
            TrapCause::Unhandled { code } => {
                return TrapExit::Halt { code };
            },
            TrapCause::Interrupt => ContextSwitchReason::Interrupted,
            TrapCause::EnvironmentCall => {
                state.pc = state.pc.wrapping_add(INSTRUCTION_WIDTH);
                let selector = (state.regs[SLOT_A0] % 256) as u8;
                match arguments_to_syscall(
                    selector,
                    state.regs[SLOT_A0 + 1],
                    state.regs[SLOT_A0 + 2],
                    state.regs[SLOT_A0 + 3],
                    state.regs[SLOT_A0 + 4],
                ) {
                    Some(syscall) => ContextSwitchReason::SyscallFired { syscall },
                    None => ContextSwitchReason::Fault,
                }
            },
        };
        let stack_pointer = state.regs[SLOT_SP];
        hart.x = kernel.regs;
        TrapExit::Resume { stack_pointer, reason }
    }

    /// One context switch: hands the hart to the process, lets `process` run
    /// until it traps, and takes the hart back. Whatever the process did,
    /// the record and the result are those that the trap state determines,
    /// and unless the system halts the kernel's registers are as before.
    pub fn switch_to_process<R: ProcessRunner>(
        &self,
        hart: &mut Hart,
        stack_pointer: usize,
        state: &mut RiscvimacStoredState,
        process: &mut R,
    ) -> (r: TrapExit)
        ensures
            exists|t: HartModel|
                t.x.len() == 32 && #[trigger] saved_after_trap(old(state)@, t) == final(state)@ && r
                    == trap_exit_of(t.mcause, final(state)@),
            !(r is Halt) ==> final(hart)@.x == old(hart)@.x,
    {
        let kernel = self.enter_process(hart, stack_pointer, state);
        process.run_until_trap(hart);
        let ghost trapped = hart@;
        let r = self.return_to_kernel(hart, &kernel, state);
        assert(saved_after_trap(old(state)@, trapped) == state@);
        r
    }
}


} // verus!
