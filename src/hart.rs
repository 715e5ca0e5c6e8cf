use vstd::prelude::*;

verus! {

/// Number of general-purpose registers `x0 ..= x31`.
pub const NUM_REGISTERS: usize = 32;

/// Index of the stack-pointer register `x2`.
pub const REG_SP: usize = 2;

/// `mstatus.MIE`: machine interrupts enabled.
pub const MSTATUS_MIE: usize = 0x8;

/// `mstatus.MPIE`: interrupt-enable state restored by `mret`.
pub const MSTATUS_MPIE: usize = 0x80;

/// `mstatus.MPP`: privilege mode entered by `mret`.
pub const MSTATUS_MPP: usize = 0x1800;

/// Mathematical model of the hart's register state.
pub struct HartModel {
    pub x: Seq<usize>,
    pub mstatus: usize,
    pub mepc: usize,
    pub mscratch: usize,
    pub mcause: usize,
}

/// The register state of the hart that the engine reads and writes: the
/// general-purpose registers and the control registers `mstatus`, `mepc`,
/// `mscratch` and `mcause`.
#[derive(Copy, Clone)]
pub struct Hart {
    pub x: [usize; 32],
    pub mstatus: usize,
    pub mepc: usize,
    pub mscratch: usize,
    pub mcause: usize,
}

impl View for Hart {
    type V = HartModel;

    open spec fn view(&self) -> HartModel {
        HartModel {
            x: self.x@,
            mstatus: self.mstatus,
            mepc: self.mepc,
            mscratch: self.mscratch,
            mcause: self.mcause,
        }
    }
}

/// The status word under which `mret` drops to the process: previous
/// privilege mode and machine interrupt enable cleared, previous interrupt
/// enable set, every other bit kept.
pub open spec fn process_status(mstatus: usize) -> usize {
    (mstatus & !(MSTATUS_MPP | MSTATUS_MIE)) | MSTATUS_MPIE
}

/// Computes the status word under which `mret` drops to the process.
pub fn process_status_of(mstatus: usize) -> (r: usize)
    ensures
        r == process_status(mstatus),
        r & MSTATUS_MPP == 0,
        r & MSTATUS_MIE == 0,
        r & MSTATUS_MPIE == MSTATUS_MPIE,
        r & !(MSTATUS_MPP | MSTATUS_MIE | MSTATUS_MPIE) == mstatus & !(MSTATUS_MPP | MSTATUS_MIE
            | MSTATUS_MPIE),
{
    let r = (mstatus & !(MSTATUS_MPP | MSTATUS_MIE)) | MSTATUS_MPIE;
    assert(r & 0x1800usize == 0 && r & 0x8usize == 0 && r & 0x80usize == 0x80usize && r & !(
    0x1800usize | 0x8usize | 0x80usize) == mstatus & !(0x1800usize | 0x8usize | 0x80usize)) by (bit_vector)
        requires
            r == (mstatus & !(0x1800usize | 0x8usize)) | 0x80usize,
    ;
    r
}

/// The low bits of `mcause` that hold the exception code; cores may use the
/// bits above them for flags of their own.
pub const MCAUSE_CODE_MASK: usize = 0x1ff;

/// Exception code of an environment call from user mode.
pub const CAUSE_ECALL_FROM_U: usize = 8;

/// Why control came back to the kernel.
#[derive(Copy, Clone, Debug, PartialEq, Eq, Structural)]
pub enum TrapCause {
    /// A hardware interrupt (`mcause` has its sign bit set).
    Interrupt,
    /// An environment call from the process: a system call.
    EnvironmentCall,
    /// Any other exception, with its canonical code.
    Unhandled { code: usize },
}

/// Whether `mcause` reports an interrupt, that is, has its sign bit set.
pub open spec fn is_interrupt_cause(mcause: usize) -> bool {
    mcause > isize::MAX
}

/// The canonical exception code of `mcause`.
pub open spec fn exception_code(mcause: usize) -> usize {
    mcause & MCAUSE_CODE_MASK
}

/// The classification of a trap-cause value.
pub open spec fn trap_cause_of(mcause: usize) -> TrapCause {
    if is_interrupt_cause(mcause) {
        TrapCause::Interrupt
    } else if exception_code(mcause) == CAUSE_ECALL_FROM_U {
        TrapCause::EnvironmentCall
    } else {
        TrapCause::Unhandled { code: exception_code(mcause) }
    }
}

/// Classifies a trap-cause value. Every value falls in exactly one class.
pub fn classify_trap(mcause: usize) -> (r: TrapCause)
    ensures
        r == trap_cause_of(mcause),
        r == TrapCause::Interrupt <==> is_interrupt_cause(mcause),
        r == TrapCause::EnvironmentCall <==> (!is_interrupt_cause(mcause) && exception_code(
            mcause,
        ) == CAUSE_ECALL_FROM_U),
        r is Unhandled <==> (!is_interrupt_cause(mcause) && exception_code(mcause)
            != CAUSE_ECALL_FROM_U),
{
    if mcause > isize::MAX as usize {
        TrapCause::Interrupt
    } else {
        let code = mcause & MCAUSE_CODE_MASK;
        if code == CAUSE_ECALL_FROM_U {
            TrapCause::EnvironmentCall
        } else {
            TrapCause::Unhandled { code }
        }
    }
}

} // verus!
