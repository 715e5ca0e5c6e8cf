use vstd::prelude::*;

verus! {

/// Number of slots in a saved register record.
pub const NUM_SLOTS: usize = 32;

/// Slot of the return-address register `x1` (`ra`).
pub const SLOT_RA: usize = 0;

/// Slot of the stack-pointer register `x2` (`sp`), as saved at a trap.
pub const SLOT_SP: usize = 1;

/// Slot of the first argument / return-value register `x10` (`a0`).
pub const SLOT_A0: usize = 9;

/// The one mapping between hardware registers and record slots: register
/// `xN` (for `1 <= N <= 31`) lives in slot `N - 1`. The last slot is unused.
pub open spec fn slot_of_register(n: int) -> int {
    n - 1
}

/// Mathematical model of a saved register record.
pub struct StoredStateModel {
    pub regs: Seq<usize>,
    pub pc: usize,
}

/// Everything the kernel keeps for a process while the process is not
/// executing: a snapshot of its general-purpose registers and the address at
/// which it resumes.
#[derive(Copy, Clone)]
pub struct RiscvimacStoredState {
    pub regs: [usize; 32],
    pub pc: usize,
}

impl View for RiscvimacStoredState {
    type V = StoredStateModel;

    open spec fn view(&self) -> StoredStateModel {
        StoredStateModel { regs: self.regs@, pc: self.pc }
    }
}

impl StoredStateModel {
    /// A record of the right shape.
    pub open spec fn wf(self) -> bool {
        self.regs.len() == NUM_SLOTS
    }

    /// The all-zero record of a freshly created process.
    pub open spec fn zero() -> StoredStateModel {
        StoredStateModel { regs: Seq::new(NUM_SLOTS as nat, |i: int| 0usize), pc: 0 }
    }
}

impl Default for RiscvimacStoredState {
    fn default() -> (r: RiscvimacStoredState)
        ensures
            r@ == StoredStateModel::zero(),
    {
        let r = RiscvimacStoredState { regs: [0usize; 32], pc: 0 };
        assert(r@.regs =~= StoredStateModel::zero().regs);
        r
    }
}

} // verus!
