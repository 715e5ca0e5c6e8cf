use vstd::prelude::*;

verus! {

/// The classes of system call a process can request, by class selector.
#[derive(Copy, Clone, Debug, PartialEq, Eq, Structural)]
pub enum SyscallClass {
    Yield,
    Subscribe,
    Command,
    ReadWriteAllow,
    ReadOnlyAllow,
    Memop,
    Exit,
}

/// Number of recognized class selectors: selectors `0 .. SYSCALL_CLASS_COUNT`.
pub const SYSCALL_CLASS_COUNT: u8 = 7;

/// The class named by a selector byte, if any.
pub open spec fn class_of(selector: u8) -> Option<SyscallClass> {
    if selector == 0 {
        Some(SyscallClass::Yield)
    } else if selector == 1 {
        Some(SyscallClass::Subscribe)
    } else if selector == 2 {
        Some(SyscallClass::Command)
    } else if selector == 3 {
        Some(SyscallClass::ReadWriteAllow)
    } else if selector == 4 {
        Some(SyscallClass::ReadOnlyAllow)
    } else if selector == 5 {
        Some(SyscallClass::Memop)
    } else if selector == 6 {
        Some(SyscallClass::Exit)
    } else {
        None
    }
}

impl SyscallClass {
    /// The selector byte of this class.
    pub open spec fn spec_number(self) -> u8 {
        match self {
            SyscallClass::Yield => 0,
            SyscallClass::Subscribe => 1,
            SyscallClass::Command => 2,
            SyscallClass::ReadWriteAllow => 3,
            SyscallClass::ReadOnlyAllow => 4,
            SyscallClass::Memop => 5,
            SyscallClass::Exit => 6,
        }
    }

    /// The selector byte of this class.
    #[verifier::when_used_as_spec(spec_number)]
    pub fn number(self) -> (r: u8)
        ensures
            r == self.spec_number(),
            r < SYSCALL_CLASS_COUNT,
            class_of(r) == Some(self),
    {
        match self {
            SyscallClass::Yield => 0,
            SyscallClass::Subscribe => 1,
            SyscallClass::Command => 2,
            SyscallClass::ReadWriteAllow => 3,
            SyscallClass::ReadOnlyAllow => 4,
            SyscallClass::Memop => 5,
            SyscallClass::Exit => 6,
        }
    }
}

/// A decoded system-call request: its class and its four argument words.
#[derive(Copy, Clone, Debug, PartialEq, Eq)]
pub struct Syscall {
    pub class: SyscallClass,
    pub args: [usize; 4],
}

/// The request that a selector and four argument words decode to, if any.
pub open spec fn syscall_of(selector: u8, r0: usize, r1: usize, r2: usize, r3: usize) -> Option<
    Syscall,
> {
    match class_of(selector) {
        Some(class) => Some(Syscall { class, args: [r0, r1, r2, r3] }),
        None => None,
    }
}

/// Decodes a class selector and four argument words into a request; an
/// unrecognized selector gives `None`. Total, deterministic and free of
/// side effects.
pub fn arguments_to_syscall(selector: u8, r0: usize, r1: usize, r2: usize, r3: usize) -> (r: Option<
    Syscall,
>)
    ensures
        r == syscall_of(selector, r0, r1, r2, r3),
        r.is_none() <==> selector >= SYSCALL_CLASS_COUNT,
{
    let class = if selector == 0 {
        SyscallClass::Yield
    } else if selector == 1 {
        SyscallClass::Subscribe
    } else if selector == 2 {
        SyscallClass::Command
    } else if selector == 3 {
        SyscallClass::ReadWriteAllow
    } else if selector == 4 {
        SyscallClass::ReadOnlyAllow
    } else if selector == 5 {
        SyscallClass::Memop
    } else if selector == 6 {
        SyscallClass::Exit
    } else {
        return None;
    };
    Some(Syscall { class, args: [r0, r1, r2, r3] })
}

/// Decoding is a function of its inputs: two decodings of the same selector
/// and words give the same result, and an unrecognized selector always gives
/// nothing.
pub proof fn lemma_decode_deterministic(
    selector: u8,
    r0: usize,
    r1: usize,
    r2: usize,
    r3: usize,
    first: Option<Syscall>,
    second: Option<Syscall>,
)
    requires
        first == syscall_of(selector, r0, r1, r2, r3),
        second == syscall_of(selector, r0, r1, r2, r3),
    ensures
        first == second,
        selector >= SYSCALL_CLASS_COUNT ==> first.is_none(),
        selector < SYSCALL_CLASS_COUNT ==> first.is_some() && first.unwrap().class.spec_number()
            == selector && first.unwrap().args@ == seq![r0, r1, r2, r3],
{
}

} // verus!
