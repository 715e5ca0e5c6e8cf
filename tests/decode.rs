use riscv32i::hart::{classify_trap, TrapCause};
use riscv32i::syscall_decode::{arguments_to_syscall, Syscall, SyscallClass};

#[test]
fn every_known_class_decodes() {
    let classes = [
        SyscallClass::Yield,
        SyscallClass::Subscribe,
        SyscallClass::Command,
        SyscallClass::ReadWriteAllow,
        SyscallClass::ReadOnlyAllow,
        SyscallClass::Memop,
        SyscallClass::Exit,
    ];
    for (n, class) in classes.iter().enumerate() {
        assert_eq!(class.number() as usize, n);
        assert_eq!(
            arguments_to_syscall(n as u8, 11, 22, 33, 44),
            Some(Syscall { class: *class, args: [11, 22, 33, 44] })
        );
    }
}

#[test]
fn unknown_classes_decode_to_nothing() {
    for selector in 7..=255u8 {
        assert_eq!(arguments_to_syscall(selector, 1, 2, 3, 4), None);
    }
}

#[test]
fn decoding_is_deterministic() {
    for selector in 0..=255u8 {
        let a = arguments_to_syscall(selector, usize::MAX, 0, 5, 6);
        let b = arguments_to_syscall(selector, usize::MAX, 0, 5, 6);
        assert_eq!(a, b);
    }
}

#[test]
fn classification_of_causes() {
    let sign = 1usize << (usize::BITS - 1);
    assert_eq!(classify_trap(8), TrapCause::EnvironmentCall);
    assert_eq!(classify_trap(0x409), TrapCause::Unhandled { code: 9 });
    assert_eq!(classify_trap(0x208), TrapCause::EnvironmentCall);
    assert_eq!(classify_trap(sign | 8), TrapCause::Interrupt);
    assert_eq!(classify_trap(sign), TrapCause::Interrupt);
    assert_eq!(classify_trap(usize::MAX), TrapCause::Interrupt);
    assert_eq!(classify_trap(0), TrapCause::Unhandled { code: 0 });
    assert_eq!(classify_trap(11), TrapCause::Unhandled { code: 11 });
    assert_eq!(classify_trap(sign - 1), TrapCause::Unhandled { code: 0x1ff });
}
