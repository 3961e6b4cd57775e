use rpi::critical_section::{acquire, nested_sections_restore, release, CpuInterruptState};
use rpi::executor::{Executor, __pender};
use rpi::interrupt::{interrupt_handler, interrupt_sources_1, interrupt_sources_2, setup,
    InterruptSource};
use rpi::mmu::{
    translation_table, AccessPermissions, CachePolicy, MemoryAttributes, MemoryType,
    SectionBaseAddress, SectionDescriptor,
};
use rpi::entry::{validate_entry, EntryError, EntrySignature};
use rpi::gpio::state::Pull;
use rpi::{delay, set_waker, wake};

#[test]
fn executor_sleeps_only_without_pended_work() {
    let mut executor = Executor::new();
    assert!(executor.should_sleep(), "nothing pended: the core may wait for an interrupt");
    __pender(&mut executor);
    assert!(!executor.should_sleep(), "pended work is polled before any sleep");
    assert!(executor.should_sleep(), "the swap consumed the signal");
}

#[test]
fn pender_between_swap_and_sleep_is_not_lost() {
    // A waker firing after the swap leaves the signal set, so the next
    // decision polls instead of sleeping: the WFI is interrupted or never
    // executed.
    let mut executor = Executor::default();
    let _ = executor.should_sleep();
    __pender(&mut executor);
    assert!(!executor.should_sleep());
}

#[test]
fn critical_section_nesting() {
    let mut cpu = CpuInterruptState { interrupts_enabled: true };
    let outer = acquire(&mut cpu);
    assert!(outer);
    assert!(!cpu.interrupts_enabled);
    let inner = acquire(&mut cpu);
    assert!(!inner, "the inner acquisition is a no-op");
    release(&mut cpu, inner);
    assert!(!cpu.interrupts_enabled, "still inside the outer section");
    release(&mut cpu, outer);
    assert!(cpu.interrupts_enabled, "the outer exit restores the state");

    let mut disabled = CpuInterruptState { interrupts_enabled: false };
    nested_sections_restore(&mut disabled);
    assert!(!disabled.interrupts_enabled);
}

#[test]
fn interrupt_enable_masks() {
    let (first, second) = setup();
    assert_eq!(first, (1 << 1) | (1 << 3));
    assert_eq!(second, (1 << 17) | (1 << 18));
    assert_eq!(interrupt_sources_1().len(), 2);
    assert_eq!(interrupt_sources_2()[1].bit, 50);
}

#[test]
fn interrupt_dispatch_order_and_masking() {
    let all = interrupt_handler(
        (1 << 8) | (1 << 9),
        (1 << 1) | (1 << 3),
        (1 << 17) | (1 << 18),
    );
    assert_eq!(
        all,
        vec![
            InterruptSource::TimerC1,
            InterruptSource::TimerC3,
            InterruptSource::GpioBank1,
            InterruptSource::GpioBank2,
        ]
    );

    // Without the basic-pending flag nothing in that register dispatches.
    let none = interrupt_handler(0, (1 << 1) | (1 << 3), (1 << 17) | (1 << 18));
    assert!(none.is_empty());

    // Unknown pending bits are ignored: they were never unmasked.
    let unknown = interrupt_handler(1 << 8, 1 << 5, 0);
    assert!(unknown.is_empty());

    let only_timer = interrupt_handler(1 << 8, 1 << 3, 1 << 17);
    assert_eq!(only_timer, vec![InterruptSource::TimerC3]);
}

#[test]
fn waker_slot() {
    let mut slot: Option<u64> = None;
    assert!(!set_waker(&mut slot, 5), "the slot was empty");
    assert!(set_waker(&mut slot, 5), "the same waker is kept");
    assert_eq!(wake(&mut slot), Some(5));
    assert_eq!(wake(&mut slot), None, "taking twice wakes nobody");
    delay(150);
}

#[test]
fn translation_table_layout() {
    let table = translation_table();
    assert_eq!(table.0.len(), 4096);
    // RAM window: normal memory, write-back both levels, shareable,
    // executable, read-write, section tag.
    assert_eq!(table.0[0].bits(), 0x0001_7C0E);
    assert_eq!(table.0[511].bits(), 0x1FF1_7C0E);
    // MMIO window: shareable device memory, never executable.
    assert_eq!(table.0[512].bits(), 0x2001_0C16);
    assert_eq!(table.0[527].bits(), 0x20F1_0C16);
    // Everything above is disabled.
    assert_eq!(table.0[528].bits(), 0);
    assert_eq!(table.0[4095].bits(), 0);
}

#[test]
fn section_descriptor_encodings() {
    let strongly_ordered = SectionDescriptor::new(
        SectionBaseAddress::Section(1),
        AccessPermissions::NoAccess,
        MemoryAttributes {
            execute: false,
            global: false,
            memory_type: MemoryType::StronglyOrdered,
        },
    );
    // Base 1 << 20, not-global, shareable, XN, section tag.
    assert_eq!(strongly_ordered.bits(), (1 << 20) | (1 << 17) | (1 << 16) | (1 << 4) | 0b10);

    let supersection = SectionDescriptor::new(
        SectionBaseAddress::SuperSection(3),
        AccessPermissions::ReadOnly,
        MemoryAttributes {
            execute: true,
            global: true,
            memory_type: MemoryType::Normal {
                inner: CachePolicy::NonCacheable,
                outer: CachePolicy::WriteThrough,
                shareable: false,
            },
        },
    );
    // Base 3 << 24, supersection tag, APX with AP=10, TEX=110.
    assert_eq!(
        supersection.bits(),
        (3 << 24) | (1 << 18) | (1 << 15) | (0b110 << 12) | (0b10 << 10) | 0b10
    );

    assert_eq!(SectionDescriptor::disabled().bits(), 0);
}

#[test]
fn entry_signature_validation() {
    let good = EntrySignature {
        has_attribute_arguments: false,
        is_async: false,
        is_unsafe: false,
        has_explicit_abi: false,
        n_generic_params: 0,
        n_inputs: 0,
        is_variadic: false,
        has_return_type: true,
        returns_never: true,
    };
    assert_eq!(validate_entry(&good), Ok(()));
    assert_eq!(
        validate_entry(&EntrySignature { has_attribute_arguments: true, ..good }),
        Err(EntryError::AttributeArguments)
    );
    assert_eq!(
        validate_entry(&EntrySignature { is_async: true, ..good }),
        Err(EntryError::Async)
    );
    assert_eq!(
        validate_entry(&EntrySignature { is_unsafe: true, ..good }),
        Err(EntryError::Unsafe)
    );
    assert_eq!(
        validate_entry(&EntrySignature { has_explicit_abi: true, ..good }),
        Err(EntryError::ExplicitAbi)
    );
    assert_eq!(
        validate_entry(&EntrySignature { n_generic_params: 1, ..good }),
        Err(EntryError::Generics)
    );
    assert_eq!(
        validate_entry(&EntrySignature { n_inputs: 2, ..good }),
        Err(EntryError::Arguments)
    );
    assert_eq!(
        validate_entry(&EntrySignature { is_variadic: true, ..good }),
        Err(EntryError::Variadic)
    );
    assert_eq!(
        validate_entry(&EntrySignature { has_return_type: false, returns_never: false, ..good }),
        Err(EntryError::MissingReturnType)
    );
    assert_eq!(
        validate_entry(&EntrySignature { returns_never: false, ..good }),
        Err(EntryError::WrongReturnType)
    );
    // The first offending part names the error.
    assert_eq!(
        validate_entry(&EntrySignature { is_async: true, is_unsafe: true, ..good }),
        Err(EntryError::Async)
    );
}

#[test]
fn pull_conversions() {
    assert_eq!(Pull::from(true), Pull::Up);
    assert_eq!(Pull::from(false), Pull::Down);
    assert_eq!(bool::from(Pull::Up), true);
    assert_eq!(bool::from(Pull::Down), false);
}
