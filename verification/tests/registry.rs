use early_tls::EarlyTlsRegistry;
use early_tls::TlsBaseRegister;
use early_tls::TlsImage;

#[test]
fn new_registry_is_empty() {
    let registry = EarlyTlsRegistry::new();
    assert!(registry.is_empty());
    assert_eq!(registry.occupant_base(), 0);
}

#[test]
fn insert_installs_and_activates() {
    let mut registry = EarlyTlsRegistry::new();
    let mut cpu = TlsBaseRegister::new();
    assert_eq!(cpu.current_base(), 0);

    registry.insert(TlsImage::new(0x4000), &mut cpu);
    assert!(!registry.is_empty());
    assert_eq!(registry.occupant_base(), 0x4000);
    assert_eq!(cpu.current_base(), 0x4000);
}

#[test]
fn reload_reestablishes_inserted_base() {
    let mut registry = EarlyTlsRegistry::new();
    let mut cpu = TlsBaseRegister::new();

    registry.insert(TlsImage::new(0x7f00), &mut cpu);
    let established = cpu.current_base();

    registry.reload(&mut cpu);
    assert_eq!(cpu.current_base(), established);
    registry.reload(&mut cpu);
    registry.reload(&mut cpu);
    assert_eq!(cpu.current_base(), established);
    assert_eq!(registry.occupant_base(), established);
}

#[test]
fn reload_activates_on_another_processor() {
    let mut registry = EarlyTlsRegistry::new();
    let mut boot_cpu = TlsBaseRegister::new();
    let mut other_cpu = TlsBaseRegister::new();

    registry.insert(TlsImage::new(0x2200), &mut boot_cpu);
    assert_eq!(other_cpu.current_base(), 0);

    registry.reload(&mut other_cpu);
    assert_eq!(other_cpu.current_base(), 0x2200);
    // Activation only ever touches the register it was handed.
    assert_eq!(boot_cpu.current_base(), 0x2200);
}

#[test]
fn drop_image_empties_occupied_registry() {
    let mut registry = EarlyTlsRegistry::new();
    let mut cpu = TlsBaseRegister::new();

    registry.insert(TlsImage::new(0x1000), &mut cpu);
    registry.drop_image();
    assert!(registry.is_empty());
    assert_eq!(registry.occupant_base(), 0);
}

#[test]
fn drop_image_keeps_empty_registry_empty() {
    let mut registry = EarlyTlsRegistry::new();
    registry.drop_image();
    assert!(registry.is_empty());
}

#[test]
fn second_insert_replaces_first() {
    let mut registry = EarlyTlsRegistry::new();
    let mut cpu = TlsBaseRegister::new();

    registry.insert(TlsImage::new(0xaaaa), &mut cpu);
    registry.insert(TlsImage::new(0xbbbb), &mut cpu);

    assert!(!registry.is_empty());
    assert_eq!(registry.occupant_base(), 0xbbbb);
    assert_eq!(cpu.current_base(), 0xbbbb);
}

#[test]
fn inserting_the_sentinel_is_a_valid_occupant() {
    let mut registry = EarlyTlsRegistry::new();
    let mut cpu = TlsBaseRegister::new();

    registry.insert(TlsImage::new(0x1234), &mut cpu);
    registry.insert(TlsImage::empty(), &mut cpu);
    assert!(registry.is_empty());
    assert_eq!(cpu.current_base(), 0);
}

#[test]
fn scenario_full_lifecycle() {
    // Start empty.
    let mut registry = EarlyTlsRegistry::new();
    let mut cpu = TlsBaseRegister::new();
    assert!(registry.is_empty());

    // Insert A: the registry holds A and the processor's TLS base is A's.
    registry.insert(TlsImage::new(0xa000), &mut cpu);
    assert!(!registry.is_empty());
    assert_eq!(registry.occupant_base(), 0xa000);
    assert_eq!(cpu.current_base(), 0xa000);

    // Reload: the TLS base is unchanged.
    registry.reload(&mut cpu);
    assert_eq!(cpu.current_base(), 0xa000);

    // Insert B: A is gone, the registry holds B, the TLS base is B's.
    registry.insert(TlsImage::new(0xb000), &mut cpu);
    assert_eq!(registry.occupant_base(), 0xb000);
    assert_eq!(cpu.current_base(), 0xb000);

    // Drop: the registry holds the empty sentinel.
    registry.drop_image();
    assert!(registry.is_empty());
}

#[test]
fn image_constructors_and_observers() {
    let empty = TlsImage::empty();
    assert!(empty.is_empty());
    assert_eq!(empty.base_value(), 0);
    assert_eq!(empty, TlsImage::Empty);

    let image = TlsImage::new(0x77);
    assert!(!image.is_empty());
    assert_eq!(image.base_value(), 0x77);
    assert_eq!(image, TlsImage::Data { base: 0x77 });
    assert_ne!(image, TlsImage::Empty);
}

#[test]
fn activation_writes_the_register() {
    let mut cpu = TlsBaseRegister::new();
    let image = TlsImage::new(0x5150);
    image.set_as_current_tls_base(&mut cpu);
    assert_eq!(cpu.current_base(), 0x5150);

    let sentinel = TlsImage::empty();
    sentinel.set_as_current_tls_base(&mut cpu);
    assert_eq!(cpu.current_base(), 0);
}
