use kernel_diag::driver::{driver_manager, DeviceDriverKind};

#[test]
fn manager_lists_all_drivers_in_bring_up_order() {
    let manager = driver_manager();
    let all = manager.all_device_drivers();
    assert_eq!(
        all,
        &[
            DeviceDriverKind::Gpio,
            DeviceDriverKind::Pl011Uart,
            DeviceDriverKind::InterruptController,
        ]
    );
}

#[test]
fn early_print_drivers_are_gpio_and_uart() {
    let manager = driver_manager();
    let early = manager.early_print_device_drivers();
    assert_eq!(early, &[DeviceDriverKind::Gpio, DeviceDriverKind::Pl011Uart]);
}

#[test]
fn non_early_print_drivers_are_the_rest() {
    let manager = driver_manager();
    let rest = manager.non_early_print_device_drivers();
    assert_eq!(rest, &[DeviceDriverKind::InterruptController]);
}

#[test]
fn post_early_print_init_keeps_the_driver_list() {
    let mut manager = driver_manager();
    manager.post_early_print_device_driver_init();
    assert_eq!(manager.all_device_drivers().len(), 3);
    assert_eq!(
        manager.early_print_device_drivers(),
        &[DeviceDriverKind::Gpio, DeviceDriverKind::Pl011Uart]
    );
}
