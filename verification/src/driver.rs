//! BSP driver support.
//!
//! The board's device-driver manager owns the fixed list of drivers in
//! bring-up order and hands out the subsets the kernel initializes
//! before and after the console becomes usable.  Touching the hardware
//! itself — probing a device, configuring pins — is the surrounding
//! binary's job; which drivers are handed out, and in what order, is
//! decided and proved here.

use vstd::prelude::*;

verus! {

/// The board's device drivers.
#[derive(Clone, Copy, PartialEq, Eq, Structural, Debug)]
pub enum DeviceDriverKind {
    Gpio,
    Pl011Uart,
    InterruptController,
}

/// The fixed list of the board's drivers, in bring-up order: the GPIO
/// block and the UART come first so that printing works as early as
/// possible; the interrupt controller follows.
pub open spec fn spec_bsp_device_drivers() -> Seq<DeviceDriverKind> {
    seq![
        DeviceDriverKind::Gpio,
        DeviceDriverKind::Pl011Uart,
        DeviceDriverKind::InterruptController,
    ]
}

/// Device driver manager.
pub struct BSPDriverManager {
    device_drivers: Vec<DeviceDriverKind>,
    pl011_uart_pins_mapped: bool,
}

impl View for BSPDriverManager {
    type V = Seq<DeviceDriverKind>;

    /// The managed drivers, in bring-up order.
    closed spec fn view(&self) -> Seq<DeviceDriverKind> {
        self.device_drivers@
    }
}

impl BSPDriverManager {
    /// The manager always holds exactly the board's driver list.
    #[verifier::type_invariant]
    spec fn inv(self) -> bool {
        self.device_drivers@ == spec_bsp_device_drivers()
    }

    /// Whether the UART's output pins have been routed through the GPIO
    /// block yet.
    pub closed spec fn spec_pl011_uart_pins_mapped(self) -> bool {
        self.pl011_uart_pins_mapped
    }

    /// All managed drivers, in bring-up order.
    pub fn all_device_drivers(&self) -> (r: &[DeviceDriverKind])
        ensures
            r@ == self@,
            self@ == spec_bsp_device_drivers(),
    {
        proof {
            use_type_invariant(&*self);
        }
        self.device_drivers.as_slice()
    }

    /// The drivers that must be live before anything can be printed:
    /// the GPIO block and the UART.
    pub fn early_print_device_drivers(&self) -> (r: &[DeviceDriverKind])
        ensures
            r@ == self@.take(2),
            self@ == spec_bsp_device_drivers(),
    {
        proof {
            use_type_invariant(&*self);
        }
        vstd::slice::slice_subrange(self.device_drivers.as_slice(), 0, 2)
    }

    /// The drivers whose bring-up may already log: everything after the
    /// early-print set.
    pub fn non_early_print_device_drivers(&self) -> (r: &[DeviceDriverKind])
        ensures
            r@ == self@.skip(2),
            self@ == spec_bsp_device_drivers(),
    {
        proof {
            use_type_invariant(&*self);
        }
        vstd::slice::slice_subrange(self.device_drivers.as_slice(), 2, 3)
    }

    /// Record that the early-print drivers are initialized: the UART's
    /// output pins are now routed through the GPIO block.  Performing
    /// the pin configuration on the hardware is the surrounding
    /// binary's job.
    pub fn post_early_print_device_driver_init(&mut self)
        ensures
            final(self)@ == old(self)@,
            final(self).spec_pl011_uart_pins_mapped(),
    {
        proof {
            use_type_invariant(&*self);
        }
        self.pl011_uart_pins_mapped = true;
    }
}

/// Return the board's driver manager, with the UART pins not yet
/// routed.
pub fn driver_manager() -> (r: BSPDriverManager)
    ensures
        r@ == spec_bsp_device_drivers(),
        !r.spec_pl011_uart_pins_mapped(),
{
    let mut device_drivers: Vec<DeviceDriverKind> = Vec::new();
    device_drivers.push(DeviceDriverKind::Gpio);
    device_drivers.push(DeviceDriverKind::Pl011Uart);
    device_drivers.push(DeviceDriverKind::InterruptController);
    proof {
        assert(device_drivers@ =~= spec_bsp_device_drivers());
    }
    BSPDriverManager { device_drivers, pl011_uart_pins_mapped: false }
}

} // verus!
