use kernel_core::cirus5446::Cirus5446;
use kernel_core::device::{Device, DeviceAddress, DeviceID, PollRequest};
use kernel_core::kernel::{irq_event, Kernel, KernelAction, PlatformEvent};
use kernel_core::pc_keyboard::PCKeyboard;
use kernel_core::pci::PCIAddress;
use kernel_core::registry::DeviceRegistry;
use kernel_core::uefi_filesystem::UEFIFilesystem;

fn keyboard() -> Device {
    Device::PCKeyboard(PCKeyboard::new())
}

fn graphics() -> Device {
    Device::Cirus5446(Cirus5446::new(
        DeviceAddress::PCI(PCIAddress::new(0, 2)),
        0xfd00_0000,
    ))
}

fn filesystem() -> Device {
    Device::UEFIFilesystem(UEFIFilesystem::new())
}

#[test]
fn dispatch_registers_then_polls_exactly_once() {
    let mut kernel = Kernel::new();
    kernel.push_event(PlatformEvent::DeviceConnected(DeviceID::PCKeyboard, keyboard()));
    let actions = kernel.process_events();
    assert_eq!(actions, vec![KernelAction::DeviceRegistered(DeviceID::PCKeyboard)]);

    let registered = kernel.device_registry.device(DeviceID::PCKeyboard);
    assert_eq!(registered, Some(&keyboard()));

    kernel.push_event(PlatformEvent::DevicePollable(DeviceID::PCKeyboard));
    let actions = kernel.process_events();
    assert_eq!(
        actions,
        vec![KernelAction::DevicePolled(DeviceID::PCKeyboard, PollRequest::ReadKeyboardScancode)]
    );
}

#[test]
fn unknown_id_is_reported_and_harmless() {
    let mut kernel = Kernel::new();
    kernel.push_event(PlatformEvent::DeviceConnected(DeviceID::PCKeyboard, keyboard()));
    let _ = kernel.process_events();

    kernel.push_event(PlatformEvent::DevicePollable(DeviceID::Cirus5446));
    let actions = kernel.process_events();
    assert_eq!(actions, vec![KernelAction::UnknownDevice(DeviceID::Cirus5446)]);

    assert_eq!(kernel.device_registry.device(DeviceID::Cirus5446), None);
    assert_eq!(kernel.device_registry.device(DeviceID::PCKeyboard), Some(&keyboard()));
}

#[test]
fn irq_lines_map_to_events() {
    assert_eq!(irq_event(0), Some(PlatformEvent::ClockTicked));
    assert_eq!(irq_event(1), Some(PlatformEvent::DevicePollable(DeviceID::PCKeyboard)));
    assert_eq!(irq_event(7), None);
    assert_eq!(irq_event(0xff), None);
}

#[test]
fn first_drain_registers_both_announced_devices() {
    let mut kernel = Kernel::new();
    let unknown = kernel_core::device::discover(&mut kernel.queue, &Vec::new());
    assert!(unknown.is_empty());

    let actions = kernel.process_events();
    assert_eq!(
        actions,
        vec![
            KernelAction::DeviceRegistered(DeviceID::PCKeyboard),
            KernelAction::DeviceRegistered(DeviceID::UEFIFilesystem),
        ]
    );
    assert_eq!(kernel.device_registry.device(DeviceID::PCKeyboard), Some(&keyboard()));
    assert_eq!(kernel.device_registry.device(DeviceID::UEFIFilesystem), Some(&filesystem()));
    assert_eq!(kernel.device_registry.filesystem_devices(), vec![DeviceID::UEFIFilesystem]);
}

#[test]
fn clock_tick_only_logs() {
    let mut kernel = Kernel::new();
    kernel.push_event(PlatformEvent::ClockTicked);
    kernel.push_event(PlatformEvent::ClockTicked);
    let actions = kernel.process_events();
    assert_eq!(actions, vec![KernelAction::Ticked, KernelAction::Ticked]);
}

#[test]
fn capability_enumeration_matches_variants() {
    let mut registry = DeviceRegistry::new();
    registry.insert(DeviceID::PCKeyboard, keyboard());
    registry.insert(DeviceID::UEFIFilesystem, filesystem());
    registry.insert(DeviceID::Cirus5446, graphics());

    assert_eq!(registry.filesystem_devices(), vec![DeviceID::UEFIFilesystem]);
    assert_eq!(registry.graphics_devices(), vec![DeviceID::Cirus5446]);
}

#[test]
fn capability_enumeration_ignores_insertion_order() {
    let mut reversed = DeviceRegistry::new();
    reversed.insert(DeviceID::Cirus5446, graphics());
    reversed.insert(DeviceID::UEFIFilesystem, filesystem());
    reversed.insert(DeviceID::PCKeyboard, keyboard());

    assert_eq!(reversed.filesystem_devices(), vec![DeviceID::UEFIFilesystem]);
    assert_eq!(reversed.graphics_devices(), vec![DeviceID::Cirus5446]);
}

#[test]
fn insert_replaces_previous_instance() {
    let mut registry = DeviceRegistry::new();
    let first = Cirus5446::new(DeviceAddress::PCI(PCIAddress::new(0, 2)), 0x1000);
    let second = Cirus5446::new(DeviceAddress::PCI(PCIAddress::new(0, 3)), 0x2000);
    registry.insert(DeviceID::Cirus5446, Device::Cirus5446(first));
    registry.insert(DeviceID::Cirus5446, Device::Cirus5446(second));

    assert_eq!(registry.device(DeviceID::Cirus5446), Some(&Device::Cirus5446(second)));
    assert_eq!(registry.graphics_devices(), vec![DeviceID::Cirus5446]);
}

#[test]
fn poll_requests_per_variant() {
    let mut kb = keyboard();
    let mut gfx = graphics();
    let mut fs = filesystem();
    assert_eq!(kb.poll(), PollRequest::ReadKeyboardScancode);
    assert_eq!(gfx.poll(), PollRequest::NoWork);
    assert_eq!(fs.poll(), PollRequest::NoWork);

    assert!(!kb.as_filesystem());
    assert!(!kb.as_graphics_device());
    assert!(fs.as_filesystem());
    assert!(gfx.as_graphics_device());
}

#[test]
fn clear_screen_collects_framebuffers() {
    let mut kernel = Kernel::new();
    kernel.push_event(PlatformEvent::DeviceConnected(DeviceID::PCKeyboard, keyboard()));
    kernel.push_event(PlatformEvent::DeviceConnected(DeviceID::Cirus5446, graphics()));
    let _ = kernel.process_events();

    let requests = kernel.clear_screen().expect("clearing cannot fail");
    assert_eq!(requests.len(), 1);
    assert_eq!(requests[0].framebuffer_address, 0xfd00_0000);
}

#[test]
fn clear_screen_without_graphics_is_a_no_op() {
    let mut kernel = Kernel::new();
    kernel.push_event(PlatformEvent::DeviceConnected(DeviceID::PCKeyboard, keyboard()));
    let _ = kernel.process_events();

    let requests = kernel.clear_screen().expect("clearing cannot fail");
    assert!(requests.is_empty());
}
