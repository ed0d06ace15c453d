use kernel_core::binary::{summarize_binary, truncated_name};
use kernel_core::device::{Device, DeviceID};
use kernel_core::kernel::PlatformEvent;
use kernel_core::pci::{PCIAddress, PCIDeviceAddress, PCIProbe};
use kernel_core::ringbuffer::RingBufferData;
use kernel_core::vga::{Buffer, Char, Colour, ColourCode, Writer, BUFFER_HEIGHT, BUFFER_WIDTH};

#[test]
fn pci_config_address_packs_the_fields() {
    let address = PCIAddress::new(1, 2);
    assert_eq!(address.bus(), 1);
    assert_eq!(address.slot(), 2);
    assert_eq!(address.pci_address(0, 0x10), 0x8001_1010);
    assert_eq!(PCIAddress::new(0, 0).pci_address(0, 0), 0x8000_0000);
}

#[test]
fn pci_read_word_picks_the_addressed_half() {
    let address = PCIAddress::new(0, 0);
    assert_eq!(address.read_word(0xAABB_CCDD, 0), 0xCCDD);
    assert_eq!(address.read_word(0xAABB_CCDD, 2), 0xAABB);
}

#[test]
fn pci_get_info_decodes_the_header() {
    let slot = PCIDeviceAddress::new(0, 3);
    assert_eq!(slot.get_info(0xffff, 0x1111, 0), None);

    let info = slot.get_info(0x1234, 0x1111, 0x0300).expect("device present");
    assert_eq!(info.vendor_id, 0x1234);
    assert_eq!(info.device_id, 0x1111);
    assert_eq!(info.class, 0x00);
    assert_eq!(info.subclass, 0x03);
}

#[test]
fn discovery_connects_keyboard_filesystem_and_recognised_pci_devices() {
    let mut queue: RingBufferData<PlatformEvent> = RingBufferData::new_with_capacity(16);
    let probes = vec![
        PCIProbe { address: PCIAddress::new(0, 1), vendor: 0xffff, device: 0xffff, bar0: 0 },
        PCIProbe { address: PCIAddress::new(0, 2), vendor: 0x1234, device: 0x1111, bar0: 0xfd00_0000 },
        PCIProbe { address: PCIAddress::new(0, 3), vendor: 0x1033, device: 0x194, bar0: 0 },
        PCIProbe { address: PCIAddress::new(0, 4), vendor: 0xbeef, device: 0xcafe, bar0: 0 },
    ];
    let unknown = kernel_core::device::discover(&mut queue, &probes);

    match queue.pop() {
        PlatformEvent::DeviceConnected(id, Device::PCKeyboard(_)) => {
            assert_eq!(id, DeviceID::PCKeyboard);
        },
        other => panic!("expected the keyboard first, got {:?}", other),
    }
    match queue.pop() {
        PlatformEvent::DeviceConnected(id, Device::UEFIFilesystem(_)) => {
            assert_eq!(id, DeviceID::UEFIFilesystem);
        },
        other => panic!("expected the filesystem second, got {:?}", other),
    }
    match queue.pop() {
        PlatformEvent::DeviceConnected(id, Device::Cirus5446(controller)) => {
            assert_eq!(id, DeviceID::Cirus5446);
            assert_eq!(controller.framebuffer_address, 0xfd00_0000);
        },
        other => panic!("expected the graphics controller, got {:?}", other),
    }
    assert_eq!(queue.size(), 0);

    // Absent slots and the known-but-unsupported pair are not unknown;
    // the unrecognised slot is handed back for the shim's log.
    assert_eq!(unknown.len(), 1);
    assert_eq!(unknown[0].vendor, 0xbeef);
    assert_eq!(unknown[0].device, 0xcafe);
}

#[test]
fn bring_up_announces_keyboard_then_filesystem() {
    let mut queue: RingBufferData<PlatformEvent> = RingBufferData::new_with_capacity(16);
    let unknown = kernel_core::device::discover(&mut queue, &Vec::new());
    assert!(unknown.is_empty());

    assert_eq!(queue.size(), 2);
    assert!(matches!(
        queue.pop(),
        PlatformEvent::DeviceConnected(DeviceID::PCKeyboard, Device::PCKeyboard(_))
    ));
    assert!(matches!(
        queue.pop(),
        PlatformEvent::DeviceConnected(DeviceID::UEFIFilesystem, Device::UEFIFilesystem(_))
    ));
}

fn blank_writer() -> Writer {
    let blank = Char { ascii_character: b' ', colour_code: ColourCode(0) };
    let chars = vec![vec![blank; BUFFER_WIDTH]; BUFFER_HEIGHT];
    Writer {
        column_position: 0,
        colour_code: ColourCode::new(Colour::Yellow, Colour::Black),
        buffer: Buffer { chars },
    }
}

#[test]
fn colour_code_packs_background_high() {
    assert_eq!(ColourCode::new(Colour::Yellow, Colour::Black), ColourCode(0x0E));
    assert_eq!(ColourCode::new(Colour::White, Colour::Blue), ColourCode(0x1F));
}

#[test]
fn writer_places_bytes_on_the_bottom_row() {
    let mut writer = blank_writer();
    writer.write_byte(b'H');
    writer.write_byte(b'i');

    let row = BUFFER_HEIGHT - 1;
    assert_eq!(writer.buffer.chars[row][0].ascii_character, b'H');
    assert_eq!(writer.buffer.chars[row][1].ascii_character, b'i');
    assert_eq!(writer.buffer.chars[row][0].colour_code, ColourCode(0x0E));
    assert_eq!(writer.column_position, 2);
}

#[test]
fn writer_newline_resets_the_column() {
    let mut writer = blank_writer();
    writer.write_byte(b'x');
    writer.write_byte(b'\n');
    assert_eq!(writer.column_position, 0);

    writer.write_byte(b'y');
    assert_eq!(writer.buffer.chars[BUFFER_HEIGHT - 1][0].ascii_character, b'y');
}

#[test]
fn writer_wraps_a_full_row() {
    let mut writer = blank_writer();
    for _ in 0..BUFFER_WIDTH {
        writer.write_byte(b'a');
    }
    assert_eq!(writer.column_position, BUFFER_WIDTH);

    writer.write_byte(b'b');
    assert_eq!(writer.column_position, 1);
    assert_eq!(writer.buffer.chars[BUFFER_HEIGHT - 1][0].ascii_character, b'b');
}

/// A minimal portable-executable image: a bare DOS header pointing at the
/// PE signature, a COFF header with no optional header, and one `.text`
/// section row.
fn tiny_pe_image() -> Vec<u8> {
    let mut bytes = vec![0u8; 0x80];
    bytes[0] = b'M';
    bytes[1] = b'Z';
    bytes[0x3c] = 0x40;

    bytes[0x40] = b'P';
    bytes[0x41] = b'E';

    // COFF header at 0x44: machine x86-64, one section, no symbols, no
    // optional header.
    bytes[0x44] = 0x64;
    bytes[0x45] = 0x86;
    bytes[0x46] = 1;

    // Section table at 0x58.
    let section = 0x58;
    bytes[section..section + 5].copy_from_slice(b".text");
    // virtual_size 0x100, virtual_address 0x1000, size_of_raw_data 0x200,
    // pointer_to_raw_data 0x400.
    bytes[section + 8] = 0x00;
    bytes[section + 9] = 0x01;
    bytes[section + 12] = 0x00;
    bytes[section + 13] = 0x10;
    bytes[section + 16] = 0x00;
    bytes[section + 17] = 0x02;
    bytes[section + 20] = 0x00;
    bytes[section + 21] = 0x04;
    bytes
}

#[test]
fn summarize_binary_reports_the_sections() {
    let image = tiny_pe_image();
    let summaries = summarize_binary(&image).expect("the image parses");
    assert_eq!(summaries.len(), 1);
    assert_eq!(summaries[0].name, b".text".to_vec());
    assert_eq!(summaries[0].virtual_address, 0x1000);
    assert_eq!(summaries[0].size_of_raw_data, 0x200);
}

#[test]
fn truncated_name_stops_at_the_first_nul() {
    assert_eq!(truncated_name(b".text\0\0\0"), b".text".to_vec());
    assert_eq!(truncated_name(b"fulltext"), b"fulltext".to_vec());
    assert_eq!(truncated_name(&[0; 8]), Vec::<u8>::new());
}

#[test]
fn unprintable_bytes_become_tildes() {
    assert_eq!(Writer::printable_or_tilde(b'a'), b'a');
    assert_eq!(Writer::printable_or_tilde(b' '), b' ');
    assert_eq!(Writer::printable_or_tilde(0x07), b'~');
    assert_eq!(Writer::printable_or_tilde(0x7f), b'~');
}

#[test]
fn summarize_binary_rejects_garbage() {
    assert!(summarize_binary(&vec![0u8; 16]).is_err());
    assert!(summarize_binary(&Vec::new()).is_err());
}
