use opsys::idt::{Entry, EntryOptions, Idt, IDT_ENTRIES};
use opsys::keyboard::Keyboard;
use opsys::page::Frame;
use opsys::pic::{Pic, PicPort, PIC1, PIC2};
use opsys::port::Port;
use opsys::vga::{clear_screen, Color, ColorCode, Writer, BUFFER_HEIGHT, BUFFER_WIDTH};

#[test]
fn keyboard_maps_plain_keys() {
    let mut keyboard = Keyboard::new();
    assert_eq!(keyboard.handle_keypress(2), Some('1'));
    assert_eq!(keyboard.handle_keypress(16), Some('q'));
    assert_eq!(keyboard.handle_keypress(57), Some(' '));
    assert_eq!(keyboard.handle_keypress(28), Some('\n'));
    assert_eq!(keyboard.handle_keypress(100), None);
}

#[test]
fn keyboard_table_boundary() {
    let mut keyboard = Keyboard::new();
    // 56 is an unprintable key inside the table, 59 the first code past it.
    assert_eq!(keyboard.get_char(56), Some('?'));
    assert_eq!(keyboard.get_char(59), None);
    assert_eq!(keyboard.handle_keypress(59), None);
}

#[test]
fn keyboard_shift_changes_row() {
    let mut keyboard = Keyboard::new();
    assert_eq!(keyboard.handle_keypress(0x2a), None); // shift down
    assert_eq!(keyboard.handle_keypress(2), Some('!'));
    assert_eq!(keyboard.handle_keypress(16), Some('Q'));
    assert_eq!(keyboard.handle_keypress(0xaa), None); // shift up
    assert_eq!(keyboard.handle_keypress(2), Some('1'));
}

#[test]
fn keyboard_caps_lock_toggles_and_shift_undoes_it() {
    let mut keyboard = Keyboard::new();
    assert_eq!(keyboard.handle_keypress(0x3a), None); // caps on
    assert_eq!(keyboard.handle_keypress(16), Some('Q'));
    assert_eq!(keyboard.handle_keypress(0x2a), None); // shift down too
    assert_eq!(keyboard.handle_keypress(16), Some('q'));
    assert_eq!(keyboard.handle_keypress(0xaa), None);
    assert_eq!(keyboard.handle_keypress(0x3a), None); // caps off
    assert_eq!(keyboard.handle_keypress(16), Some('q'));
}

#[test]
fn keyboard_release_without_press_is_harmless() {
    let mut keyboard = Keyboard::new();
    assert_eq!(keyboard.handle_keypress(0xaa), None);
    assert_eq!(keyboard.shift, 0);
    assert_eq!(keyboard.handle_keypress(2), Some('1'));
}

#[test]
fn keyboard_tracks_ctrl_and_alt() {
    let mut keyboard = Keyboard::new();
    keyboard.handle_keypress(0x1d);
    keyboard.handle_keypress(0x38);
    assert_eq!(keyboard.ctrl, 1);
    assert_eq!(keyboard.alt, 1);
    keyboard.handle_keypress(0x9d);
    keyboard.handle_keypress(0xb8);
    assert_eq!(keyboard.ctrl, 0);
    assert_eq!(keyboard.alt, 0);
}

#[test]
fn port_holds_its_address() {
    let port = Port::new(0x60);
    assert_eq!(port.id, 0x60);
    let pair = PicPort::new(0x20);
    assert_eq!(pair.com.id, 0x20);
    assert_eq!(pair.data.id, 0x21);
}

#[test]
fn pic_masks_individual_irqs() {
    let mut pic = Pic::new();
    assert_eq!(pic.pic1.com.id, PIC1);
    assert_eq!(pic.pic2.com.id, PIC2);
    assert_eq!(pic.mask1, 0xff);

    pic.clear_mask(0);
    pic.clear_mask(1);
    assert_eq!(pic.mask1, 0xfc);
    assert_eq!(pic.mask2, 0xff);

    pic.clear_mask(9);
    assert_eq!(pic.mask2, 0xfd);

    pic.set_mask(1);
    assert_eq!(pic.mask1, 0xfe);
    pic.set_mask(9);
    assert_eq!(pic.mask2, 0xff);

    pic.init();
    assert_eq!(pic.mask1, 0xff);
    assert_eq!(pic.mask2, 0xff);
}

#[test]
fn pic_combines_register_bytes() {
    let pic = Pic::new();
    assert_eq!(pic.get_register(0x34, 0x12), 0x1234);
    assert_eq!(pic.get_register(0xff, 0x00), 0x00ff);
}

#[test]
fn frame_range_is_inclusive() {
    let frames = Frame::range_inclusive(Frame { number: 3 }, Frame { number: 6 });
    let numbers: Vec<usize> = frames.iter().map(|f| f.number).collect();
    assert_eq!(numbers, vec![3, 4, 5, 6]);
    let empty = Frame::range_inclusive(Frame { number: 6 }, Frame { number: 3 });
    assert!(empty.is_empty());
}

#[test]
fn pic_end_of_interrupt_reaches_slave_for_high_irqs() {
    let pic = Pic::new();
    assert!(!pic.send_end_of_interrupt(0));
    assert!(!pic.send_end_of_interrupt(7));
    assert!(pic.send_end_of_interrupt(8));
    assert!(pic.send_end_of_interrupt(15));
}

#[test]
fn entry_options_bits() {
    let empty = EntryOptions::empty();
    assert_eq!(empty.0, 0x0e00);

    let fresh = EntryOptions::new();
    assert_eq!(fresh.0, 0x8e00);

    let mut opts = EntryOptions::new();
    opts.set_present(false);
    assert_eq!(opts.0, 0x0e00);
    opts.set_present(true);
    assert_eq!(opts.0, 0x8e00);

    opts.disable_interrupts(false);
    assert_eq!(opts.0, 0x8f00);
    opts.disable_interrupts(true);
    assert_eq!(opts.0, 0x8e00);

    opts.set_privilege_level(3);
    assert_eq!(opts.0, 0xee00);

    opts.set_stack_index(5);
    assert_eq!(opts.0, 0xee05);
}

#[test]
fn entry_splits_handler_address() {
    let entry = Entry::new(8, 0x1122_3344_5566_7788);
    assert_eq!(entry.pointer_low, 0x7788);
    assert_eq!(entry.pointer_middle, 0x5566);
    assert_eq!(entry.pointer_high, 0x1122_3344);
    assert_eq!(entry.gdt_selector, 8);
    assert_eq!(entry.options.0, 0x8e00);
    assert_eq!(entry.reserved, 0);
}

#[test]
fn idt_points_vectors_at_handlers() {
    let mut idt = Idt::new();
    assert_eq!(idt.table.len(), IDT_ENTRIES);
    assert!(idt.table.iter().all(|e| e.options.0 == 0x0e00));

    idt.set_handler(32, 8, 0xdead_beef);
    let entry = &idt.table[32];
    assert_eq!(entry.pointer_low, 0xbeef);
    assert_eq!(entry.pointer_middle, 0xdead);
    assert_eq!(entry.pointer_high, 0);
    assert_eq!(entry.options.0, 0x8e00);
    assert_eq!(idt.table[33].options.0, 0x0e00);
}

#[test]
fn color_code_packs_background_high() {
    let code = ColorCode::new(Color::White, Color::Black);
    assert_eq!(code.0, 0x0f);
    let code = ColorCode::new(Color::Yellow, Color::Blue);
    assert_eq!(code.0, 0x1e);
}

#[test]
fn writer_appends_on_bottom_row() {
    let mut writer = Writer::new();
    writer.write_byte(b'H');
    writer.write_byte(b'i');
    assert_eq!(writer.column_position, 2);
    let bottom = (BUFFER_HEIGHT - 1) * BUFFER_WIDTH;
    assert_eq!(writer.buffer[bottom].ascii_character, b'H');
    assert_eq!(writer.buffer[bottom + 1].ascii_character, b'i');
}

#[test]
fn writer_backspace_steps_back() {
    let mut writer = Writer::new();
    writer.write_byte(b'a');
    writer.write_byte(0x08);
    assert_eq!(writer.column_position, 0);
    writer.write_byte(0x08);
    assert_eq!(writer.column_position, 0);
}

#[test]
fn writer_newline_scrolls() {
    let mut writer = Writer::new();
    writer.write_byte(b'x');
    writer.write_byte(b'\n');
    assert_eq!(writer.column_position, 0);
    let moved_up = (BUFFER_HEIGHT - 2) * BUFFER_WIDTH;
    assert_eq!(writer.buffer[moved_up].ascii_character, b'x');
    let bottom = (BUFFER_HEIGHT - 1) * BUFFER_WIDTH;
    assert_eq!(writer.buffer[bottom].ascii_character, b' ');
}

#[test]
fn writer_wraps_a_full_row() {
    let mut writer = Writer::new();
    for _ in 0..BUFFER_WIDTH {
        writer.write_byte(b'a');
    }
    assert_eq!(writer.column_position, BUFFER_WIDTH);
    writer.write_byte(b'b');
    assert_eq!(writer.column_position, 1);
    let moved_up = (BUFFER_HEIGHT - 2) * BUFFER_WIDTH;
    assert_eq!(writer.buffer[moved_up].ascii_character, b'a');
    let bottom = (BUFFER_HEIGHT - 1) * BUFFER_WIDTH;
    assert_eq!(writer.buffer[bottom].ascii_character, b'b');
}

#[test]
fn clear_screen_blanks_everything() {
    let mut writer = Writer::new();
    for _ in 0..40 {
        writer.write_byte(b'z');
    }
    clear_screen(&mut writer);
    assert_eq!(writer.column_position, 0);
    assert!(writer
        .buffer
        .iter()
        .all(|cell| cell.ascii_character == b' '));
}
