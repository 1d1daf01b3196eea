use chip8::memory::Memory;
use chip8::screen::{from_idx, idx, normalize_coordinates, Screen};

fn memory_with(at: usize, bytes: &[u8]) -> Memory {
    let mut memory = Memory::new();
    for (k, byte) in bytes.iter().enumerate() {
        memory.write(at + k, *byte);
    }
    memory
}

#[test]
fn coordinates_wrap_onto_the_display() {
    assert_eq!(normalize_coordinates(0, 0), (0, 0));
    assert_eq!(normalize_coordinates(63, 31), (63, 31));
    assert_eq!(normalize_coordinates(64, 32), (0, 0));
    assert_eq!(normalize_coordinates(70, 33), (6, 1));
    assert_eq!(normalize_coordinates(255, 255), (63, 31));
}

#[test]
fn index_of_a_pixel() {
    assert_eq!(idx(0, 0), 0);
    assert_eq!(idx(63, 0), 63);
    assert_eq!(idx(0, 1), 64);
    assert_eq!(idx(5, 3), 197);
    assert_eq!(idx(63, 31), 2047);
}

#[test]
fn pixel_of_an_index() {
    assert_eq!(from_idx(0), (0, 0));
    assert_eq!(from_idx(63), (63, 0));
    assert_eq!(from_idx(64), (0, 1));
    assert_eq!(from_idx(197), (5, 3));
    assert_eq!(from_idx(2047), (63, 31));
}

#[test]
fn from_idx_undoes_idx() {
    for y in 0..32 {
        for x in 0..64 {
            assert_eq!(from_idx(idx(x, y)), (x, y));
        }
    }
}

#[test]
fn memory_starts_zeroed_and_keeps_what_is_written() {
    let mut memory = Memory::new();
    for addr in 0..4096 {
        assert_eq!(memory.read(addr), 0);
    }
    memory.write(0, 1);
    memory.write(4095, 0xFF);
    memory.write(0x200, 0x42);
    assert_eq!(memory.read(0), 1);
    assert_eq!(memory.read(4095), 0xFF);
    assert_eq!(memory.read(0x200), 0x42);
    assert_eq!(memory.read(0x201), 0);
    memory.write(0x200, 0x43);
    assert_eq!(memory.read(0x200), 0x43);
}

#[test]
fn a_new_screen_is_blank() {
    let screen = Screen::new();
    assert!(screen.pixels().iter().all(|on| !on));
    assert!(screen.render().is_empty());
}

#[test]
fn pixels_are_set_and_read_by_row_and_column() {
    let mut screen = Screen::new();
    screen.set_pixel(3, 5, true);
    assert!(screen.get_pixel(3, 5));
    assert!(!screen.get_pixel(5, 3));
    assert!(screen.pixels()[197]);
    assert_eq!(screen.render(), vec![(5, 3)]);
    screen.set_pixel(3, 5, false);
    assert!(screen.render().is_empty());
}

#[test]
fn pixel_positions_wrap_round_the_buffer() {
    let mut screen = Screen::new();
    // row 32 is row 0 again, column 64 of row 0 is column 0 of row 1
    screen.set_pixel(32, 1, true);
    assert!(screen.get_pixel(0, 1));
    screen.set_pixel(0, 64, true);
    assert!(screen.get_pixel(1, 0));
    screen.set_pixel(31, 64, true);
    assert!(screen.get_pixel(0, 0));
    assert!(screen.get_pixel(usize::MAX, usize::MAX) == screen.get_pixel(31, 63 + 64 * 31));
    assert_eq!(screen.render(), vec![(0, 0), (1, 0), (0, 1)]);
}

#[test]
fn render_lists_lit_pixels_in_buffer_order() {
    let mut screen = Screen::new();
    screen.set_pixel(31, 63, true);
    screen.set_pixel(0, 0, true);
    screen.set_pixel(10, 20, true);
    screen.set_pixel(10, 3, true);
    assert_eq!(screen.render(), vec![(0, 0), (3, 10), (20, 10), (63, 31)]);
}

#[test]
fn clear_turns_every_pixel_off() {
    let mut screen = Screen::new();
    for k in 0..2048usize {
        screen.set_pixel(k / 64, k % 64, k % 3 == 0);
    }
    assert_eq!(screen.render().len(), 683);
    screen.clear_screen();
    assert!(screen.pixels().iter().all(|on| !on));
}

#[test]
fn sprite_bits_run_from_the_most_significant() {
    let memory = memory_with(0x300, &[0b1010_0001]);
    let mut screen = Screen::new();
    assert!(!screen.buffer_graphics(&memory, 8, 2, 1, 0x300));
    assert_eq!(screen.render(), vec![(8, 2), (10, 2), (15, 2)]);
}

#[test]
fn sprite_rows_go_down() {
    let memory = memory_with(0x300, &[0x80, 0x40, 0x20]);
    let mut screen = Screen::new();
    assert!(!screen.buffer_graphics(&memory, 0, 0, 3, 0x300));
    assert_eq!(screen.render(), vec![(0, 0), (1, 1), (2, 2)]);
}

#[test]
fn drawing_twice_restores_the_buffer_and_collides() {
    let memory = memory_with(0x300, &[0xFF, 0x81, 0xFF]);
    let mut screen = Screen::new();
    screen.set_pixel(20, 20, true);
    screen.set_pixel(11, 12, true);
    let before = *screen.pixels();
    // (12, 11) is under a clear bit of the middle row: nothing collides
    assert!(!screen.buffer_graphics(&memory, 10, 10, 3, 0x300));
    assert_ne!(*screen.pixels(), before);
    assert!(screen.buffer_graphics(&memory, 10, 10, 3, 0x300));
    assert_eq!(*screen.pixels(), before);
}

#[test]
fn first_drawing_collides_when_it_hits_a_lit_pixel() {
    let memory = memory_with(0x300, &[0xFF]);
    let mut screen = Screen::new();
    screen.set_pixel(0, 7, true);
    assert!(screen.buffer_graphics(&memory, 0, 0, 1, 0x300));
    assert!(!screen.get_pixel(0, 7));
    assert_eq!(screen.render().len(), 7);
    // second drawing: the seven pixels that were off at first collide
    assert!(screen.buffer_graphics(&memory, 0, 0, 1, 0x300));
    assert_eq!(screen.render(), vec![(7, 0)]);
}

#[test]
fn drawing_a_sprite_exactly_over_itself_collides_once() {
    let memory = memory_with(0x300, &[0xF0]);
    let mut screen = Screen::new();
    for col in 0..4 {
        screen.set_pixel(0, col, true);
    }
    // every set bit hits a lit pixel: the first drawing collides and erases,
    // the second meets only pixels that are off
    assert!(screen.buffer_graphics(&memory, 0, 0, 1, 0x300));
    assert!(screen.render().is_empty());
    assert!(!screen.buffer_graphics(&memory, 0, 0, 1, 0x300));
    assert_eq!(screen.render().len(), 4);
}

#[test]
fn sprite_is_clipped_at_both_edges() {
    let memory = memory_with(0x300, &[0xFF, 0xFF, 0xFF]);
    let mut screen = Screen::new();
    assert!(!screen.buffer_graphics(&memory, 60, 30, 3, 0x300));
    assert_eq!(
        screen.render(),
        vec![(60, 30), (61, 30), (62, 30), (63, 30), (60, 31), (61, 31), (62, 31), (63, 31)]
    );
}

#[test]
fn clipped_bits_do_not_collide() {
    let memory = memory_with(0x300, &[0x0F, 0xFF]);
    let mut screen = Screen::new();
    // the four set bits of the first row lie right of the display, the second
    // row below it
    screen.set_pixel(31, 0, true);
    screen.set_pixel(0, 0, true);
    assert!(!screen.buffer_graphics(&memory, 60, 31, 2, 0x300));
    assert_eq!(screen.render(), vec![(0, 0), (0, 31)]);
}

#[test]
fn start_coordinates_wrap() {
    let memory = memory_with(0x300, &[0x80]);
    let mut screen = Screen::new();
    screen.buffer_graphics(&memory, 70, 33, 1, 0x300);
    screen.buffer_graphics(&memory, 128, 64, 1, 0x300);
    screen.buffer_graphics(&memory, 255, 255, 1, 0x300);
    assert_eq!(screen.render(), vec![(0, 0), (6, 1), (63, 31)]);
}

#[test]
fn tall_sprite_counts_are_clipped() {
    let mut memory = Memory::new();
    for addr in 0..4096 {
        memory.write(addr, 0x80);
    }
    let mut screen = Screen::new();
    assert!(!screen.buffer_graphics(&memory, 0, 0, 255, 0));
    assert_eq!(screen.render().len(), 32);
    for y in 0..32 {
        assert!(screen.get_pixel(y, 0));
    }
}

#[test]
fn sprite_address_wraps_at_the_end_of_memory() {
    let mut memory = Memory::new();
    memory.write(0xFFF, 0x80);
    memory.write(0x000, 0x40);
    memory.write(0x001, 0x20);
    let mut screen = Screen::new();
    screen.buffer_graphics(&memory, 0, 0, 3, 0xFFF);
    assert_eq!(screen.render(), vec![(0, 0), (1, 1), (2, 2)]);
    let mut screen = Screen::new();
    screen.buffer_graphics(&memory, 0, 0, 2, 0xFFFF);
    assert_eq!(screen.render(), vec![(0, 0), (1, 1)]);
}
