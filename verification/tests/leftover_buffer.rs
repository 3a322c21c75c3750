use cp211x_uart::rx_buffer::{RxBuffer, CAPACITY};

fn in_bounds(buffer: &RxBuffer) -> bool {
    buffer.start() + buffer.len() <= CAPACITY
}

#[test]
fn new_buffer_is_empty() {
    let mut buffer = RxBuffer::new();
    assert_eq!(buffer.len(), 0);
    assert_eq!(buffer.start(), 0);
    assert!(buffer.is_empty());
    let mut dest = [0xEEu8; 8];
    assert_eq!(buffer.read(&mut dest), 0);
    assert_eq!(dest, [0xEE; 8]);
}

#[test]
fn capacity_is_one_report() {
    assert_eq!(CAPACITY, 64);
}

#[test]
fn read_takes_everything_when_it_fits() {
    let mut buffer = RxBuffer::new();
    buffer.write(&[1, 2, 3]);
    assert_eq!(buffer.len(), 3);
    let mut dest = [0xEEu8; 5];
    assert_eq!(buffer.read(&mut dest), 3);
    assert_eq!(dest, [1, 2, 3, 0xEE, 0xEE]);
    assert_eq!(buffer.len(), 0);
    assert_eq!(buffer.start(), 0);
}

#[test]
fn read_in_parts_keeps_the_order() {
    let mut buffer = RxBuffer::new();
    buffer.write(&[10, 11, 12, 13, 14, 15, 16]);
    let mut dest = [0u8; 3];
    assert_eq!(buffer.read(&mut dest), 3);
    assert_eq!(dest, [10, 11, 12]);
    assert_eq!(buffer.start(), 3);
    assert_eq!(buffer.len(), 4);
    assert_eq!(buffer.read(&mut dest), 3);
    assert_eq!(dest, [13, 14, 15]);
    assert_eq!(buffer.start(), 6);
    assert_eq!(buffer.len(), 1);
    assert_eq!(buffer.read(&mut dest), 1);
    assert_eq!(dest, [16, 14, 15]);
    assert_eq!(buffer.start(), 0);
    assert_eq!(buffer.len(), 0);
    assert_eq!(buffer.read(&mut dest), 0);
    assert_eq!(dest, [16, 14, 15]);
}

#[test]
fn read_into_an_empty_destination_moves_nothing() {
    let mut buffer = RxBuffer::new();
    buffer.write(&[1, 2]);
    let mut dest: [u8; 0] = [];
    assert_eq!(buffer.read(&mut dest), 0);
    assert_eq!(buffer.len(), 2);
    assert_eq!(buffer.start(), 0);
}

#[test]
fn write_of_nothing_changes_nothing() {
    let mut buffer = RxBuffer::new();
    buffer.write(&[1, 2, 3, 4]);
    let mut dest = [0u8; 1];
    assert_eq!(buffer.read(&mut dest), 1);
    buffer.write(&[]);
    assert_eq!(buffer.start(), 1);
    assert_eq!(buffer.len(), 3);
    let mut rest = [0u8; 3];
    assert_eq!(buffer.read(&mut rest), 3);
    assert_eq!(rest, [2, 3, 4]);
}

#[test]
fn write_replaces_what_waited() {
    let mut buffer = RxBuffer::new();
    buffer.write(&[1, 2, 3, 4]);
    let mut dest = [0u8; 1];
    assert_eq!(buffer.read(&mut dest), 1);
    buffer.write(&[9, 8]);
    assert_eq!(buffer.start(), 0);
    assert_eq!(buffer.len(), 2);
    let mut rest = [0u8; 4];
    assert_eq!(buffer.read(&mut rest), 2);
    assert_eq!(rest, [9, 8, 0, 0]);
}

#[test]
fn write_of_a_full_report() {
    let mut source = [0u8; 64];
    for (i, byte) in source.iter_mut().enumerate() {
        *byte = i as u8;
    }
    let mut buffer = RxBuffer::new();
    buffer.write(&source);
    assert_eq!(buffer.len(), 64);
    assert!(in_bounds(&buffer));
    let mut dest = [0u8; 64];
    assert_eq!(buffer.read(&mut dest), 64);
    assert_eq!(dest, source);
    assert!(buffer.is_empty());
}

#[test]
fn clear_forgets_everything() {
    let mut buffer = RxBuffer::new();
    buffer.write(&[1, 2, 3, 4]);
    let mut dest = [0u8; 2];
    assert_eq!(buffer.read(&mut dest), 2);
    buffer.clear();
    assert_eq!(buffer.len(), 0);
    assert_eq!(buffer.start(), 0);
    assert_eq!(buffer.read(&mut dest), 0);
    assert_eq!(dest, [1, 2]);
}

#[test]
fn window_stays_inside_the_array() {
    let mut buffer = RxBuffer::new();
    assert!(in_bounds(&buffer));
    let mut seed: u32 = 12345;
    for round in 0..2000u32 {
        seed = seed.wrapping_mul(1_103_515_245).wrapping_add(12345);
        let amount = ((seed >> 16) % 65) as usize;
        if buffer.is_empty() {
            let source: Vec<u8> = (0..amount).map(|i| (i as u32 + round) as u8).collect();
            buffer.write(&source);
            assert_eq!(buffer.len(), amount);
        } else {
            let waiting = buffer.len();
            let mut dest = vec![0u8; amount];
            let moved = buffer.read(&mut dest);
            assert_eq!(moved, amount.min(waiting));
            assert_eq!(buffer.len(), waiting - moved);
        }
        assert!(in_bounds(&buffer));
        if round % 97 == 0 {
            buffer.clear();
            assert!(in_bounds(&buffer));
        }
    }
}
