use bytey::byte_buffer::ByteBuffer;
use bytey::byte_order::ByteOrder;
use bytey::error::ByteBufferError;
use bytey::growth::checked_next_power_of_two;

fn assert_invariant(buffer: &ByteBuffer) {
    assert!(buffer.cursor() <= buffer.length());
    assert!(buffer.length() <= buffer.capacity());
    assert!(0 < buffer.capacity() && buffer.capacity() <= ByteBuffer::MAX_SIZE);
}

#[test]
fn new_arena_is_empty_with_minimum_capacity() {
    let buffer = ByteBuffer::new().unwrap();

    assert_eq!(ByteBuffer::MIN_SIZE, 8);
    assert_eq!(ByteBuffer::MAX_SIZE, isize::MAX as usize);
    assert_eq!(buffer.capacity(), 8);
    assert_eq!(buffer.length(), 0);
    assert_eq!(buffer.cursor(), 0);
    assert!(buffer.is_empty());
}

#[test]
fn growth_goes_to_the_next_power_of_two() {
    let mut buffer = ByteBuffer::new().unwrap();

    buffer.write_slice(&[0; 8]).unwrap();
    assert_eq!(buffer.capacity(), 8);

    buffer.write_slice(&[0; 2]).unwrap();
    assert_eq!(buffer.capacity(), 16);

    buffer.write_slice(&[0; 2]).unwrap();
    assert_eq!(buffer.capacity(), 16);
}

#[test]
fn growth_skips_the_powers_that_are_too_small() {
    let mut buffer = ByteBuffer::with_capacity(1).unwrap();

    buffer.write_slice(&[7; 100]).unwrap();
    assert_eq!(buffer.capacity(), 128);
    assert_eq!(buffer.length(), 100);

    let mut odd = ByteBuffer::with_capacity(5).unwrap();
    odd.write_slice(&[1; 5]).unwrap();
    assert_eq!(odd.capacity(), 5);
    odd.write_slice(&[1]).unwrap();
    assert_eq!(odd.capacity(), 8);
}

#[test]
fn next_power_of_two_of_small_and_large_numbers() {
    assert_eq!(checked_next_power_of_two(0), Some(1));
    assert_eq!(checked_next_power_of_two(1), Some(1));
    assert_eq!(checked_next_power_of_two(2), Some(2));
    assert_eq!(checked_next_power_of_two(3), Some(4));
    assert_eq!(checked_next_power_of_two(17), Some(32));
    assert_eq!(checked_next_power_of_two(1024), Some(1024));
    assert_eq!(checked_next_power_of_two(1025), Some(2048));
    assert_eq!(
        checked_next_power_of_two(isize::MAX as usize),
        Some(isize::MAX as usize + 1)
    );
    assert_eq!(checked_next_power_of_two(isize::MAX as usize + 2), None);
    assert_eq!(checked_next_power_of_two(usize::MAX), None);
}

#[test]
fn cursor_stays_within_length_and_length_within_capacity() {
    let mut buffer = ByteBuffer::with_capacity(3).unwrap();
    assert_invariant(&buffer);

    buffer.write_slice(&[1, 2, 3, 4, 5]).unwrap();
    assert_invariant(&buffer);

    buffer.move_cursor(2).unwrap();
    assert_invariant(&buffer);

    buffer.write(0x0102_0304_0506_0708u64).unwrap();
    assert_invariant(&buffer);

    buffer.read_slice(0).unwrap();
    assert_invariant(&buffer);

    buffer.resize(4).unwrap();
    assert_invariant(&buffer);
    assert_eq!(
        (buffer.cursor(), buffer.length(), buffer.capacity()),
        (4, 4, 4)
    );

    buffer.truncate(1).unwrap();
    assert_invariant(&buffer);

    buffer.expand(12).unwrap();
    assert_invariant(&buffer);

    buffer.shrink_to_fit().unwrap();
    assert_invariant(&buffer);
    assert_eq!(
        (buffer.cursor(), buffer.length(), buffer.capacity()),
        (1, 1, 8)
    );

    assert!(buffer.read::<u32>().is_err());
    assert_invariant(&buffer);
    assert!(buffer.move_cursor(2).is_err());
    assert_invariant(&buffer);
}

#[test]
fn read_beyond_the_length_reports_the_exact_bounds() {
    let mut buffer = ByteBuffer::new().unwrap();

    buffer.write_slice(&[1, 2, 3, 4]).unwrap();
    buffer.move_cursor(0).unwrap();

    assert_eq!(
        buffer.read_slice(5).err().unwrap(),
        ByteBufferError::ReadOutOfBounds {
            length: 4,
            start: 0,
            end: 5
        }
    );
    assert_eq!(buffer.cursor(), 0);

    buffer.move_cursor(3).unwrap();
    assert_eq!(buffer.read_slice(1).unwrap(), [4]);
    assert_eq!(
        buffer.read_slice(1).err().unwrap(),
        ByteBufferError::ReadOutOfBounds {
            length: 4,
            start: 4,
            end: 5
        }
    );
    assert_eq!(buffer.read_slice(0).unwrap(), []);
}

#[test]
fn read_of_more_than_fits_in_usize_reports_the_largest_end() {
    let mut buffer = ByteBuffer::new().unwrap();

    buffer.write_slice(&[1, 2, 3, 4]).unwrap();

    assert_eq!(
        buffer.read_slice(usize::MAX).err().unwrap(),
        ByteBufferError::ReadOutOfBounds {
            length: 4,
            start: 4,
            end: usize::MAX
        }
    );
    assert_eq!(
        buffer.slice_from(2, usize::MAX).err().unwrap(),
        ByteBufferError::ReadOutOfBounds {
            length: 4,
            start: 2,
            end: usize::MAX
        }
    );
}

#[test]
fn truncate_moves_a_cursor_beyond_the_new_length() {
    let mut buffer = ByteBuffer::new().unwrap();

    buffer.write_slice(&[1, 2, 3, 4]).unwrap();
    assert_eq!(buffer.cursor(), 4);

    buffer.truncate(0).unwrap();
    assert_eq!(buffer.cursor(), 0);
    assert_eq!(buffer.length(), 0);
    assert_eq!(buffer.capacity(), 8);
}

#[test]
fn truncate_leaves_a_cursor_within_the_new_length() {
    let mut buffer = ByteBuffer::new().unwrap();

    buffer.write_slice(&[1, 2, 3, 4]).unwrap();
    buffer.move_cursor(1).unwrap();
    buffer.truncate(3).unwrap();

    assert_eq!(buffer.cursor(), 1);
    assert_eq!(buffer.length(), 3);
    assert_eq!(buffer.as_slice(), [1, 2, 3]);
}

#[test]
fn truncate_to_more_than_the_length_fails() {
    let mut buffer = ByteBuffer::new().unwrap();

    buffer.write_slice(&[1, 2, 3, 4]).unwrap();

    assert_eq!(
        buffer.truncate(5).err().unwrap(),
        ByteBufferError::LengthOutOfBounds { current: 4, new: 5 }
    );
    assert_eq!(buffer.length(), 4);
    assert_eq!(buffer.cursor(), 4);
}

#[test]
fn cursor_moves_within_the_length_only() {
    let mut buffer = ByteBuffer::new().unwrap();

    buffer.write_slice(&[1, 2, 3]).unwrap();

    assert_eq!(
        buffer.move_cursor(4).err().unwrap(),
        ByteBufferError::CursorOutOfBounds {
            length: 3,
            cursor: 4
        }
    );
    assert_eq!(buffer.cursor(), 3);

    buffer.move_cursor(3).unwrap();
    assert_eq!(buffer.cursor(), 3);
    buffer.move_cursor_to_start();
    assert_eq!(buffer.cursor(), 0);
    buffer.move_cursor_to_end();
    assert_eq!(buffer.cursor(), 3);
    buffer.move_cursor(1).unwrap().move_cursor_unchecked(2);
    assert_eq!(buffer.cursor(), 2);
}

#[test]
fn write_in_the_middle_overwrites_and_extends() {
    let mut buffer = ByteBuffer::new().unwrap();

    buffer.write_slice(&[1, 2, 3, 4, 5, 6]).unwrap();
    buffer.move_cursor(2).unwrap();
    buffer.write_slice(&[9, 9]).unwrap();
    assert_eq!(buffer.cursor(), 4);
    assert_eq!(buffer.length(), 6);

    buffer.move_cursor(5).unwrap();
    buffer.write_slice(&[7, 7, 7]).unwrap();
    assert_eq!(buffer.cursor(), 8);
    assert_eq!(buffer.length(), 8);
    assert_eq!(buffer.capacity(), 8);
    assert_eq!(buffer.as_slice(), [1, 2, 9, 9, 5, 7, 7, 7]);
    assert_eq!(buffer.cursor(), 8);
}

#[test]
fn write_of_nothing_changes_nothing() {
    let mut buffer = ByteBuffer::with_capacity(2).unwrap();

    buffer.write_slice(&[1, 2]).unwrap();
    buffer.write_slice(&[]).unwrap();

    assert_eq!(buffer.capacity(), 2);
    assert_eq!(buffer.length(), 2);
    assert_eq!(buffer.cursor(), 2);
}

#[test]
fn unchecked_write_and_read_follow_the_checked_ones() {
    let mut buffer = ByteBuffer::with_capacity(4).unwrap();

    buffer.write_slice_unchecked(&[1, 2, 3]);
    assert_eq!(buffer.cursor(), 3);
    assert_eq!(buffer.length(), 3);
    assert_eq!(buffer.capacity(), 4);

    buffer.move_cursor_unchecked(1);
    assert_eq!(buffer.read_slice_unchecked(2), [2, 3]);
    assert_eq!(buffer.cursor(), 3);
}

#[test]
fn resize_keeps_the_bytes_that_still_fit() {
    let mut buffer = ByteBuffer::new().unwrap();

    buffer.write_slice(&[1, 2, 3, 4, 5, 6]).unwrap();
    buffer.move_cursor(2).unwrap();

    buffer.resize(64).unwrap();
    assert_eq!(
        (buffer.cursor(), buffer.length(), buffer.capacity()),
        (2, 6, 64)
    );

    buffer.resize(4).unwrap();
    assert_eq!(
        (buffer.cursor(), buffer.length(), buffer.capacity()),
        (2, 4, 4)
    );
    assert_eq!(buffer.as_slice(), [1, 2, 3, 4]);

    buffer.resize(1).unwrap();
    assert_eq!(
        (buffer.cursor(), buffer.length(), buffer.capacity()),
        (1, 1, 1)
    );
    assert_eq!(buffer.as_slice(), [1]);

    buffer.write_slice(&[8, 9]).unwrap();
    assert_eq!(buffer.capacity(), 4);
    assert_eq!(buffer.as_slice(), [1, 8, 9]);
}

#[test]
fn expand_adds_to_the_capacity() {
    let mut buffer = ByteBuffer::new().unwrap();

    buffer.write_slice(&[1, 2]).unwrap();
    buffer.expand(4).unwrap();

    assert_eq!(
        (buffer.cursor(), buffer.length(), buffer.capacity()),
        (2, 2, 12)
    );

    buffer.expand(0).unwrap();
    assert_eq!(buffer.capacity(), 12);
}

#[test]
fn shrink_to_stops_at_the_length() {
    let mut buffer = ByteBuffer::with_capacity(32).unwrap();

    buffer.write_slice(&[1, 2, 3, 4, 5]).unwrap();

    buffer.shrink_to(40).unwrap();
    assert_eq!(buffer.capacity(), 32);

    buffer.shrink_to(16).unwrap();
    assert_eq!(buffer.capacity(), 16);

    buffer.shrink_to(2).unwrap();
    assert_eq!(buffer.capacity(), 5);
    assert_eq!(buffer.length(), 5);

    buffer.shrink_to(0).unwrap();
    assert_eq!(buffer.capacity(), 5);
}

#[test]
fn shrink_to_fit_lowers_the_capacity_to_the_length() {
    let mut buffer = ByteBuffer::with_capacity(32).unwrap();

    buffer.write_slice(&[7; 12]).unwrap();
    buffer.move_cursor(5).unwrap();
    buffer.shrink_to_fit().unwrap();
    assert_eq!(
        (buffer.cursor(), buffer.length(), buffer.capacity()),
        (5, 12, 12)
    );

    buffer.shrink_to_fit().unwrap();
    assert_eq!(buffer.capacity(), 12);
    assert_eq!(buffer.as_slice(), [7; 12]);
}

#[test]
fn shrink_to_fit_stops_at_the_minimum_capacity() {
    let mut buffer = ByteBuffer::with_capacity(32).unwrap();

    buffer.write_slice(&[1, 2, 3]).unwrap();
    buffer.shrink_to_fit().unwrap();
    assert_eq!(buffer.capacity(), ByteBuffer::MIN_SIZE);
    assert_eq!(buffer.length(), 3);
    assert_eq!(buffer.cursor(), 3);

    buffer.shrink_to_fit().unwrap();
    assert_eq!(buffer.capacity(), 8);
    assert_eq!(buffer.as_slice(), [1, 2, 3]);

    let mut full = ByteBuffer::with_capacity(8).unwrap();
    full.write_slice(&[9; 8]).unwrap();
    full.shrink_to_fit().unwrap();
    assert_eq!(full.capacity(), 8);
}

#[test]
fn shrink_to_fit_raises_a_small_capacity_with_room_to_the_minimum() {
    let mut buffer = ByteBuffer::with_capacity(4).unwrap();

    buffer.write_slice(&[1, 2]).unwrap();
    buffer.shrink_to_fit().unwrap();
    assert_eq!(
        (buffer.cursor(), buffer.length(), buffer.capacity()),
        (2, 2, 8)
    );
    assert_eq!(buffer.as_slice(), [1, 2]);

    let mut exact = ByteBuffer::with_capacity(2).unwrap();
    exact.write_slice(&[1, 2]).unwrap();
    exact.shrink_to_fit().unwrap();
    assert_eq!(exact.capacity(), 2);
}

#[test]
fn shrink_to_fit_of_an_empty_arena_fails() {
    let mut buffer = ByteBuffer::with_capacity(32).unwrap();

    assert_eq!(
        buffer.shrink_to_fit().err().unwrap(),
        ByteBufferError::MinCapacity
    );
    assert_eq!(buffer.capacity(), 32);

    buffer.write_slice(&[1, 2]).unwrap();
    buffer.truncate(0).unwrap();
    assert_eq!(
        buffer.shrink_to_fit().err().unwrap(),
        ByteBufferError::MinCapacity
    );
    assert_eq!(
        (buffer.cursor(), buffer.length(), buffer.capacity()),
        (0, 0, 32)
    );
}

#[test]
fn allocator_refusal_is_reported_with_the_size() {
    let size = isize::MAX as usize;

    assert_eq!(
        ByteBuffer::with_capacity(size).err().unwrap(),
        ByteBufferError::AllocationFailure { size }
    );

    let mut buffer = ByteBuffer::new().unwrap();
    buffer.write_slice(&[1, 2, 3]).unwrap();

    assert_eq!(
        buffer.resize(size).err().unwrap(),
        ByteBufferError::AllocationFailure { size }
    );
    assert_eq!(
        (buffer.cursor(), buffer.length(), buffer.capacity()),
        (3, 3, 8)
    );

    assert_eq!(
        buffer.expand(size - 8).err().unwrap(),
        ByteBufferError::AllocationFailure { size }
    );
    assert_eq!(buffer.as_slice(), [1, 2, 3]);
}

#[test]
fn read_to_buffer_copies_the_bytes_at_the_cursor() {
    let mut buffer = ByteBuffer::new().unwrap();

    buffer.write_slice(&[1, 2, 3, 4, 5]).unwrap();
    buffer.move_cursor(1).unwrap();

    let mut copy = buffer.read_to_buffer(3).unwrap();
    assert_eq!(buffer.cursor(), 4);
    assert_eq!((copy.cursor(), copy.length(), copy.capacity()), (0, 3, 3));
    assert_eq!(copy.native_order(), buffer.native_order());
    assert_eq!(copy.as_slice(), [2, 3, 4]);
}

#[test]
fn read_to_buffer_fails_as_its_parts_do() {
    let mut buffer = ByteBuffer::new().unwrap();

    buffer.write_slice(&[1, 2, 3]).unwrap();
    buffer.move_cursor(1).unwrap();

    assert_eq!(
        buffer.read_to_buffer(0).err().unwrap(),
        ByteBufferError::MinCapacity
    );
    assert_eq!(
        buffer
            .read_to_buffer(isize::MAX as usize + 1)
            .err()
            .unwrap(),
        ByteBufferError::MaxCapacity
    );
    assert_eq!(
        buffer.read_to_buffer(3).err().unwrap(),
        ByteBufferError::ReadOutOfBounds {
            length: 3,
            start: 1,
            end: 4
        }
    );
    assert_eq!(buffer.cursor(), 1);
}

#[test]
fn slices_of_the_arena() {
    let mut buffer = ByteBuffer::new().unwrap();

    buffer.write_slice(&[1, 2, 3, 4, 5]).unwrap();

    assert_eq!(buffer.slice_from(1, 3).unwrap(), [2, 3, 4]);
    assert_eq!(buffer.cursor(), 4);

    assert_eq!(
        buffer.slice_from(3, 3).err().unwrap(),
        ByteBufferError::ReadOutOfBounds {
            length: 5,
            start: 3,
            end: 6
        }
    );
    assert_eq!(
        buffer.slice_from(6, 0).err().unwrap(),
        ByteBufferError::ReadOutOfBounds {
            length: 5,
            start: 6,
            end: 6
        }
    );
    assert_eq!(buffer.cursor(), 4);

    assert_eq!(buffer.slice_from(5, 0).unwrap(), []);
    assert_eq!(buffer.as_slice(), [1, 2, 3, 4, 5]);
    assert_eq!(buffer.cursor(), 5);
}

#[test]
fn clone_is_an_arena_of_its_own() {
    let mut buffer = ByteBuffer::new().unwrap();

    buffer.write_slice(&[1, 2, 3]).unwrap();
    buffer.move_cursor(1).unwrap();

    let mut copy = buffer.clone();
    assert_eq!((copy.cursor(), copy.length(), copy.capacity()), (1, 3, 8));

    copy.write_slice(&[9, 9, 9]).unwrap();
    assert_eq!(copy.as_slice(), [1, 9, 9, 9]);
    assert_eq!(buffer.as_slice(), [1, 2, 3]);
}

#[test]
fn native_order_is_the_order_of_the_machine() {
    let expected = if u16::from_ne_bytes([1, 0]) == 1 {
        ByteOrder::Little
    } else {
        ByteOrder::Big
    };

    assert_eq!(ByteOrder::native(), expected);
    assert_eq!(
        ByteOrder::native(),
        ByteOrder::from_probe(u16::from_ne_bytes([1, 0]))
    );
    assert_eq!(ByteBuffer::new().unwrap().native_order(), expected);
}

#[test]
fn writes_can_be_chained() {
    let mut buffer = ByteBuffer::new().unwrap();

    buffer
        .write_slice(&[1])
        .unwrap()
        .write_le(0x0302u16)
        .unwrap()
        .write_be(0x0405u16)
        .unwrap()
        .move_cursor(1)
        .unwrap();

    assert_eq!(buffer.cursor(), 1);
    assert_eq!(buffer.as_slice(), [1, 2, 3, 4, 5]);
}

#[test]
fn probe_tells_the_two_orders_apart() {
    assert_eq!(ByteOrder::from_probe(1), ByteOrder::Little);
    assert_eq!(ByteOrder::from_probe(256), ByteOrder::Big);
    assert_eq!(ByteOrder::from_probe(0), ByteOrder::Big);
}
