use bytey::byte_buffer::ByteBuffer;
use bytey::byte_buffer_read::num::read_non_zero;
use bytey::byte_buffer_read::time::new_duration;
use bytey::byte_order::{unsigned_from_bytes, unsigned_to_bytes, ByteOrder, Endian};
use bytey::error::ByteBufferError;
use bytey::variant::{variant_id, variant_index};
use std::borrow::Cow;
use std::marker::PhantomData;
use std::num::{Saturating, Wrapping};
use std::ops::Bound;
use std::time::Duration;

fn other(message: &str) -> ByteBufferError {
    ByteBufferError::OtherError {
        message: message.to_owned(),
    }
}

fn written_le<T: bytey::ByteBufferWrite>(value: T) -> Vec<u8> {
    let mut buffer = ByteBuffer::new().unwrap();
    buffer.write_le(value).unwrap();
    buffer.as_slice().to_vec()
}

fn written_be<T: bytey::ByteBufferWrite>(value: T) -> Vec<u8> {
    let mut buffer = ByteBuffer::new().unwrap();
    buffer.write_be(value).unwrap();
    buffer.as_slice().to_vec()
}

fn holding(bytes: &[u8]) -> ByteBuffer {
    let mut buffer = ByteBuffer::new().unwrap();
    buffer.write_slice(bytes).unwrap();
    buffer.move_cursor(0).unwrap();
    buffer
}

fn round_trip<T>(value: T)
where
    T: bytey::ByteBufferWrite + bytey::ByteBufferRead + PartialEq + std::fmt::Debug,
{
    let mut buffer = ByteBuffer::new().unwrap();

    buffer.write(&value).unwrap();
    let end = buffer.cursor();
    buffer.move_cursor(0).unwrap();
    assert_eq!(buffer.read::<T>().unwrap(), value);
    assert_eq!(buffer.cursor(), end);

    buffer.truncate(0).unwrap();
    buffer.write_le(&value).unwrap();
    buffer.move_cursor(0).unwrap();
    assert_eq!(buffer.read_le::<T>().unwrap(), value);
    assert_eq!(buffer.cursor(), end);

    buffer.truncate(0).unwrap();
    buffer.write_be(&value).unwrap();
    buffer.move_cursor(0).unwrap();
    assert_eq!(buffer.read_be::<T>().unwrap(), value);
    assert_eq!(buffer.cursor(), end);
}

#[test]
fn unsigned_integers_come_back() {
    for value in [u8::MIN, u8::MAX / 2, u8::MAX] {
        round_trip(value);
    }
    for value in [u16::MIN, u16::MAX / 2, u16::MAX] {
        round_trip(value);
    }
    for value in [u32::MIN, u32::MAX / 2, u32::MAX] {
        round_trip(value);
    }
    for value in [u64::MIN, u64::MAX / 2, u64::MAX] {
        round_trip(value);
    }
    for value in [u128::MIN, u128::MAX / 2, u128::MAX] {
        round_trip(value);
    }
    for value in [usize::MIN, usize::MAX / 2, usize::MAX] {
        round_trip(value);
    }
}

#[test]
fn signed_integers_come_back() {
    for value in [i8::MIN, -1, 0, i8::MAX / 2, i8::MAX] {
        round_trip(value);
    }
    for value in [i16::MIN, -1, 0, i16::MAX / 2, i16::MAX] {
        round_trip(value);
    }
    for value in [i32::MIN, -1, 0, i32::MAX / 2, i32::MAX] {
        round_trip(value);
    }
    for value in [i64::MIN, -1, 0, i64::MAX / 2, i64::MAX] {
        round_trip(value);
    }
    for value in [i128::MIN, -1, 0, i128::MAX / 2, i128::MAX] {
        round_trip(value);
    }
    for value in [isize::MIN, -1, 0, isize::MAX / 2, isize::MAX] {
        round_trip(value);
    }
}

#[test]
fn other_shapes_come_back() {
    round_trip(true);
    round_trip(false);
    round_trip('a');
    round_trip('\u{10FFFF}');
    round_trip(());
    round_trip(String::from("grüße, 世界"));
    round_trip(String::new());
    round_trip(vec![1u32, 2, 3]);
    round_trip(Vec::<u64>::new());
    round_trip([7i16; 4]);
    round_trip(Some(vec![Some(1u8), None]));
    round_trip(None::<u64>);
    round_trip(Ok::<u16, String>(3));
    round_trip(Err::<u16, String>(String::from("no")));
    round_trip(Ok::<(), u8>(()));
    round_trip((1u8,));
    round_trip((1u8, -2i16, 3u32, -4i64, 5u128, 'x', true, String::from("s")));
    round_trip((
        1u8, 2u8, 3u8, 4u8, 5u8, 6u8, 7u8, 8u8, 9u8, 10u8, 11u8, 12u8,
    ));
    round_trip(Box::new(77u32));
    round_trip(Cow::<u32>::Owned(78));
    round_trip(PhantomData::<u64>);
    round_trip(Wrapping(9u16));
    round_trip(Saturating(-9i16));
    round_trip(Bound::Included(5u8));
    round_trip(Bound::Excluded(6u8));
    round_trip(Bound::<u8>::Unbounded);
    round_trip(3u32..9u32);
    round_trip(3u32..=9u32);
    round_trip(Duration::new(5, 999_999_999));
    round_trip(vec![(1u8, Some(String::from("a"))), (2u8, None)]);
}

#[test]
fn integer_bytes_in_both_orders() {
    assert_eq!(written_le(0x0102_0304u32), [4, 3, 2, 1]);
    assert_eq!(written_be(0x0102_0304u32), [1, 2, 3, 4]);
    assert_eq!(written_le(0x1234u16), [0x34, 0x12]);
    assert_eq!(written_be(0x1234u16), [0x12, 0x34]);
    assert_eq!(written_le(-2i16), [0xFE, 0xFF]);
    assert_eq!(written_be(-2i16), [0xFF, 0xFE]);
    assert_eq!(written_le(i32::MIN), [0, 0, 0, 0x80]);
    assert_eq!(written_be(-255i64), [255, 255, 255, 255, 255, 255, 255, 1]);
    assert_eq!(written_le(200u8), [200]);
    assert_eq!(written_be(-1i8), [255]);
    assert_eq!(
        written_be(1u128),
        [0, 0, 0, 0, 0, 0, 0, 0, 0, 0, 0, 0, 0, 0, 0, 1]
    );
    assert_eq!(
        written_le(usize::MAX),
        vec![255; std::mem::size_of::<usize>()]
    );
    assert_eq!(written_le(258usize), 258usize.to_le_bytes());
    assert_eq!(written_be(-258isize), (-258isize).to_be_bytes());
}

#[test]
fn native_order_writes_what_the_machine_holds() {
    let mut buffer = ByteBuffer::new().unwrap();

    buffer.write(0x0102_0304u32).unwrap();
    buffer.write(-3i64).unwrap();

    assert_eq!(
        buffer.as_slice(),
        [
            0x0102_0304u32.to_ne_bytes().as_slice(),
            (-3i64).to_ne_bytes().as_slice()
        ]
        .concat()
    );
}

#[test]
fn bytes_of_an_integer_and_back() {
    assert_eq!(
        unsigned_to_bytes(0x0A0B0C, 3, ByteOrder::Little),
        [0x0C, 0x0B, 0x0A]
    );
    assert_eq!(
        unsigned_to_bytes(0x0A0B0C, 3, ByteOrder::Big),
        [0x0A, 0x0B, 0x0C]
    );
    assert_eq!(unsigned_to_bytes(0x0A0B0C, 2, ByteOrder::Big), [0x0B, 0x0C]);
    assert_eq!(unsigned_to_bytes(7, 0, ByteOrder::Big), []);
    assert_eq!(
        unsigned_from_bytes(&[0x0C, 0x0B, 0x0A], ByteOrder::Little),
        0x0A0B0C
    );
    assert_eq!(
        unsigned_from_bytes(&[0x0C, 0x0B, 0x0A], ByteOrder::Big),
        0x0C0B0A
    );
    assert_eq!(unsigned_from_bytes(&[], ByteOrder::Big), 0);
    assert_eq!(
        unsigned_from_bytes(&[255; 16], ByteOrder::Little),
        u128::MAX
    );
    assert_eq!(Endian::Native.resolve(ByteOrder::Big), ByteOrder::Big);
    assert_eq!(Endian::Little.resolve(ByteOrder::Big), ByteOrder::Little);
    assert_eq!(Endian::Big.resolve(ByteOrder::Little), ByteOrder::Big);
}

#[test]
fn bool_is_one_byte_and_any_other_than_zero_is_true() {
    assert_eq!(written_le(true), [1]);
    assert_eq!(written_be(false), [0]);
    assert_eq!(holding(&[0]).read::<bool>().unwrap(), false);
    assert_eq!(holding(&[1]).read_le::<bool>().unwrap(), true);
    assert_eq!(holding(&[7]).read_be::<bool>().unwrap(), true);
}

#[test]
fn char_is_its_code_point() {
    assert_eq!(written_le('A'), [65, 0, 0, 0]);
    assert_eq!(written_be('\u{1F600}'), [0, 1, 0xF6, 0]);
    assert_eq!(holding(&[0, 0, 0x20, 0xAC]).read_be::<char>().unwrap(), '€');
}

#[test]
fn number_that_is_no_code_point_is_refused() {
    let mut surrogate = holding(&[0, 0, 0xD8, 0]);
    assert_eq!(
        surrogate.read_be::<char>().err().unwrap(),
        ByteBufferError::NotAChar
    );
    assert_eq!(surrogate.cursor(), 4);

    assert_eq!(
        holding(&[0, 0x11, 0, 0]).read_be::<char>().err().unwrap(),
        ByteBufferError::NotAChar
    );
    assert_eq!(
        holding(&[0, 0x10, 0xFF, 0xFF]).read_be::<char>().unwrap(),
        '\u{10FFFF}'
    );
    assert_eq!(
        holding(&[0, 0x10]).read_be::<char>().err().unwrap(),
        ByteBufferError::ReadOutOfBounds {
            length: 2,
            start: 0,
            end: 4
        }
    );
}

#[test]
fn text_is_its_length_and_its_utf8_bytes() {
    assert_eq!(written_le("hé"), [3, 0, 0, 0, 0, 0, 0, 0, b'h', 0xC3, 0xA9]);
    assert_eq!(
        written_be(String::from("ab")),
        [0, 0, 0, 0, 0, 0, 0, 2, b'a', b'b']
    );
    assert_eq!(written_le(""), [0; 8]);
    assert_eq!(
        holding(&[0, 0, 0, 0, 0, 0, 0, 3, 0xE2, 0x82, 0xAC, 9])
            .read_be::<String>()
            .unwrap(),
        "€"
    );
}

#[test]
fn text_that_is_not_utf8_is_refused() {
    let mut buffer = holding(&[2, 0, 0, 0, 0, 0, 0, 0, 0xC3, 0x28]);

    assert_eq!(
        buffer.read_le::<String>().err().unwrap(),
        ByteBufferError::InvalidUnicode
    );
    assert_eq!(buffer.cursor(), 10);
}

#[test]
fn text_longer_than_the_arena_is_refused() {
    let mut buffer = holding(&[0, 0, 0, 0, 0, 0, 0, 5, b'a', b'b']);

    assert_eq!(
        buffer.read_be::<String>().err().unwrap(),
        ByteBufferError::ReadOutOfBounds {
            length: 10,
            start: 8,
            end: 13
        }
    );
    assert_eq!(buffer.cursor(), 8);

    let mut huge = holding(&[255; 8]);
    assert_eq!(
        huge.read_be::<String>().err().unwrap(),
        ByteBufferError::ReadOutOfBounds {
            length: 8,
            start: 8,
            end: usize::MAX
        }
    );
}

#[test]
fn sequence_is_its_count_and_its_items() {
    let value: Vec<u16> = vec![0, 1, 2, 3, 4, 5, 6, 7, 8, 9];
    let mut buffer = ByteBuffer::new().unwrap();

    buffer.write_le(&value).unwrap();
    assert_eq!(buffer.cursor(), 28);
    assert_eq!(buffer.capacity(), 32);
    assert_eq!(
        buffer.as_slice(),
        [10, 0, 0, 0, 0, 0, 0, 0, 0, 0, 1, 0, 2, 0, 3, 0, 4, 0, 5, 0, 6, 0, 7, 0, 8, 0, 9, 0]
    );

    buffer.move_cursor(0).unwrap();
    assert_eq!(buffer.read_le::<Vec<u16>>().unwrap(), value);
    assert_eq!(buffer.cursor(), 28);

    assert_eq!(written_be(value.as_slice()), written_be(&value));
    assert_eq!(written_be([1u8, 2]), [0, 0, 0, 0, 0, 0, 0, 2, 1, 2]);
    assert_eq!(written_le(Vec::<u16>::new()), [0; 8]);
}

#[test]
fn empty_sequence_is_read_from_its_count_alone() {
    let mut buffer = holding(&[0, 0, 0, 0, 0, 0, 0, 0, 9]);

    assert_eq!(buffer.read::<Vec<u32>>().unwrap(), []);
    assert_eq!(buffer.cursor(), 8);
}

#[test]
fn failure_of_an_item_of_a_sequence_is_passed_on() {
    let mut buffer = holding(&[0, 0, 0, 0, 0, 0, 0, 3, 0, 1, 0, 2, 0]);

    assert_eq!(
        buffer.read_be::<Vec<u16>>().err().unwrap(),
        ByteBufferError::ReadOutOfBounds {
            length: 13,
            start: 12,
            end: 14
        }
    );
    assert_eq!(buffer.cursor(), 12);
}

#[test]
fn optional_value_is_a_tag_and_the_value() {
    assert_eq!(written_le(Some(0x0102u16)), [1, 2, 1]);
    assert_eq!(written_be(None::<u16>), [2]);

    let mut absent = ByteBuffer::new().unwrap();
    absent.write(None::<u64>).unwrap();
    absent.move_cursor(0).unwrap();
    assert_eq!(absent.read::<Option<u64>>().unwrap(), None);
    assert_eq!(absent.cursor(), 1);

    let mut present = ByteBuffer::new().unwrap();
    present.write(Some(u64::MAX - 1)).unwrap();
    assert_eq!(present.capacity(), 16);
    present.move_cursor(0).unwrap();
    assert_eq!(present.read::<Option<u64>>().unwrap(), Some(u64::MAX - 1));
    assert_eq!(present.cursor(), 9);
}

#[test]
fn unknown_tags_are_refused() {
    for tag in [0u8, 3, 255] {
        let mut buffer = holding(&[tag, 1, 1]);
        assert_eq!(
            buffer.read::<Option<u8>>().err().unwrap(),
            other("Invalid Read to Option")
        );
        assert_eq!(buffer.cursor(), 1);

        assert_eq!(
            holding(&[tag, 1, 1])
                .read::<Result<u8, u8>>()
                .err()
                .unwrap(),
            other("Invalid Read to Result")
        );
    }
    for tag in [3u8, 255] {
        assert_eq!(
            holding(&[tag, 1, 1]).read::<Bound<u8>>().err().unwrap(),
            other("Invalid Read to Bound")
        );
    }
}

#[test]
fn result_is_a_tag_and_the_value_of_the_variant() {
    assert_eq!(written_le(Ok::<u16, u8>(5)), [1, 5, 0]);
    assert_eq!(written_le(Err::<u16, u8>(5)), [2, 5]);
    assert_eq!(written_le(Ok::<(), u8>(())), [1]);
    assert_eq!(holding(&[2, 9]).read::<Result<u16, u8>>().unwrap(), Err(9));
}

#[test]
fn bound_is_a_tag_and_the_value() {
    assert_eq!(written_le(Bound::<u16>::Unbounded), [0]);
    assert_eq!(written_le(Bound::Included(5u16)), [1, 5, 0]);
    assert_eq!(written_be(Bound::Excluded(5u16)), [2, 0, 5]);
    assert_eq!(
        holding(&[0, 7]).read::<Bound<u8>>().unwrap(),
        Bound::Unbounded
    );
}

#[test]
fn ranges_are_start_and_end() {
    assert_eq!(written_le(3u8..9u8), [3, 9]);
    assert_eq!(written_be(0x0102u16..=0x0304u16), [1, 2, 3, 4]);
    assert_eq!(
        holding(&[4, 2]).read::<std::ops::Range<u8>>().unwrap(),
        4..2
    );
    assert_eq!(
        holding(&[4, 2])
            .read::<std::ops::RangeInclusive<u8>>()
            .unwrap(),
        4..=2
    );
}

#[test]
fn duration_is_seconds_and_nanoseconds() {
    assert_eq!(
        written_be(Duration::new(5, 7)),
        [0, 0, 0, 0, 0, 0, 0, 5, 0, 0, 0, 7]
    );
    assert_eq!(
        written_le(Duration::new(1, 2_000_000_003)),
        [3, 0, 0, 0, 0, 0, 0, 0, 3, 0, 0, 0]
    );
    assert_eq!(
        holding(&[0, 0, 0, 0, 0, 0, 0, 5, 0x77, 0x35, 0x94, 0x01])
            .read_be::<Duration>()
            .unwrap(),
        Duration::new(7, 1)
    );
}

#[test]
fn duration_beyond_the_range_is_refused() {
    assert_eq!(new_duration(5, 7).unwrap(), Duration::new(5, 7));
    assert_eq!(
        new_duration(u64::MAX, 999_999_999).unwrap(),
        Duration::new(u64::MAX, 999_999_999)
    );
    assert_eq!(
        new_duration(u64::MAX - 3, u32::MAX).err().unwrap(),
        other("Invalid Duration: secs: 18446744073709551612 nanos: 4294967295")
    );
    assert_eq!(
        new_duration(u64::MAX - 4, u32::MAX).unwrap(),
        Duration::new(u64::MAX, 294_967_295)
    );

    let mut buffer = holding(&[255, 255, 255, 255, 255, 255, 255, 255, 0x3B, 0x9A, 0xCA, 0]);
    assert_eq!(
        buffer.read_be::<Duration>().err().unwrap(),
        other("Invalid Duration: secs: 18446744073709551615 nanos: 1000000000")
    );
    assert_eq!(buffer.cursor(), 12);
}

#[test]
fn wrappers_are_what_they_hold() {
    assert_eq!(written_le(Box::new(0x0102u16)), [2, 1]);
    assert_eq!(written_le(Cow::Borrowed(&0x0102u16)), [2, 1]);
    assert_eq!(written_le(Cow::<u16>::Owned(0x0102)), [2, 1]);
    assert_eq!(written_be(Wrapping(0x0102u16)), [1, 2]);
    assert_eq!(written_be(Saturating(0x0102u16)), [1, 2]);
    assert_eq!(written_be(&&0x0102u16), [1, 2]);
    assert_eq!(written_le(PhantomData::<u64>), []);
    assert_eq!(written_le(()), []);
    assert_eq!(holding(&[]).read::<PhantomData<u8>>().unwrap(), PhantomData);
    assert_eq!(*holding(&[9]).read::<Box<u8>>().unwrap(), 9);
}

#[test]
fn tuple_is_its_members_in_order() {
    assert_eq!(
        written_be((1u8, 0x0203u16, Some(4u8), "x")),
        [1, 2, 3, 1, 4, 0, 0, 0, 0, 0, 0, 0, 1, b'x']
    );
    assert_eq!(written_le((0x0102u16,)), [2, 1]);
}

#[test]
fn failure_of_a_member_of_a_tuple_names_its_position() {
    let mut buffer = holding(&[1]);
    assert_eq!(
        buffer.read::<(u8, u16)>().err().unwrap(),
        other("Read out of bounds: 1..3 >= 1 occured at tuple read location 1")
    );
    assert_eq!(buffer.cursor(), 1);

    assert_eq!(
        holding(&[]).read::<(u8,)>().err().unwrap(),
        other("Read out of bounds: 0..1 >= 0 occured at tuple read location 0")
    );
    assert_eq!(
        holding(&[1, 2, 3, 9])
            .read::<(u8, u8, u8, Option<u8>, u8)>()
            .err()
            .unwrap(),
        other("Other Error: Invalid Read to Option occured at tuple read location 3")
    );
    assert_eq!(
        holding(&[1, 0, 0xD8, 0, 0])
            .read_le::<(u8, (char,))>()
            .err()
            .unwrap(),
        other(
            "Other Error: Value is not a valid char occured at tuple read location 0 \
             occured at tuple read location 1"
        )
    );
}

#[test]
fn array_takes_its_own_size_only() {
    let mut buffer = ByteBuffer::new().unwrap();

    buffer.write(vec![2u16; 29]).unwrap();
    buffer.move_cursor(0).unwrap();

    assert_eq!(
        buffer.read::<[u16; 30]>().err().unwrap(),
        other("Invalid size in buffer for [T; 30]. Should be [T; 29]?")
    );
    assert_eq!(buffer.cursor(), 8);

    assert_eq!(
        holding(&[0, 0, 0, 0, 0, 0, 0, 3, 1, 2, 3])
            .read_be::<[u8; 2]>()
            .err()
            .unwrap(),
        other("Invalid size in buffer for [T; 2]. Should be [T; 3]?")
    );
    assert_eq!(
        holding(&[0, 0, 0, 0, 0, 0, 0, 3, 1, 2, 3])
            .read_be::<[u8; 3]>()
            .unwrap(),
        [1, 2, 3]
    );
}

#[test]
fn array_without_items_is_refused() {
    let mut buffer = holding(&[0; 8]);

    assert_eq!(
        buffer.read::<[u8; 0]>().err().unwrap(),
        other("Can not read to an [T;0]. The array must have a size.")
    );
    assert_eq!(buffer.cursor(), 0);
}

#[test]
fn failure_of_an_item_of_an_array_names_its_index() {
    let mut buffer = holding(&[3, 0, 0, 0, 0, 0, 0, 0, 1, 0, 2, 0, 3]);

    assert_eq!(
        buffer.read_le::<[u16; 3]>().err().unwrap(),
        other("Read out of bounds: 12..14 >= 13 occured at arr[2] ?")
    );
    assert_eq!(buffer.cursor(), 12);
}

#[test]
fn integer_that_must_not_be_zero() {
    let mut buffer = holding(&[0, 5, 0, 0, 0xFF, 0xFF]);

    assert_eq!(read_non_zero(&mut buffer, 2, Endian::Big).unwrap(), 5);
    assert_eq!(
        read_non_zero(&mut buffer, 2, Endian::Little).err().unwrap(),
        ByteBufferError::NonZeroIsZero
    );
    assert_eq!(buffer.cursor(), 4);
    assert_eq!(
        read_non_zero(&mut buffer, 2, Endian::Native).unwrap(),
        0xFFFF
    );
    assert_eq!(
        read_non_zero(&mut buffer, 1, Endian::Native).err().unwrap(),
        ByteBufferError::ReadOutOfBounds {
            length: 6,
            start: 6,
            end: 7
        }
    );
}

#[test]
fn variants_are_numbered_from_one() {
    assert_eq!(variant_id(0), Some(1));
    assert_eq!(variant_id(41), Some(42));
    assert_eq!(variant_id(u16::MAX), None);
    assert_eq!(variant_index(1, 3), Some(0));
    assert_eq!(variant_index(3, 3), Some(2));
    assert_eq!(variant_index(0, 3), None);
    assert_eq!(variant_index(4, 3), None);
    assert_eq!(variant_index(1, 0), None);
}

#[test]
fn errors_describe_themselves() {
    assert_eq!(
        ByteBufferError::MaxCapacity.to_string(),
        format!("Capacity cannot be greater than {} bytes", isize::MAX)
    );
    assert_eq!(
        ByteBufferError::AllocationFailure { size: 1024 }.to_string(),
        "Failed to allocate 1024 bytes"
    );
    assert_eq!(
        ByteBufferError::MinCapacity.to_string(),
        "Capacity cannot be less than 1 byte"
    );
    assert_eq!(
        ByteBufferError::CursorOutOfBounds {
            length: 9,
            cursor: 10
        }
        .to_string(),
        "Cursor out of bounds: 10 >= 9"
    );
    assert_eq!(
        ByteBufferError::ReadOutOfBounds {
            length: 4,
            start: 0,
            end: 5
        }
        .to_string(),
        "Read out of bounds: 0..5 >= 4"
    );
    assert_eq!(
        ByteBufferError::LengthOutOfBounds {
            current: 0,
            new: usize::MAX
        }
        .to_string(),
        format!("Length out of bounds: {} >= 0", usize::MAX)
    );
    assert_eq!(
        ByteBufferError::NotAChar.to_string(),
        "Value is not a valid char"
    );
    assert_eq!(
        ByteBufferError::NonZeroIsZero.to_string(),
        "Non-zero value is zero"
    );
    assert_eq!(
        ByteBufferError::AlreadyBorrowed {
            context: String::from("RefCell<u8>")
        }
        .to_string(),
        "Already borrowed: RefCell<u8>"
    );
    assert_eq!(
        ByteBufferError::InvalidUnicode.to_string(),
        "Invalid UTF-8 in string"
    );
    assert_eq!(other("why").to_string(), "Other Error: why");
    assert_eq!(
        ByteBufferError::MinCapacity.at_tuple_write(11),
        other("Capacity cannot be less than 1 byte occured at tuple write location 11")
    );
    assert_eq!(
        ByteBufferError::NotAChar.at_tuple_read(0),
        other("Value is not a valid char occured at tuple read location 0")
    );
    assert_eq!(
        ByteBufferError::NotAChar.at_array_item(120),
        other("Value is not a valid char occured at arr[120] ?")
    );
}

#[test]
fn capacity_beyond_the_maximum_is_refused() {
    assert_eq!(
        ByteBuffer::with_capacity(usize::MAX).err().unwrap(),
        ByteBufferError::MaxCapacity
    );
    assert_eq!(
        ByteBuffer::with_capacity(0).err().unwrap(),
        ByteBufferError::MinCapacity
    );
}
