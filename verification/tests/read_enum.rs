use bytey::byte_buffer_read::read_with;
use bytey::byte_buffer_write::write_with;
use bytey::variant::{read_variant, variant_id};
use bytey::{ByteBuffer, ByteBufferError, ByteBufferRead, ByteBufferWrite, Endian};

#[derive(PartialEq, Debug)]
enum Test {
    Named { a: u16, b: u8, c: i64, d: usize },
    Unnamed(u16, u8, i64, usize),
    Unit,
}

fn write_enum(
    value: &Test,
    buffer: &mut ByteBuffer,
    endian: Endian,
) -> Result<(), ByteBufferError> {
    match value {
        Test::Named { a, b, c, d } => {
            write_with(&variant_id(0).unwrap(), buffer, endian)?;
            write_with(a, buffer, endian)?;
            write_with(b, buffer, endian)?;
            write_with(c, buffer, endian)?;
            write_with(d, buffer, endian)?;
        }
        Test::Unnamed(val0, val1, val2, val3) => {
            write_with(&variant_id(1).unwrap(), buffer, endian)?;
            write_with(val0, buffer, endian)?;
            write_with(val1, buffer, endian)?;
            write_with(val2, buffer, endian)?;
            write_with(val3, buffer, endian)?;
        }
        Test::Unit => {
            write_with(&variant_id(2).unwrap(), buffer, endian)?;
        }
    }

    Ok(())
}

fn read_enum(buffer: &mut ByteBuffer, endian: Endian) -> Result<Test, ByteBufferError> {
    match read_variant(buffer, 3, endian)? {
        0 => Ok(Test::Named {
            a: read_with::<u16>(buffer, endian)?,
            b: read_with::<u8>(buffer, endian)?,
            c: read_with::<i64>(buffer, endian)?,
            d: read_with::<usize>(buffer, endian)?,
        }),
        1 => Ok(Test::Unnamed(
            read_with::<u16>(buffer, endian)?,
            read_with::<u8>(buffer, endian)?,
            read_with::<i64>(buffer, endian)?,
            read_with::<usize>(buffer, endian)?,
        )),
        _ => Ok(Test::Unit),
    }
}

impl ByteBufferWrite for Test {
    fn write_to_bytey_buffer(&self, buffer: &mut ByteBuffer) -> Result<(), ByteBufferError> {
        write_enum(self, buffer, Endian::Native)
    }

    fn write_to_bytey_buffer_le(&self, buffer: &mut ByteBuffer) -> Result<(), ByteBufferError> {
        write_enum(self, buffer, Endian::Little)
    }

    fn write_to_bytey_buffer_be(&self, buffer: &mut ByteBuffer) -> Result<(), ByteBufferError> {
        write_enum(self, buffer, Endian::Big)
    }
}

impl ByteBufferRead for Test {
    type Model = Test;

    fn read_from_bytey_buffer(buffer: &mut ByteBuffer) -> Result<Self, ByteBufferError> {
        read_enum(buffer, Endian::Native)
    }

    fn read_from_bytey_buffer_le(buffer: &mut ByteBuffer) -> Result<Self, ByteBufferError> {
        read_enum(buffer, Endian::Little)
    }

    fn read_from_bytey_buffer_be(buffer: &mut ByteBuffer) -> Result<Self, ByteBufferError> {
        read_enum(buffer, Endian::Big)
    }
}

#[test]
fn test_enum_read() {
    let mut buffer = ByteBuffer::new().unwrap();
    let val_named = Test::Named {
        a: 128,
        b: 255,
        c: -255,
        d: usize::MAX,
    };

    buffer.write(&val_named).unwrap();
    buffer.move_cursor(0).unwrap();

    assert_eq!(val_named, buffer.read::<Test>().unwrap());

    let mut buffer = ByteBuffer::new().unwrap();
    let val_unnamed = Test::Unnamed(128, 255, -255, usize::MAX);

    buffer.write(&val_unnamed).unwrap();
    buffer.move_cursor(0).unwrap();

    assert_eq!(val_unnamed, buffer.read::<Test>().unwrap());

    let mut buffer = ByteBuffer::new().unwrap();
    let val_unit = Test::Unit;

    buffer.write(&val_unit).unwrap();
    buffer.move_cursor(0).unwrap();

    assert_eq!(val_unit, buffer.read::<Test>().unwrap());
}

#[test]
fn test_enum_write() {
    let mut buffer = ByteBuffer::new().unwrap();
    let val_named = Test::Named {
        a: 128,
        b: 255,
        c: -255,
        d: usize::MAX,
    };

    buffer.write(val_named).unwrap();
    buffer.move_cursor(0).unwrap();

    assert_eq!(
        [
            1, 0, /* u16 for variant named id: 1 */
            128, 0,   /* u16: 128 */
            255, /* u8: 255 */
            1, 255, 255, 255, 255, 255, 255, 255, /* i64: -255 */
            255, 255, 255, 255, 255, 255, 255, 255 /* usize: usize::MAX */
        ],
        buffer.read_slice(21).unwrap()
    );

    let mut buffer = ByteBuffer::new().unwrap();
    let val_unnamed = Test::Unnamed(128, 255, -255, usize::MAX);

    buffer.write(val_unnamed).unwrap();
    buffer.move_cursor(0).unwrap();

    assert_eq!(
        [
            2, 0, /* u16 for variant unnamed id: 2 */
            128, 0,   /* u16: 128 */
            255, /* u8: 255 */
            1, 255, 255, 255, 255, 255, 255, 255, /* i64: -255 */
            255, 255, 255, 255, 255, 255, 255, 255 /* usize: usize::MAX */
        ],
        buffer.read_slice(21).unwrap()
    );

    let mut buffer = ByteBuffer::new().unwrap();
    let val_unit = Test::Unit;

    buffer.write(val_unit).unwrap();
    buffer.move_cursor(0).unwrap();

    assert_eq!(
        [3, 0], /* u16 for variant unit id: 3 */
        buffer.read_slice(2).unwrap()
    );
}

#[test]
fn enum_read_rejects_unknown_ids() {
    for id in [0u16, 4, 500] {
        let mut buffer = ByteBuffer::new().unwrap();
        buffer.write(id).unwrap();
        buffer.move_cursor(0).unwrap();

        assert_eq!(
            buffer.read::<Test>().err().unwrap(),
            ByteBufferError::OtherError {
                message: format!("Invalid id: {}", id)
            }
        );
        assert_eq!(buffer.cursor(), 2);
    }
}
