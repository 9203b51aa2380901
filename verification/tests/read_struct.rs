use bytey::byte_buffer_read::read_with;
use bytey::byte_buffer_write::write_with;
use bytey::{ByteBuffer, ByteBufferError, ByteBufferRead, ByteBufferWrite, Endian};

#[derive(PartialEq, Debug)]
struct Named {
    a: u16,
    b: u8,
    c: i64,
    d: usize,
}

fn write_named(
    value: &Named,
    buffer: &mut ByteBuffer,
    endian: Endian,
) -> Result<(), ByteBufferError> {
    write_with(&value.a, buffer, endian)?;
    write_with(&value.b, buffer, endian)?;
    write_with(&value.c, buffer, endian)?;
    write_with(&value.d, buffer, endian)?;

    Ok(())
}

fn read_named(buffer: &mut ByteBuffer, endian: Endian) -> Result<Named, ByteBufferError> {
    Ok(Named {
        a: read_with::<u16>(buffer, endian)?,
        b: read_with::<u8>(buffer, endian)?,
        c: read_with::<i64>(buffer, endian)?,
        d: read_with::<usize>(buffer, endian)?,
    })
}

impl ByteBufferWrite for Named {
    fn write_to_bytey_buffer(&self, buffer: &mut ByteBuffer) -> Result<(), ByteBufferError> {
        write_named(self, buffer, Endian::Native)
    }

    fn write_to_bytey_buffer_le(&self, buffer: &mut ByteBuffer) -> Result<(), ByteBufferError> {
        write_named(self, buffer, Endian::Little)
    }

    fn write_to_bytey_buffer_be(&self, buffer: &mut ByteBuffer) -> Result<(), ByteBufferError> {
        write_named(self, buffer, Endian::Big)
    }
}

impl ByteBufferRead for Named {
    type Model = Named;

    fn read_from_bytey_buffer(buffer: &mut ByteBuffer) -> Result<Self, ByteBufferError> {
        read_named(buffer, Endian::Native)
    }

    fn read_from_bytey_buffer_le(buffer: &mut ByteBuffer) -> Result<Self, ByteBufferError> {
        read_named(buffer, Endian::Little)
    }

    fn read_from_bytey_buffer_be(buffer: &mut ByteBuffer) -> Result<Self, ByteBufferError> {
        read_named(buffer, Endian::Big)
    }
}

#[derive(PartialEq, Debug)]
struct Unnamed(u16, u8, i64, usize);

fn write_unnamed(
    value: &Unnamed,
    buffer: &mut ByteBuffer,
    endian: Endian,
) -> Result<(), ByteBufferError> {
    write_with(&value.0, buffer, endian)?;
    write_with(&value.1, buffer, endian)?;
    write_with(&value.2, buffer, endian)?;
    write_with(&value.3, buffer, endian)?;

    Ok(())
}

fn read_unnamed(buffer: &mut ByteBuffer, endian: Endian) -> Result<Unnamed, ByteBufferError> {
    Ok(Unnamed(
        read_with::<u16>(buffer, endian)?,
        read_with::<u8>(buffer, endian)?,
        read_with::<i64>(buffer, endian)?,
        read_with::<usize>(buffer, endian)?,
    ))
}

impl ByteBufferWrite for Unnamed {
    fn write_to_bytey_buffer(&self, buffer: &mut ByteBuffer) -> Result<(), ByteBufferError> {
        write_unnamed(self, buffer, Endian::Native)
    }

    fn write_to_bytey_buffer_le(&self, buffer: &mut ByteBuffer) -> Result<(), ByteBufferError> {
        write_unnamed(self, buffer, Endian::Little)
    }

    fn write_to_bytey_buffer_be(&self, buffer: &mut ByteBuffer) -> Result<(), ByteBufferError> {
        write_unnamed(self, buffer, Endian::Big)
    }
}

impl ByteBufferRead for Unnamed {
    type Model = Unnamed;

    fn read_from_bytey_buffer(buffer: &mut ByteBuffer) -> Result<Self, ByteBufferError> {
        read_unnamed(buffer, Endian::Native)
    }

    fn read_from_bytey_buffer_le(buffer: &mut ByteBuffer) -> Result<Self, ByteBufferError> {
        read_unnamed(buffer, Endian::Little)
    }

    fn read_from_bytey_buffer_be(buffer: &mut ByteBuffer) -> Result<Self, ByteBufferError> {
        read_unnamed(buffer, Endian::Big)
    }
}

#[test]
fn test_struct_named_read() {
    let mut buffer = ByteBuffer::new().unwrap();
    let val = Named {
        a: 128,
        b: 255,
        c: -255,
        d: usize::MAX,
    };

    let _ = buffer.write(&val);
    let _ = buffer.move_cursor(0);

    assert_eq!(val, buffer.read::<Named>().unwrap());
}

#[test]
fn test_struct_unnamed_read() {
    let mut buffer = ByteBuffer::new().unwrap();
    let val = Unnamed(128, 255, -255, usize::MAX);

    let _ = buffer.write(&val);
    let _ = buffer.move_cursor(0);

    assert_eq!(val, buffer.read::<Unnamed>().unwrap());
}

#[test]
fn test_struct_named_write() {
    let mut buffer = ByteBuffer::new().unwrap();
    let val = Named {
        a: 128,
        b: 255,
        c: -255,
        d: usize::MAX,
    };

    let _ = buffer.write(val);
    let _ = buffer.move_cursor(0);

    assert_eq!(
        [
            128, 0,   /* u16: 128 */
            255, /* u8: 255 */
            1, 255, 255, 255, 255, 255, 255, 255, /* i64: -255 */
            255, 255, 255, 255, 255, 255, 255, 255 /* usize: usize::MAX */
        ],
        buffer.read_slice(19).unwrap()
    );
}

#[test]
fn test_struct_unnamed_write() {
    let mut buffer = ByteBuffer::new().unwrap();
    let val = Unnamed(128, 255, -255, usize::MAX);

    let _ = buffer.write(val);
    let _ = buffer.move_cursor(0);

    assert_eq!(
        [
            128, 0,   /* u16: 128 */
            255, /* u8: 255 */
            1, 255, 255, 255, 255, 255, 255, 255, /* i64: -255 */
            255, 255, 255, 255, 255, 255, 255, 255 /* usize: usize::MAX */
        ],
        buffer.read_slice(19).unwrap()
    );
}
