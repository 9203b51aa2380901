use bytey::byte_buffer::ByteBuffer;
use bytey::byte_buffer_read::ByteBufferRead;
use bytey::byte_buffer_write::ByteBufferWrite;
use bytey::error::ByteBufferError;

/// A 32-bit float, written as its bit pattern.
#[derive(Debug, Clone, Copy, PartialEq)]
struct F32(f32);

impl ByteBufferWrite for F32 {
    fn write_to_bytey_buffer(&self, buffer: &mut ByteBuffer) -> Result<(), ByteBufferError> {
        self.0.to_bits().write_to_bytey_buffer(buffer)
    }

    fn write_to_bytey_buffer_le(&self, buffer: &mut ByteBuffer) -> Result<(), ByteBufferError> {
        self.0.to_bits().write_to_bytey_buffer_le(buffer)
    }

    fn write_to_bytey_buffer_be(&self, buffer: &mut ByteBuffer) -> Result<(), ByteBufferError> {
        self.0.to_bits().write_to_bytey_buffer_be(buffer)
    }
}

impl ByteBufferRead for F32 {
    type Model = F32;

    fn read_from_bytey_buffer(buffer: &mut ByteBuffer) -> Result<Self, ByteBufferError> {
        Ok(F32(f32::from_bits(buffer.read::<u32>()?)))
    }

    fn read_from_bytey_buffer_le(buffer: &mut ByteBuffer) -> Result<Self, ByteBufferError> {
        Ok(F32(f32::from_bits(buffer.read_le::<u32>()?)))
    }

    fn read_from_bytey_buffer_be(buffer: &mut ByteBuffer) -> Result<Self, ByteBufferError> {
        Ok(F32(f32::from_bits(buffer.read_be::<u32>()?)))
    }
}

/// A 64-bit float, written as its bit pattern.
#[derive(Debug, Clone, Copy, PartialEq)]
struct F64(f64);

impl ByteBufferWrite for F64 {
    fn write_to_bytey_buffer(&self, buffer: &mut ByteBuffer) -> Result<(), ByteBufferError> {
        self.0.to_bits().write_to_bytey_buffer(buffer)
    }

    fn write_to_bytey_buffer_le(&self, buffer: &mut ByteBuffer) -> Result<(), ByteBufferError> {
        self.0.to_bits().write_to_bytey_buffer_le(buffer)
    }

    fn write_to_bytey_buffer_be(&self, buffer: &mut ByteBuffer) -> Result<(), ByteBufferError> {
        self.0.to_bits().write_to_bytey_buffer_be(buffer)
    }
}

impl ByteBufferRead for F64 {
    type Model = F64;

    fn read_from_bytey_buffer(buffer: &mut ByteBuffer) -> Result<Self, ByteBufferError> {
        Ok(F64(f64::from_bits(buffer.read::<u64>()?)))
    }

    fn read_from_bytey_buffer_le(buffer: &mut ByteBuffer) -> Result<Self, ByteBufferError> {
        Ok(F64(f64::from_bits(buffer.read_le::<u64>()?)))
    }

    fn read_from_bytey_buffer_be(buffer: &mut ByteBuffer) -> Result<Self, ByteBufferError> {
        Ok(F64(f64::from_bits(buffer.read_be::<u64>()?)))
    }
}

#[test]
fn test_u8_write_read_ne() {
    let mut buffer = ByteBuffer::with_capacity(std::mem::size_of::<u8>()).unwrap();
    let value: u8 = u8::MAX / 2 as u8;
    let value_bytes = value.to_ne_bytes();

    let _ = buffer.write(&value);
    let _ = buffer.move_cursor(0);

    assert_eq!(buffer.read::<u8>().unwrap(), value);

    let _ = buffer.move_cursor(0);

    assert_eq!(
        buffer.read_slice(std::mem::size_of::<u8>()).unwrap(),
        value_bytes
    );
}

#[test]
fn test_u16_write_read_ne() {
    let mut buffer = ByteBuffer::with_capacity(std::mem::size_of::<u16>()).unwrap();
    let value: u16 = u16::MAX / 2 as u16;
    let value_bytes = value.to_ne_bytes();

    let _ = buffer.write(&value);
    let _ = buffer.move_cursor(0);

    assert_eq!(buffer.read::<u16>().unwrap(), value);

    let _ = buffer.move_cursor(0);

    assert_eq!(
        buffer.read_slice(std::mem::size_of::<u16>()).unwrap(),
        value_bytes
    );
}

#[test]
fn test_u16_write_read_le() {
    let mut buffer = ByteBuffer::with_capacity(std::mem::size_of::<u16>()).unwrap();
    let value: u16 = u16::MAX / 2 as u16;
    let value_bytes = value.to_le_bytes();

    let _ = buffer.write_le(&value);
    let _ = buffer.move_cursor(0);

    assert_eq!(buffer.read::<u16>().unwrap(), value.to_le());

    let _ = buffer.move_cursor(0);
    assert_eq!(buffer.read_le::<u16>().unwrap(), value);

    let _ = buffer.move_cursor(0);

    assert_eq!(
        buffer.read_slice(std::mem::size_of::<u16>()).unwrap(),
        value_bytes
    );
}

#[test]
fn test_u16_write_read_be() {
    let mut buffer = ByteBuffer::with_capacity(std::mem::size_of::<u16>()).unwrap();
    let value: u16 = u16::MAX / 2 as u16;
    let value_bytes = value.to_be_bytes();

    let _ = buffer.write_be(&value);
    let _ = buffer.move_cursor(0);

    assert_eq!(buffer.read::<u16>().unwrap(), value.to_be());

    let _ = buffer.move_cursor(0);
    assert_eq!(buffer.read_be::<u16>().unwrap(), value);

    let _ = buffer.move_cursor(0);

    assert_eq!(
        buffer.read_slice(std::mem::size_of::<u16>()).unwrap(),
        value_bytes
    );
}

#[test]
fn test_u32_write_read_ne() {
    let mut buffer = ByteBuffer::with_capacity(std::mem::size_of::<u32>()).unwrap();
    let value: u32 = u32::MAX / 2 as u32;
    let value_bytes = value.to_ne_bytes();

    let _ = buffer.write(&value);
    let _ = buffer.move_cursor(0);

    assert_eq!(buffer.read::<u32>().unwrap(), value);

    let _ = buffer.move_cursor(0);

    assert_eq!(
        buffer.read_slice(std::mem::size_of::<u32>()).unwrap(),
        value_bytes
    );
}

#[test]
fn test_u32_write_read_le() {
    let mut buffer = ByteBuffer::with_capacity(std::mem::size_of::<u32>()).unwrap();
    let value: u32 = u32::MAX / 2 as u32;
    let value_bytes = value.to_le_bytes();

    let _ = buffer.write_le(&value);
    let _ = buffer.move_cursor(0);

    assert_eq!(buffer.read::<u32>().unwrap(), value.to_le());

    let _ = buffer.move_cursor(0);
    assert_eq!(buffer.read_le::<u32>().unwrap(), value);

    let _ = buffer.move_cursor(0);

    assert_eq!(
        buffer.read_slice(std::mem::size_of::<u32>()).unwrap(),
        value_bytes
    );
}

#[test]
fn test_u32_write_read_be() {
    let mut buffer = ByteBuffer::with_capacity(std::mem::size_of::<u32>()).unwrap();
    let value: u32 = u32::MAX / 2 as u32;
    let value_bytes = value.to_be_bytes();

    let _ = buffer.write_be(&value);
    let _ = buffer.move_cursor(0);

    assert_eq!(buffer.read::<u32>().unwrap(), value.to_be());

    let _ = buffer.move_cursor(0);
    assert_eq!(buffer.read_be::<u32>().unwrap(), value);

    let _ = buffer.move_cursor(0);

    assert_eq!(
        buffer.read_slice(std::mem::size_of::<u32>()).unwrap(),
        value_bytes
    );
}

#[test]
fn test_u64_write_read_ne() {
    let mut buffer = ByteBuffer::with_capacity(std::mem::size_of::<u64>()).unwrap();
    let value: u64 = u64::MAX / 2 as u64;
    let value_bytes = value.to_ne_bytes();

    let _ = buffer.write(&value);
    let _ = buffer.move_cursor(0);

    assert_eq!(buffer.read::<u64>().unwrap(), value);

    let _ = buffer.move_cursor(0);

    assert_eq!(
        buffer.read_slice(std::mem::size_of::<u64>()).unwrap(),
        value_bytes
    );
}

#[test]
fn test_u64_write_read_le() {
    let mut buffer = ByteBuffer::with_capacity(std::mem::size_of::<u64>()).unwrap();
    let value: u64 = u64::MAX / 2 as u64;
    let value_bytes = value.to_le_bytes();

    let _ = buffer.write_le(&value);
    let _ = buffer.move_cursor(0);

    assert_eq!(buffer.read::<u64>().unwrap(), value.to_le());

    let _ = buffer.move_cursor(0);
    assert_eq!(buffer.read_le::<u64>().unwrap(), value);

    let _ = buffer.move_cursor(0);

    assert_eq!(
        buffer.read_slice(std::mem::size_of::<u64>()).unwrap(),
        value_bytes
    );
}

#[test]
fn test_u64_write_read_be() {
    let mut buffer = ByteBuffer::with_capacity(std::mem::size_of::<u64>()).unwrap();
    let value: u64 = u64::MAX / 2 as u64;
    let value_bytes = value.to_be_bytes();

    let _ = buffer.write_be(&value);
    let _ = buffer.move_cursor(0);

    assert_eq!(buffer.read::<u64>().unwrap(), value.to_be());

    let _ = buffer.move_cursor(0);
    assert_eq!(buffer.read_be::<u64>().unwrap(), value);

    let _ = buffer.move_cursor(0);

    assert_eq!(
        buffer.read_slice(std::mem::size_of::<u64>()).unwrap(),
        value_bytes
    );
}

#[test]
fn test_u128_write_read_ne() {
    let mut buffer = ByteBuffer::with_capacity(std::mem::size_of::<u128>()).unwrap();
    let value: u128 = u128::MAX / 2 as u128;
    let value_bytes = value.to_ne_bytes();

    let _ = buffer.write(&value);
    let _ = buffer.move_cursor(0);

    assert_eq!(buffer.read::<u128>().unwrap(), value);

    let _ = buffer.move_cursor(0);

    assert_eq!(
        buffer.read_slice(std::mem::size_of::<u128>()).unwrap(),
        value_bytes
    );
}

#[test]
fn test_u128_write_read_le() {
    let mut buffer = ByteBuffer::with_capacity(std::mem::size_of::<u128>()).unwrap();
    let value: u128 = u128::MAX / 2 as u128;
    let value_bytes = value.to_le_bytes();

    let _ = buffer.write_le(&value);
    let _ = buffer.move_cursor(0);

    assert_eq!(buffer.read::<u128>().unwrap(), value.to_le());

    let _ = buffer.move_cursor(0);
    assert_eq!(buffer.read_le::<u128>().unwrap(), value);

    let _ = buffer.move_cursor(0);

    assert_eq!(
        buffer.read_slice(std::mem::size_of::<u128>()).unwrap(),
        value_bytes
    );
}

#[test]
fn test_u128_write_read_be() {
    let mut buffer = ByteBuffer::with_capacity(std::mem::size_of::<u128>()).unwrap();
    let value: u128 = u128::MAX / 2 as u128;
    let value_bytes = value.to_be_bytes();

    let _ = buffer.write_be(&value);
    let _ = buffer.move_cursor(0);

    assert_eq!(buffer.read::<u128>().unwrap(), value.to_be());

    let _ = buffer.move_cursor(0);
    assert_eq!(buffer.read_be::<u128>().unwrap(), value);

    let _ = buffer.move_cursor(0);

    assert_eq!(
        buffer.read_slice(std::mem::size_of::<u128>()).unwrap(),
        value_bytes
    );
}

#[test]
fn test_usize_write_read_ne() {
    let mut buffer = ByteBuffer::with_capacity(std::mem::size_of::<usize>()).unwrap();
    let value: usize = usize::MAX / 2 as usize;
    let value_bytes = value.to_ne_bytes();

    let _ = buffer.write(&value);
    let _ = buffer.move_cursor(0);

    assert_eq!(buffer.read::<usize>().unwrap(), value);

    let _ = buffer.move_cursor(0);

    assert_eq!(
        buffer.read_slice(std::mem::size_of::<usize>()).unwrap(),
        value_bytes
    );
}

#[test]
fn test_usize_write_read_le() {
    let mut buffer = ByteBuffer::with_capacity(std::mem::size_of::<usize>()).unwrap();
    let value: usize = usize::MAX / 2 as usize;
    let value_bytes = value.to_le_bytes();

    let _ = buffer.write_le(&value);
    let _ = buffer.move_cursor(0);

    assert_eq!(buffer.read::<usize>().unwrap(), value.to_le());

    let _ = buffer.move_cursor(0);
    assert_eq!(buffer.read_le::<usize>().unwrap(), value);

    let _ = buffer.move_cursor(0);

    assert_eq!(
        buffer.read_slice(std::mem::size_of::<usize>()).unwrap(),
        value_bytes
    );
}

#[test]
fn test_usize_write_read_be() {
    let mut buffer = ByteBuffer::with_capacity(std::mem::size_of::<usize>()).unwrap();
    let value: usize = usize::MAX / 2 as usize;
    let value_bytes = value.to_be_bytes();

    let _ = buffer.write_be(&value);
    let _ = buffer.move_cursor(0);

    assert_eq!(buffer.read::<usize>().unwrap(), value.to_be());

    let _ = buffer.move_cursor(0);
    assert_eq!(buffer.read_be::<usize>().unwrap(), value);

    let _ = buffer.move_cursor(0);

    assert_eq!(
        buffer.read_slice(std::mem::size_of::<usize>()).unwrap(),
        value_bytes
    );
}

#[test]
fn test_i8_write_read_ne() {
    let mut buffer = ByteBuffer::with_capacity(std::mem::size_of::<i8>()).unwrap();
    let value: i8 = i8::MAX / 2 as i8;
    let value_bytes = value.to_ne_bytes();

    let _ = buffer.write(&value);
    let _ = buffer.move_cursor(0);

    assert_eq!(buffer.read::<i8>().unwrap(), value);

    let _ = buffer.move_cursor(0);

    assert_eq!(
        buffer.read_slice(std::mem::size_of::<i8>()).unwrap(),
        value_bytes
    );
}

#[test]
fn test_i16_write_read_ne() {
    let mut buffer = ByteBuffer::with_capacity(std::mem::size_of::<i16>()).unwrap();
    let value: i16 = i16::MAX / 2 as i16;
    let value_bytes = value.to_ne_bytes();

    let _ = buffer.write(&value);
    let _ = buffer.move_cursor(0);

    assert_eq!(buffer.read::<i16>().unwrap(), value);

    let _ = buffer.move_cursor(0);

    assert_eq!(
        buffer.read_slice(std::mem::size_of::<i16>()).unwrap(),
        value_bytes
    );
}

#[test]
fn test_i16_write_read_le() {
    let mut buffer = ByteBuffer::with_capacity(std::mem::size_of::<i16>()).unwrap();
    let value: i16 = i16::MAX / 2 as i16;
    let value_bytes = value.to_le_bytes();

    let _ = buffer.write_le(&value);
    let _ = buffer.move_cursor(0);

    assert_eq!(buffer.read::<i16>().unwrap(), value.to_le());

    let _ = buffer.move_cursor(0);
    assert_eq!(buffer.read_le::<i16>().unwrap(), value);

    let _ = buffer.move_cursor(0);

    assert_eq!(
        buffer.read_slice(std::mem::size_of::<i16>()).unwrap(),
        value_bytes
    );
}

#[test]
fn test_i16_write_read_be() {
    let mut buffer = ByteBuffer::with_capacity(std::mem::size_of::<i16>()).unwrap();
    let value: i16 = i16::MAX / 2 as i16;
    let value_bytes = value.to_be_bytes();

    let _ = buffer.write_be(&value);
    let _ = buffer.move_cursor(0);

    assert_eq!(buffer.read::<i16>().unwrap(), value.to_be());

    let _ = buffer.move_cursor(0);
    assert_eq!(buffer.read_be::<i16>().unwrap(), value);

    let _ = buffer.move_cursor(0);

    assert_eq!(
        buffer.read_slice(std::mem::size_of::<i16>()).unwrap(),
        value_bytes
    );
}

#[test]
fn test_i32_write_read_ne() {
    let mut buffer = ByteBuffer::with_capacity(std::mem::size_of::<i32>()).unwrap();
    let value: i32 = i32::MAX / 2 as i32;
    let value_bytes = value.to_ne_bytes();

    let _ = buffer.write(&value);
    let _ = buffer.move_cursor(0);

    assert_eq!(buffer.read::<i32>().unwrap(), value);

    let _ = buffer.move_cursor(0);

    assert_eq!(
        buffer.read_slice(std::mem::size_of::<i32>()).unwrap(),
        value_bytes
    );
}

#[test]
fn test_i32_write_read_le() {
    let mut buffer = ByteBuffer::with_capacity(std::mem::size_of::<i32>()).unwrap();
    let value: i32 = i32::MAX / 2 as i32;
    let value_bytes = value.to_le_bytes();

    let _ = buffer.write_le(&value);
    let _ = buffer.move_cursor(0);

    assert_eq!(buffer.read::<i32>().unwrap(), value.to_le());

    let _ = buffer.move_cursor(0);
    assert_eq!(buffer.read_le::<i32>().unwrap(), value);

    let _ = buffer.move_cursor(0);

    assert_eq!(
        buffer.read_slice(std::mem::size_of::<i32>()).unwrap(),
        value_bytes
    );
}

#[test]
fn test_i32_write_read_be() {
    let mut buffer = ByteBuffer::with_capacity(std::mem::size_of::<i32>()).unwrap();
    let value: i32 = i32::MAX / 2 as i32;
    let value_bytes = value.to_be_bytes();

    let _ = buffer.write_be(&value);
    let _ = buffer.move_cursor(0);

    assert_eq!(buffer.read::<i32>().unwrap(), value.to_be());

    let _ = buffer.move_cursor(0);
    assert_eq!(buffer.read_be::<i32>().unwrap(), value);

    let _ = buffer.move_cursor(0);

    assert_eq!(
        buffer.read_slice(std::mem::size_of::<i32>()).unwrap(),
        value_bytes
    );
}

#[test]
fn test_i64_write_read_ne() {
    let mut buffer = ByteBuffer::with_capacity(std::mem::size_of::<i64>()).unwrap();
    let value: i64 = i64::MAX / 2 as i64;
    let value_bytes = value.to_ne_bytes();

    let _ = buffer.write(&value);
    let _ = buffer.move_cursor(0);

    assert_eq!(buffer.read::<i64>().unwrap(), value);

    let _ = buffer.move_cursor(0);

    assert_eq!(
        buffer.read_slice(std::mem::size_of::<i64>()).unwrap(),
        value_bytes
    );
}

#[test]
fn test_i64_write_read_le() {
    let mut buffer = ByteBuffer::with_capacity(std::mem::size_of::<i64>()).unwrap();
    let value: i64 = i64::MAX / 2 as i64;
    let value_bytes = value.to_le_bytes();

    let _ = buffer.write_le(&value);
    let _ = buffer.move_cursor(0);

    assert_eq!(buffer.read::<i64>().unwrap(), value.to_le());

    let _ = buffer.move_cursor(0);
    assert_eq!(buffer.read_le::<i64>().unwrap(), value);

    let _ = buffer.move_cursor(0);

    assert_eq!(
        buffer.read_slice(std::mem::size_of::<i64>()).unwrap(),
        value_bytes
    );
}

#[test]
fn test_i64_write_read_be() {
    let mut buffer = ByteBuffer::with_capacity(std::mem::size_of::<i64>()).unwrap();
    let value: i64 = i64::MAX / 2 as i64;
    let value_bytes = value.to_be_bytes();

    let _ = buffer.write_be(&value);
    let _ = buffer.move_cursor(0);

    assert_eq!(buffer.read::<i64>().unwrap(), value.to_be());

    let _ = buffer.move_cursor(0);
    assert_eq!(buffer.read_be::<i64>().unwrap(), value);

    let _ = buffer.move_cursor(0);

    assert_eq!(
        buffer.read_slice(std::mem::size_of::<i64>()).unwrap(),
        value_bytes
    );
}

#[test]
fn test_i128_write_read_ne() {
    let mut buffer = ByteBuffer::with_capacity(std::mem::size_of::<i128>()).unwrap();
    let value: i128 = i128::MAX / 2 as i128;
    let value_bytes = value.to_ne_bytes();

    let _ = buffer.write(&value);
    let _ = buffer.move_cursor(0);

    assert_eq!(buffer.read::<i128>().unwrap(), value);

    let _ = buffer.move_cursor(0);

    assert_eq!(
        buffer.read_slice(std::mem::size_of::<i128>()).unwrap(),
        value_bytes
    );
}

#[test]
fn test_i128_write_read_le() {
    let mut buffer = ByteBuffer::with_capacity(std::mem::size_of::<i128>()).unwrap();
    let value: i128 = i128::MAX / 2 as i128;
    let value_bytes = value.to_le_bytes();

    let _ = buffer.write_le(&value);
    let _ = buffer.move_cursor(0);

    assert_eq!(buffer.read::<i128>().unwrap(), value.to_le());

    let _ = buffer.move_cursor(0);
    assert_eq!(buffer.read_le::<i128>().unwrap(), value);

    let _ = buffer.move_cursor(0);

    assert_eq!(
        buffer.read_slice(std::mem::size_of::<i128>()).unwrap(),
        value_bytes
    );
}

#[test]
fn test_i128_write_read_be() {
    let mut buffer = ByteBuffer::with_capacity(std::mem::size_of::<i128>()).unwrap();
    let value: i128 = i128::MAX / 2 as i128;
    let value_bytes = value.to_be_bytes();

    let _ = buffer.write_be(&value);
    let _ = buffer.move_cursor(0);

    assert_eq!(buffer.read::<i128>().unwrap(), value.to_be());

    let _ = buffer.move_cursor(0);
    assert_eq!(buffer.read_be::<i128>().unwrap(), value);

    let _ = buffer.move_cursor(0);

    assert_eq!(
        buffer.read_slice(std::mem::size_of::<i128>()).unwrap(),
        value_bytes
    );
}

#[test]
fn test_isize_write_read_ne() {
    let mut buffer = ByteBuffer::with_capacity(std::mem::size_of::<isize>()).unwrap();
    let value: isize = isize::MAX / 2 as isize;
    let value_bytes = value.to_ne_bytes();

    let _ = buffer.write(&value);
    let _ = buffer.move_cursor(0);

    assert_eq!(buffer.read::<isize>().unwrap(), value);

    let _ = buffer.move_cursor(0);

    assert_eq!(
        buffer.read_slice(std::mem::size_of::<isize>()).unwrap(),
        value_bytes
    );
}

#[test]
fn test_isize_write_read_le() {
    let mut buffer = ByteBuffer::with_capacity(std::mem::size_of::<isize>()).unwrap();
    let value: isize = isize::MAX / 2 as isize;
    let value_bytes = value.to_le_bytes();

    let _ = buffer.write_le(&value);
    let _ = buffer.move_cursor(0);

    assert_eq!(buffer.read::<isize>().unwrap(), value.to_le());

    let _ = buffer.move_cursor(0);
    assert_eq!(buffer.read_le::<isize>().unwrap(), value);

    let _ = buffer.move_cursor(0);

    assert_eq!(
        buffer.read_slice(std::mem::size_of::<isize>()).unwrap(),
        value_bytes
    );
}

#[test]
fn test_isize_write_read_be() {
    let mut buffer = ByteBuffer::with_capacity(std::mem::size_of::<isize>()).unwrap();
    let value: isize = isize::MAX / 2 as isize;
    let value_bytes = value.to_be_bytes();

    let _ = buffer.write_be(&value);
    let _ = buffer.move_cursor(0);

    assert_eq!(buffer.read::<isize>().unwrap(), value.to_be());

    let _ = buffer.move_cursor(0);
    assert_eq!(buffer.read_be::<isize>().unwrap(), value);

    let _ = buffer.move_cursor(0);

    assert_eq!(
        buffer.read_slice(std::mem::size_of::<isize>()).unwrap(),
        value_bytes
    );
}

#[test]
fn test_f32_write_read_ne() {
    let mut buffer = ByteBuffer::with_capacity(std::mem::size_of::<f32>()).unwrap();
    let value: f32 = f32::MAX / 2 as f32;
    let value_bytes = value.to_ne_bytes();

    let _ = buffer.write(&F32(value));
    let _ = buffer.move_cursor(0);

    assert_eq!(buffer.read::<F32>().unwrap().0, value);

    let _ = buffer.move_cursor(0);

    assert_eq!(
        buffer.read_slice(std::mem::size_of::<f32>()).unwrap(),
        value_bytes
    );
}

#[test]
fn test_f32_write_read_le() {
    let mut buffer = ByteBuffer::with_capacity(std::mem::size_of::<f32>()).unwrap();
    let value: f32 = f32::MAX / 2.0f32;
    let value_bytes = value.to_le_bytes();

    let _ = buffer.write_le(F32(value));
    let _ = buffer.move_cursor(0);

    assert_eq!(
        f32::from_le_bytes(buffer.read::<F32>().unwrap().0.to_ne_bytes()),
        f32::from_le_bytes(value.to_bits().to_le_bytes())
    );

    let _ = buffer.move_cursor(0);
    assert_eq!(buffer.read_le::<F32>().unwrap().0, value);

    let _ = buffer.move_cursor(0);

    assert_eq!(
        buffer.read_slice(std::mem::size_of::<f32>()).unwrap(),
        value_bytes
    );
}

#[test]
fn test_f32_write_read_be() {
    let mut buffer = ByteBuffer::with_capacity(std::mem::size_of::<f32>()).unwrap();
    let value: f32 = f32::MAX / 2.0f32;
    let value_bytes = value.to_be_bytes();

    let _ = buffer.write_be(F32(value));
    let _ = buffer.move_cursor(0);

    assert_eq!(
        f32::from_be_bytes(buffer.read::<F32>().unwrap().0.to_ne_bytes()),
        f32::from_be_bytes(value.to_bits().to_be_bytes())
    );

    let _ = buffer.move_cursor(0);
    assert_eq!(buffer.read_be::<F32>().unwrap().0, value);

    let _ = buffer.move_cursor(0);

    assert_eq!(
        buffer.read_slice(std::mem::size_of::<f32>()).unwrap(),
        value_bytes
    );
}

#[test]
fn test_f64_write_read_ne() {
    let mut buffer = ByteBuffer::with_capacity(std::mem::size_of::<f64>()).unwrap();
    let value: f64 = f64::MAX / 2 as f64;
    let value_bytes = value.to_ne_bytes();

    let _ = buffer.write(&F64(value));
    let _ = buffer.move_cursor(0);

    assert_eq!(buffer.read::<F64>().unwrap().0, value);

    let _ = buffer.move_cursor(0);

    assert_eq!(
        buffer.read_slice(std::mem::size_of::<f64>()).unwrap(),
        value_bytes
    );
}

#[test]
fn test_f64_write_read_le() {
    let mut buffer = ByteBuffer::with_capacity(std::mem::size_of::<f64>()).unwrap();
    let value: f64 = f64::MAX / 2.0f64;
    let value_bytes = value.to_le_bytes();

    let _ = buffer.write_le(F64(value));
    let _ = buffer.move_cursor(0);

    assert_eq!(
        f64::from_le_bytes(buffer.read::<F64>().unwrap().0.to_ne_bytes()),
        f64::from_le_bytes(value.to_bits().to_le_bytes())
    );

    let _ = buffer.move_cursor(0);
    assert_eq!(buffer.read_le::<F64>().unwrap().0, value);

    let _ = buffer.move_cursor(0);

    assert_eq!(
        buffer.read_slice(std::mem::size_of::<f64>()).unwrap(),
        value_bytes
    );
}

#[test]
fn test_f64_write_read_be() {
    let mut buffer = ByteBuffer::with_capacity(std::mem::size_of::<f64>()).unwrap();
    let value: f64 = f64::MAX / 2.0f64;
    let value_bytes = value.to_be_bytes();

    let _ = buffer.write_be(F64(value));
    let _ = buffer.move_cursor(0);

    assert_eq!(
        f64::from_be_bytes(buffer.read::<F64>().unwrap().0.to_ne_bytes()),
        f64::from_be_bytes(value.to_bits().to_be_bytes())
    );

    let _ = buffer.move_cursor(0);
    assert_eq!(buffer.read_be::<F64>().unwrap().0, value);

    let _ = buffer.move_cursor(0);

    assert_eq!(
        buffer.read_slice(std::mem::size_of::<f64>()).unwrap(),
        value_bytes
    );
}

#[test]
fn test_option_write_read() {
    let mut buffer =
        ByteBuffer::with_capacity(std::mem::size_of::<u64>() + std::mem::size_of::<u8>()).unwrap();
    let value: u64 = u64::MAX / 2;
    let option = Some(value);

    let _ = buffer.write(option).unwrap();
    let _ = buffer.move_cursor(0);

    let read_option = buffer.read::<Option<u64>>().unwrap();

    assert_eq!(read_option, option);

    let _ = buffer.move_cursor(0);
    assert_eq!(buffer.read::<u8>().unwrap(), 1);
    assert_eq!(buffer.read::<u64>().unwrap(), value);
}

#[test]
fn test_arr_write_read() {
    let mut buffer =
        ByteBuffer::with_capacity(std::mem::size_of::<usize>() + (std::mem::size_of::<u16>() * 30))
            .unwrap();
    let value: [u16; 30] = [2; 30];

    let _ = buffer.write(value);
    let _ = buffer.move_cursor(0);

    let read_arr = buffer.read::<[u16; 30]>().unwrap();

    assert_eq!(read_arr, value);

    let _ = buffer.move_cursor(0);
    assert_eq!(buffer.read::<usize>().unwrap(), 30);

    for _ in 0..30 {
        assert_eq!(buffer.read::<u16>().unwrap(), 2);
    }
}

#[test]
fn test_result_write_read() {
    let mut buffer =
        ByteBuffer::with_capacity(std::mem::size_of::<usize>() + (std::mem::size_of::<u8>() * 30))
            .unwrap();
    let value: Result<u16, u16> = Ok(5);

    let _ = buffer.write(value);
    let _ = buffer.move_cursor(0);

    let read_arr = buffer.read::<Result<u16, u16>>().unwrap();

    assert_eq!(read_arr, value);

    let _ = buffer.move_cursor(0);
    assert_eq!(buffer.read::<u8>().unwrap(), 1);
    assert_eq!(buffer.read::<u16>().unwrap(), 5);
}

#[test]
fn test_tuple_write_read() {
    let mut buffer =
        ByteBuffer::with_capacity(std::mem::size_of::<usize>() + (std::mem::size_of::<u16>() * 30))
            .unwrap();
    let value: (u16, u32, u64, Option<u16>) = (1, 2, 3, Some(5));

    let _ = buffer.write(value);
    let _ = buffer.move_cursor(0);

    let read_arr = buffer.read::<(u16, u32, u64, Option<u16>)>().unwrap();

    assert_eq!(read_arr, value);

    let _ = buffer.move_cursor(0);
    assert_eq!(buffer.read::<u16>().unwrap(), 1);
    assert_eq!(buffer.read::<u32>().unwrap(), 2);
    assert_eq!(buffer.read::<u64>().unwrap(), 3);
    assert_eq!(buffer.read::<Option<u16>>().unwrap(), Some(5));
}

#[test]
fn test_vec_write_read() {
    let mut buffer =
        ByteBuffer::with_capacity(std::mem::size_of::<usize>() + (std::mem::size_of::<u16>() * 30))
            .unwrap();
    let value: Vec<u16> = vec![0, 1, 2, 3, 4, 5, 6, 7, 8, 9];

    let _ = buffer.write(&value);
    let _ = buffer.move_cursor(0);

    let read_arr = buffer.read::<Vec<u16>>().unwrap();

    assert_eq!(read_arr, value);

    let _ = buffer.move_cursor(0);
    assert_eq!(buffer.read::<usize>().unwrap(), 10);

    for i in 0..10 {
        assert_eq!(buffer.read::<u16>().unwrap(), i);
    }
}
