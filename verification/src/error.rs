//! The failures that the arena and the codec report, and the text that describes each.

use vstd::prelude::*;

verus! {

/// Why an operation on a [`ByteBuffer`](crate::byte_buffer::ByteBuffer) or a codec rule failed.
#[derive(Debug, PartialEq, Eq)]
pub enum ByteBufferError {
    /// The capacity asked for is larger than `isize::MAX` bytes.
    MaxCapacity,
    /// The allocator could not provide `size` bytes.
    AllocationFailure { size: usize },
    /// The capacity asked for is zero.
    MinCapacity,
    /// A cursor position beyond the length was asked for.
    CursorOutOfBounds { length: usize, cursor: usize },
    /// A read of the bytes `start..end` reaches beyond the length.
    ReadOutOfBounds { length: usize, start: usize, end: usize },
    /// A truncation to more than the current length was asked for.
    LengthOutOfBounds { current: usize, new: usize },
    /// Four bytes were read that are not the code point of a character.
    NotAChar,
    /// A zero was read where a non-zero integer was expected.
    NonZeroIsZero,
    /// A value could not be read out of its cell because something else holds it.
    AlreadyBorrowed { context: String },
    /// The bytes of a string are not UTF-8.
    InvalidUnicode,
    /// A rule of the codec was broken; `message` says which and where.
    OtherError { message: String },
}

/// A [`ByteBufferError`] as specifications see it: the texts are sequences of characters.
pub enum ErrorView {
    MaxCapacity,
    AllocationFailure { size: usize },
    MinCapacity,
    CursorOutOfBounds { length: usize, cursor: usize },
    ReadOutOfBounds { length: usize, start: usize, end: usize },
    LengthOutOfBounds { current: usize, new: usize },
    NotAChar,
    NonZeroIsZero,
    AlreadyBorrowed { context: Seq<char> },
    InvalidUnicode,
    OtherError { message: Seq<char> },
}

impl View for ByteBufferError {
    type V = ErrorView;

    open spec fn view(&self) -> ErrorView {
        match self {
            ByteBufferError::MaxCapacity => ErrorView::MaxCapacity,
            ByteBufferError::AllocationFailure { size } => ErrorView::AllocationFailure {
                size: *size,
            },
            ByteBufferError::MinCapacity => ErrorView::MinCapacity,
            ByteBufferError::CursorOutOfBounds { length, cursor } => ErrorView::CursorOutOfBounds {
                length: *length,
                cursor: *cursor,
            },
            ByteBufferError::ReadOutOfBounds { length, start, end } => ErrorView::ReadOutOfBounds {
                length: *length,
                start: *start,
                end: *end,
            },
            ByteBufferError::LengthOutOfBounds { current, new } => ErrorView::LengthOutOfBounds {
                current: *current,
                new: *new,
            },
            ByteBufferError::NotAChar => ErrorView::NotAChar,
            ByteBufferError::NonZeroIsZero => ErrorView::NonZeroIsZero,
            ByteBufferError::AlreadyBorrowed { context } => ErrorView::AlreadyBorrowed {
                context: context@,
            },
            ByteBufferError::InvalidUnicode => ErrorView::InvalidUnicode,
            ByteBufferError::OtherError { message } => ErrorView::OtherError { message: message@ },
        }
    }
}

/// The character that stands for the digit `d`.
pub open spec fn digit(d: nat) -> char
    recommends
        d < 10,
{
    if d == 0 {
        '0'
    } else if d == 1 {
        '1'
    } else if d == 2 {
        '2'
    } else if d == 3 {
        '3'
    } else if d == 4 {
        '4'
    } else if d == 5 {
        '5'
    } else if d == 6 {
        '6'
    } else if d == 7 {
        '7'
    } else if d == 8 {
        '8'
    } else {
        '9'
    }
}

/// `n` written in base ten, without leading zeros.
pub open spec fn decimal(n: nat) -> Seq<char>
    decreases n,
{
    if n < 10 {
        seq![digit(n)]
    } else {
        decimal(n / 10).push(digit(n % 10))
    }
}

impl ErrorView {
    /// The sentence that describes the failure.
    pub open spec fn message(self) -> Seq<char> {
        match self {
            ErrorView::MaxCapacity => "Capacity cannot be greater than "@ + decimal(
                isize::MAX as nat,
            ) + " bytes"@,
            ErrorView::AllocationFailure { size } => "Failed to allocate "@ + decimal(size as nat)
                + " bytes"@,
            ErrorView::MinCapacity => "Capacity cannot be less than 1 byte"@,
            ErrorView::CursorOutOfBounds { length, cursor } => "Cursor out of bounds: "@ + decimal(
                cursor as nat,
            ) + " >= "@ + decimal(length as nat),
            ErrorView::ReadOutOfBounds { length, start, end } => "Read out of bounds: "@ + decimal(
                start as nat,
            ) + ".."@ + decimal(end as nat) + " >= "@ + decimal(length as nat),
            ErrorView::LengthOutOfBounds { current, new } => "Length out of bounds: "@ + decimal(
                new as nat,
            ) + " >= "@ + decimal(current as nat),
            ErrorView::NotAChar => "Value is not a valid char"@,
            ErrorView::NonZeroIsZero => "Non-zero value is zero"@,
            ErrorView::AlreadyBorrowed { context } => "Already borrowed: "@ + context,
            ErrorView::InvalidUnicode => "Invalid UTF-8 in string"@,
            ErrorView::OtherError { message } => "Other Error: "@ + message,
        }
    }
}

/// The text of one digit.
fn digit_text(d: u8) -> (text: &'static str)
    requires
        d < 10,
    ensures
        text@ == seq![digit(d as nat)],
{
    proof {
        reveal_strlit("0");
        reveal_strlit("1");
        reveal_strlit("2");
        reveal_strlit("3");
        reveal_strlit("4");
        reveal_strlit("5");
        reveal_strlit("6");
        reveal_strlit("7");
        reveal_strlit("8");
        reveal_strlit("9");
    }
    let text = if d == 0 {
        "0"
    } else if d == 1 {
        "1"
    } else if d == 2 {
        "2"
    } else if d == 3 {
        "3"
    } else if d == 4 {
        "4"
    } else if d == 5 {
        "5"
    } else if d == 6 {
        "6"
    } else if d == 7 {
        "7"
    } else if d == 8 {
        "8"
    } else {
        "9"
    };
    assert(text@ =~= seq![digit(d as nat)]);
    text
}

/// Writes `n` in base ten.
pub fn decimal_text(n: u128) -> (text: String)
    ensures
        text@ == decimal(n as nat),
    decreases n,
{
    if n < 10 {
        String::from_str(digit_text(n as u8))
    } else {
        let mut text = decimal_text(n / 10);
        text.append(digit_text((n % 10) as u8));
        assert(text@ =~= decimal((n / 10) as nat).push(digit((n % 10) as nat)));
        text
    }
}

/// Puts `n`, in base ten, at the end of `text`.
pub fn append_decimal(text: &mut String, n: u128)
    ensures
        final(text)@ == old(text)@ + decimal(n as nat),
{
    let digits = decimal_text(n);
    text.append(digits.as_str());
}

impl ErrorView {
    /// The failure `self` of the member `index` of a tuple that was being written.
    pub open spec fn at_tuple_write(self, index: nat) -> ErrorView {
        ErrorView::OtherError {
            message: self.message() + " occured at tuple write location "@ + decimal(index),
        }
    }

    /// The failure `self` of the member `index` of a tuple that was being read.
    pub open spec fn at_tuple_read(self, index: nat) -> ErrorView {
        ErrorView::OtherError {
            message: self.message() + " occured at tuple read location "@ + decimal(index),
        }
    }

    /// The failure `self` of the item `index` of an array that was being read.
    pub open spec fn at_array_item(self, index: nat) -> ErrorView {
        ErrorView::OtherError {
            message: self.message() + " occured at arr["@ + decimal(index) + "] ?"@,
        }
    }
}

impl ByteBufferError {
    /// An [`OtherError`](ByteBufferError::OtherError) with the given message.
    pub fn other(message: String) -> (e: ByteBufferError)
        ensures
            e@ == (ErrorView::OtherError { message: message@ }),
    {
        ByteBufferError::OtherError { message }
    }

    /// An [`OtherError`](ByteBufferError::OtherError) with the given words as its message.
    pub fn other_str(message: &str) -> (e: ByteBufferError)
        ensures
            e@ == (ErrorView::OtherError { message: message@ }),
    {
        ByteBufferError::OtherError { message: String::from_str(message) }
    }

    /// The failure `self` of the member `index` of a tuple that was being written.
    pub fn at_tuple_write(&self, index: usize) -> (e: ByteBufferError)
        ensures
            e@ == self@.at_tuple_write(index as nat),
    {
        let mut message = self.to_string();
        message.append(" occured at tuple write location ");
        append_decimal(&mut message, index as u128);
        ByteBufferError::OtherError { message }
    }

    /// The failure `self` of the member `index` of a tuple that was being read.
    pub fn at_tuple_read(&self, index: usize) -> (e: ByteBufferError)
        ensures
            e@ == self@.at_tuple_read(index as nat),
    {
        let mut message = self.to_string();
        message.append(" occured at tuple read location ");
        append_decimal(&mut message, index as u128);
        ByteBufferError::OtherError { message }
    }

    /// The failure `self` of the item `index` of an array that was being read.
    pub fn at_array_item(&self, index: usize) -> (e: ByteBufferError)
        ensures
            e@ == self@.at_array_item(index as nat),
    {
        let mut message = self.to_string();
        message.append(" occured at arr[");
        append_decimal(&mut message, index as u128);
        message.append("] ?");
        ByteBufferError::OtherError { message }
    }

    /// The sentence that describes the failure.
    pub fn to_string(&self) -> (text: String)
        ensures
            text@ == self@.message(),
    {
        match self {
            ByteBufferError::MaxCapacity => {
                let mut text = String::from_str("Capacity cannot be greater than ");
                append_decimal(&mut text, isize::MAX as u128);
                text.append(" bytes");
                text
            },
            ByteBufferError::AllocationFailure { size } => {
                let mut text = String::from_str("Failed to allocate ");
                append_decimal(&mut text, *size as u128);
                text.append(" bytes");
                text
            },
            ByteBufferError::MinCapacity => String::from_str("Capacity cannot be less than 1 byte"),
            ByteBufferError::CursorOutOfBounds { length, cursor } => {
                let mut text = String::from_str("Cursor out of bounds: ");
                append_decimal(&mut text, *cursor as u128);
                text.append(" >= ");
                append_decimal(&mut text, *length as u128);
                text
            },
            ByteBufferError::ReadOutOfBounds { length, start, end } => {
                let mut text = String::from_str("Read out of bounds: ");
                append_decimal(&mut text, *start as u128);
                text.append("..");
                append_decimal(&mut text, *end as u128);
                text.append(" >= ");
                append_decimal(&mut text, *length as u128);
                text
            },
            ByteBufferError::LengthOutOfBounds { current, new } => {
                let mut text = String::from_str("Length out of bounds: ");
                append_decimal(&mut text, *new as u128);
                text.append(" >= ");
                append_decimal(&mut text, *current as u128);
                text
            },
            ByteBufferError::NotAChar => String::from_str("Value is not a valid char"),
            ByteBufferError::NonZeroIsZero => String::from_str("Non-zero value is zero"),
            ByteBufferError::AlreadyBorrowed { context } => {
                let mut text = String::from_str("Already borrowed: ");
                text.append(context.as_str());
                text
            },
            ByteBufferError::InvalidUnicode => String::from_str("Invalid UTF-8 in string"),
            ByteBufferError::OtherError { message } => {
                let mut text = String::from_str("Other Error: ");
                text.append(message.as_str());
                text
            },
        }
    }
}

} // verus!
