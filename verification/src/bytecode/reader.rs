use vstd::prelude::*;

use crate::bytecode::Bytecode;
use crate::bytecode::Constant;
use crate::bytecode::ConstantView;
use crate::bytecode::OperationCode;
use crate::fault::Fault;

verus! {

/// The unsigned 16-bit integer whose little-endian encoding is `low`, `high`.
pub open spec fn u16_of_bytes(low: u8, high: u8) -> int {
    low + 256 * high
}

/// The signed 16-bit integer whose little-endian two's-complement encoding is
/// `low`, `high`.
pub open spec fn i16_of_bytes(low: u8, high: u8) -> int {
    if high >= 128 {
        low + 256 * high - 65536
    } else {
        low + 256 * high
    }
}

/// The byte at index `at` of `code`; a fault where the code has no such index.
pub open spec fn byte_at(code: Seq<u8>, at: int) -> Result<u8, Fault> {
    if 0 <= at < code.len() {
        Ok(code[at])
    } else {
        Err(Fault::EndOfCode)
    }
}

/// The operation code that the byte at index `at` of `code` stands for; a
/// fault where the code has no such index, and where the byte stands for none.
pub open spec fn operation_at(code: Seq<u8>, at: int) -> Result<OperationCode, Fault> {
    if 0 <= at < code.len() {
        match OperationCode::decode(code[at]) {
            Some(operation) => Ok(operation),
            None => Err(Fault::UnknownOperationCode(code[at])),
        }
    } else {
        Err(Fault::EndOfCode)
    }
}

/// The unsigned integer that the two bytes of `code` from index `at` on
/// encode, low byte first; a fault where the code ends before the second.
pub open spec fn u16_at(code: Seq<u8>, at: int) -> Result<u16, Fault> {
    if 0 <= at && at + 2 <= code.len() {
        Ok(u16_of_bytes(code[at], code[at + 1]) as u16)
    } else {
        Err(Fault::EndOfCode)
    }
}

/// The signed integer that the two bytes of `code` from index `at` on
/// encode, low byte first; a fault where the code ends before the second.
pub open spec fn i16_at(code: Seq<u8>, at: int) -> Result<i16, Fault> {
    if 0 <= at && at + 2 <= code.len() {
        Ok(i16_of_bytes(code[at], code[at + 1]) as i16)
    } else {
        Err(Fault::EndOfCode)
    }
}

/// Calls `byteorder::ByteOrder::read_u16` of `byteorder::LittleEndian` on the
/// two bytes: the result is the unsigned integer that they encode, low byte
/// first.
#[verifier::external_body]
fn read_u16(low: u8, high: u8) -> (value: u16)
    ensures
        value == u16_of_bytes(low, high),
{
    <byteorder::LittleEndian as byteorder::ByteOrder>::read_u16(&[low, high])
}

/// Calls `byteorder::ByteOrder::read_i16` of `byteorder::LittleEndian` on the
/// two bytes: the result is the two's-complement integer that they encode,
/// low byte first.
#[verifier::external_body]
fn read_i16(low: u8, high: u8) -> (value: i16)
    ensures
        value == i16_of_bytes(low, high),
{
    <byteorder::LittleEndian as byteorder::ByteOrder>::read_i16(&[low, high])
}

/// A cursor over a borrowed [`Bytecode`].
///
/// Operation codes and operands are read with `fetch`, which decodes them and
/// moves the cursor on; constants are read with `load`.
pub struct BytecodeReader<'a> {
    code: &'a Vec<u8>,
    constants: &'a Vec<Constant>,
    position: usize,
}

impl<'a> BytecodeReader<'a> {
    /// The code that is read.
    pub closed spec fn code(&self) -> Seq<u8> {
        self.code@
    }

    /// The pool of constants that is read.
    pub closed spec fn pool(&self) -> Seq<ConstantView> {
        Seq::new(self.constants@.len(), |i: int| self.constants@[i]@)
    }

    /// The position of the cursor: the index of the next byte to fetch.
    pub closed spec fn cursor(&self) -> int {
        self.position as int
    }

    /// The cursor is a position: it is not negative, and no larger than a
    /// position can be.
    pub proof fn cursor_is_a_position(&self)
        ensures
            0 <= self.cursor() <= usize::MAX,
    {
    }

    /// Create a reader at the start of `bytecode`.
    pub fn new(bytecode: &'a Bytecode) -> (reader: Self)
        ensures
            reader.code() == bytecode.code@,
            reader.pool() == bytecode.pool(),
            reader.cursor() == 0,
    {
        BytecodeReader { code: &bytecode.code, constants: &bytecode.constants, position: 0 }
    }

    /// The position of the cursor.
    pub fn position(&self) -> (position: usize)
        ensures
            position == self.cursor(),
    {
        self.position
    }

    /// A copy of the constant at `index`; a fault where the pool has no such index.
    pub fn load(&self, index: usize) -> (constant: Result<Constant, Fault>)
        ensures
            index < self.pool().len() ==> constant is Ok && constant->Ok_0@ == self.pool()[
                index as int],
            index >= self.pool().len() ==> constant == Err::<Constant, Fault>(
                Fault::ConstantOutOfRange,
            ),
    {
        if index >= self.constants.len() {
            return Err(Fault::ConstantOutOfRange);
        }
        Ok(self.constants[index].duplicate())
    }

    /// Move the cursor by `offset` bytes, backward where it is negative.
    ///
    /// The cursor may come to stand behind the end of the code. A move to
    /// before the start, or beyond what a position can hold, is a fault and
    /// moves nothing.
    pub fn jump(&mut self, offset: isize) -> (moved: Result<(), Fault>)
        ensures
            final(self).code() == old(self).code(),
            final(self).pool() == old(self).pool(),
            0 <= old(self).cursor() + offset <= usize::MAX ==> moved is Ok && final(self).cursor()
                == old(self).cursor() + offset,
            !(0 <= old(self).cursor() + offset <= usize::MAX) ==> moved == Err::<(), Fault>(
                Fault::InvalidJump,
            ) && final(self).cursor() == old(self).cursor(),
    {
        if offset >= 0 {
            let forward: usize = offset as usize;
            if forward > usize::MAX - self.position {
                return Err(Fault::InvalidJump);
            }
            self.position = self.position + forward;
        } else {
            let short: isize = -(offset + 1);
            let backward: usize = short as usize;
            if backward >= self.position {
                return Err(Fault::InvalidJump);
            }
            self.position = self.position - backward - 1;
        }
        Ok(())
    }

    /// Put the cursor at `index`, which may lie behind the end of the code.
    pub fn seek(&mut self, index: usize)
        ensures
            final(self).code() == old(self).code(),
            final(self).pool() == old(self).pool(),
            final(self).cursor() == index,
    {
        self.position = index;
    }
}

/// Reading one item of type `T` at the cursor.
///
/// The reader implements it for operation codes and for each operand type,
/// so that a caller names the type it expects and leaves the width and the
/// byte order to the reader.
pub trait Fetch<T>: Sized {
    /// What a fetch yields: the item at the cursor, or the fault that
    /// prevents reading one.
    spec fn outcome(&self) -> Result<T, Fault>;

    /// The reader as a successful fetch leaves it.
    spec fn advanced(&self) -> Self;

    /// Read the item at the cursor and move the cursor behind it. A fault
    /// moves nothing.
    fn fetch(&mut self) -> (fetched: Result<T, Fault>)
        ensures
            fetched == old(self).outcome(),
            fetched is Ok ==> *final(self) == old(self).advanced(),
            fetched is Err ==> *final(self) == *old(self),
    ;
}

impl<'a> BytecodeReader<'a> {
    /// This reader with its cursor moved `width` bytes on.
    pub closed spec fn moved_on(&self, width: int) -> Self {
        BytecodeReader {
            code: self.code,
            constants: self.constants,
            position: (self.position + width) as usize,
        }
    }

    /// Moving the cursor on within the code changes neither the code nor
    /// the pool, and puts the cursor `width` bytes further.
    pub proof fn moved_on_is_a_move(&self, width: int)
        requires
            0 <= width,
            self.cursor() + width <= self.code().len(),
        ensures
            self.moved_on(width).code() == self.code(),
            self.moved_on(width).pool() == self.pool(),
            self.moved_on(width).cursor() == self.cursor() + width,
    {
        assert(self.code.len() == self.code@.len());
    }
}

impl<'a> Fetch<u8> for BytecodeReader<'a> {
    /// The byte at the cursor; behind the end of the code, a fault.
    open spec fn outcome(&self) -> Result<u8, Fault> {
        byte_at(self.code(), self.cursor())
    }

    open spec fn advanced(&self) -> Self {
        self.moved_on(1)
    }

    fn fetch(&mut self) -> Result<u8, Fault> {
        if self.position >= self.code.len() {
            return Err(Fault::EndOfCode);
        }
        let byte = self.code[self.position];
        self.position = self.position + 1;
        Ok(byte)
    }
}

impl<'a> Fetch<OperationCode> for BytecodeReader<'a> {
    /// The operation code that the byte at the cursor stands for; a fault
    /// behind the end of the code, and where the byte stands for none.
    open spec fn outcome(&self) -> Result<OperationCode, Fault> {
        operation_at(self.code(), self.cursor())
    }

    open spec fn advanced(&self) -> Self {
        self.moved_on(1)
    }

    fn fetch(&mut self) -> Result<OperationCode, Fault> {
        if self.position >= self.code.len() {
            return Err(Fault::EndOfCode);
        }
        let candidate = self.code[self.position];
        match OperationCode::from_byte(candidate) {
            Some(code) => {
                self.position = self.position + 1;
                Ok(code)
            },
            None => Err(Fault::UnknownOperationCode(candidate)),
        }
    }
}

impl<'a> Fetch<u16> for BytecodeReader<'a> {
    /// The unsigned integer that the two bytes at the cursor encode, low
    /// byte first; a fault where fewer than two bytes are left.
    open spec fn outcome(&self) -> Result<u16, Fault> {
        u16_at(self.code(), self.cursor())
    }

    open spec fn advanced(&self) -> Self {
        self.moved_on(2)
    }

    fn fetch(&mut self) -> Result<u16, Fault> {
        if self.code.len() < 2 || self.position > self.code.len() - 2 {
            return Err(Fault::EndOfCode);
        }
        let value = read_u16(self.code[self.position], self.code[self.position + 1]);
        self.position = self.position + 2;
        Ok(value)
    }
}

impl<'a> Fetch<i16> for BytecodeReader<'a> {
    /// The signed integer that the two bytes at the cursor encode, low byte
    /// first; a fault where fewer than two bytes are left.
    open spec fn outcome(&self) -> Result<i16, Fault> {
        i16_at(self.code(), self.cursor())
    }

    open spec fn advanced(&self) -> Self {
        self.moved_on(2)
    }

    fn fetch(&mut self) -> Result<i16, Fault> {
        if self.code.len() < 2 || self.position > self.code.len() - 2 {
            return Err(Fault::EndOfCode);
        }
        let value = read_i16(self.code[self.position], self.code[self.position + 1]);
        self.position = self.position + 2;
        Ok(value)
    }
}

} // verus!
