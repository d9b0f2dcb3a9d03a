use vstd::prelude::*;

use crate::bytecode::constant_equality;
use crate::bytecode::reader::i16_of_bytes;
use crate::bytecode::reader::u16_of_bytes;
use crate::bytecode::Bytecode;
use crate::bytecode::Constant;
use crate::bytecode::ConstantIndex;
use crate::bytecode::ConstantView;
use crate::bytecode::OperationCode;
use crate::bytecode::CONSTANTS_CAPACITY;
use crate::fault::Fault;
use crate::host::Operation;
use crate::value::Equality;

verus! {

/// The little-endian encoding of an unsigned 16-bit integer: low byte first.
pub open spec fn bytes_of_u16(value: u16) -> Seq<u8> {
    seq![(value % 256) as u8, (value / 256) as u8]
}

/// The little-endian two's-complement encoding of a signed 16-bit integer.
pub open spec fn bytes_of_i16(value: i16) -> Seq<u8> {
    if value < 0 {
        seq![((value + 65536) % 256) as u8, ((value + 65536) / 256) as u8]
    } else {
        seq![(value % 256) as u8, (value / 256) as u8]
    }
}

/// Decoding the bytes that encode an integer gives the integer back.
pub proof fn encoding_round_trip(unsigned: u16, signed: i16)
    ensures
        u16_of_bytes(bytes_of_u16(unsigned)[0], bytes_of_u16(unsigned)[1]) == unsigned,
        i16_of_bytes(bytes_of_i16(signed)[0], bytes_of_i16(signed)[1]) == signed,
{
}

/// Calls `byteorder::ByteOrder::write_u16` of `byteorder::LittleEndian` on a
/// buffer of two bytes and hands the two bytes out: the low byte of `value`,
/// then the high one.
#[verifier::external_body]
fn write_u16(value: u16) -> (bytes: (u8, u8))
    ensures
        seq![bytes.0, bytes.1] == bytes_of_u16(value),
{
    let mut buffer = [0u8; 2];
    <byteorder::LittleEndian as byteorder::ByteOrder>::write_u16(&mut buffer, value);
    (buffer[0], buffer[1])
}

/// Calls `byteorder::ByteOrder::write_i16` of `byteorder::LittleEndian` on a
/// buffer of two bytes and hands the two bytes out: the low byte of the
/// two's-complement form of `value`, then the high one.
#[verifier::external_body]
fn write_i16(value: i16) -> (bytes: (u8, u8))
    ensures
        seq![bytes.0, bytes.1] == bytes_of_i16(value),
{
    let mut buffer = [0u8; 2];
    <byteorder::LittleEndian as byteorder::ByteOrder>::write_i16(&mut buffer, value);
    (buffer[0], buffer[1])
}

/// Where a search of the pool for a constant ends.
pub enum Search {
    /// The entry at this index equals the constant.
    Found(int),
    /// The entry at this index and the constant are both numbers, and whether
    /// they are equal is not known.
    Open(int),
    /// No entry from the start of the search on equals the constant.
    Absent,
}

/// The search of `pool` for an entry equal to `constant`, from index `from` on.
///
/// Strings are equal when their texts are. Whether two numbers are equal is
/// for the host to say: `verdict` is what it said of the entry at `from`, if
/// it was asked. The search stops at the first entry that is equal, or at the
/// first number of which nothing was said.
pub open spec fn search(
    pool: Seq<ConstantView>,
    constant: ConstantView,
    from: int,
    verdict: Option<bool>,
) -> Search
    decreases pool.len() - from,
{
    if from < 0 || from >= pool.len() {
        Search::Absent
    } else {
        match (constant_equality(pool[from], constant), verdict) {
            (Equality::Known(true), _) => Search::Found(from),
            (Equality::Known(false), _) => search(pool, constant, from + 1, None),
            (Equality::Ask(_), None) => Search::Open(from),
            (Equality::Ask(_), Some(true)) => Search::Found(from),
            (Equality::Ask(_), Some(false)) => search(pool, constant, from + 1, None),
        }
    }
}

/// The search for a string ends at the first entry that holds its text, and
/// finds nothing exactly where no entry from the start of the search on
/// holds it. The host is never asked.
pub proof fn search_finds_strings(
    pool: Seq<ConstantView>,
    text: Seq<char>,
    from: int,
    verdict: Option<bool>,
)
    requires
        0 <= from,
    ensures
        match search(pool, ConstantView::String(text), from, verdict) {
            Search::Found(index) => from <= index < pool.len() && pool[index]
                == ConstantView::String(text) && forall|i: int|
                from <= i < index ==> pool[i] != ConstantView::String(text),
            Search::Open(_) => false,
            Search::Absent => forall|i: int|
                from <= i < pool.len() ==> pool[i] != ConstantView::String(text),
        },
    decreases pool.len() - from,
{
    if from < pool.len() {
        search_finds_strings(pool, text, from + 1, None);
    }
}

/// Where the search ends at an entry, that entry lies in the pool, at or
/// behind the start of the search; where the host is asked, the entry and
/// the constant are both numbers.
pub proof fn search_stays_in_the_pool(
    pool: Seq<ConstantView>,
    constant: ConstantView,
    from: int,
    verdict: Option<bool>,
)
    requires
        0 <= from,
    ensures
        match search(pool, constant, from, verdict) {
            Search::Found(index) => from <= index < pool.len(),
            Search::Open(index) => from <= index < pool.len() && pool[index] is Number
                && constant is Number,
            Search::Absent => true,
        },
    decreases pool.len() - from,
{
    if from < pool.len() {
        search_stays_in_the_pool(pool, constant, from + 1, None);
    }
}

/// What came of defining a constant.
#[derive(Clone, Copy, Debug, PartialEq, Eq, Structural)]
pub enum Definition {
    /// The constant stands in the pool at this index.
    Defined(ConstantIndex),
    /// The constant is a number, and so is the entry at index `at`. Whether
    /// the two are equal is the host's to say, by carrying out `operation`;
    /// the definition goes on with `define_after`.
    Undecided { at: ConstantIndex, operation: Operation },
}

/// A builder of [`Bytecode`].
///
/// Operation codes and operands are appended with `emit`, which takes care
/// of their width and byte order; constants are put into the pool with
/// `define`.
pub struct BytecodeWriter {
    bytecode: Bytecode,
}

impl BytecodeWriter {
    /// The code written so far.
    pub closed spec fn code(&self) -> Seq<u8> {
        self.bytecode.code@
    }

    /// The pool of constants as it stands.
    pub closed spec fn pool(&self) -> Seq<ConstantView> {
        self.bytecode.pool()
    }

    /// The index of every constant in the pool fits a [`ConstantIndex`].
    pub open spec fn wf(&self) -> bool {
        self.pool().len() <= CONSTANTS_CAPACITY
    }

    /// Create a writer that goes on from `bytecode`.
    pub fn new(bytecode: Bytecode) -> (writer: Self)
        requires
            bytecode.constants@.len() <= CONSTANTS_CAPACITY,
        ensures
            writer.wf(),
            writer.code() == bytecode.code@,
            writer.pool() == bytecode.pool(),
    {
        BytecodeWriter { bytecode }
    }

    /// The bytecode that was written.
    pub fn finish(self) -> (bytecode: Bytecode)
        ensures
            bytecode.code@ == self.code(),
            bytecode.pool() == self.pool(),
    {
        self.bytecode
    }

    /// What `define` and `define_after` do, given where the search ended.
    pub open spec fn defined(
        pool: Seq<ConstantView>,
        constant: ConstantView,
        found: Search,
    ) -> (Seq<ConstantView>, Result<Definition, Fault>) {
        match found {
            Search::Found(index) => (pool, Ok(Definition::Defined(index as u16))),
            Search::Open(index) => (
                pool,
                Ok(
                    Definition::Undecided {
                        at: index as u16,
                        operation: constant_equality(pool[index], constant)->Ask_0,
                    },
                ),
            ),
            Search::Absent => if pool.len() >= CONSTANTS_CAPACITY {
                (pool, Err(Fault::TooManyConstants))
            } else {
                (pool.push(constant), Ok(Definition::Defined(pool.len() as u16)))
            },
        }
    }

    /// Define a constant: find its index in the pool, and append it where the
    /// pool holds no equal entry.
    ///
    /// A string is found by its text. For a number the search stops at the
    /// first number in the pool and asks the host whether the two are equal;
    /// `define_after` takes the answer. Appending to a pool of 65,536
    /// constants is a fault.
    pub fn define(&mut self, constant: Constant) -> (definition: Result<Definition, Fault>)
        requires
            old(self).wf(),
        ensures
            final(self).wf(),
            final(self).code() == old(self).code(),
            (final(self).pool(), definition) == Self::defined(
                old(self).pool(),
                constant@,
                search(old(self).pool(), constant@, 0, None),
            ),
    {
        self.define_from(constant, 0, None)
    }

    /// Go on defining a number after the host has said whether it equals the
    /// entry at index `at`: `equal` is its verdict.
    pub fn define_after(&mut self, constant: Constant, at: ConstantIndex, equal: bool) -> (definition:
        Result<Definition, Fault>)
        requires
            old(self).wf(),
        ensures
            final(self).wf(),
            final(self).code() == old(self).code(),
            (final(self).pool(), definition) == Self::defined(
                old(self).pool(),
                constant@,
                search(old(self).pool(), constant@, at as int, Some(equal)),
            ),
    {
        self.define_from(constant, at as usize, Some(equal))
    }

    fn define_from(&mut self, constant: Constant, from: usize, verdict: Option<bool>) -> (definition:
        Result<Definition, Fault>)
        requires
            old(self).wf(),
        ensures
            final(self).wf(),
            final(self).code() == old(self).code(),
            (final(self).pool(), definition) == Self::defined(
                old(self).pool(),
                constant@,
                search(old(self).pool(), constant@, from as int, verdict),
            ),
    {
        let ghost pool = self.pool();
        let mut index: usize = from;
        let mut said: Option<bool> = verdict;
        while index < self.bytecode.constants.len()
            invariant
                self.pool() == pool,
                self.code() == old(self).code(),
                pool.len() <= CONSTANTS_CAPACITY,
                from <= index,
                search(pool, constant@, index as int, said) == search(
                    pool,
                    constant@,
                    from as int,
                    verdict,
                ),
            decreases self.bytecode.constants.len() - index,
        {
            assert(pool[index as int] == self.bytecode.constants@[index as int]@);
            match (self.bytecode.constants[index].equals(&constant), said) {
                (Equality::Known(true), _) | (Equality::Ask(_), Some(true)) => {
                    return Ok(Definition::Defined(index as u16));
                },
                (Equality::Ask(operation), None) => {
                    return Ok(Definition::Undecided { at: index as u16, operation });
                },
                _ => {},
            }
            said = None;
            index = index + 1;
        }
        if self.bytecode.constants.len() >= CONSTANTS_CAPACITY {
            return Err(Fault::TooManyConstants);
        }
        let position = self.bytecode.constants.len();
        self.bytecode.constants.push(constant);
        assert(self.pool() =~= pool.push(constant@));
        Ok(Definition::Defined(position as u16))
    }
}

/// Defining a string gives an index at which the pool then holds that
/// string, and defining it once more gives the same index and leaves the
/// pool as it is.
pub proof fn defining_a_string_twice_gives_one_index(pool: Seq<ConstantView>, text: Seq<char>)
    requires
        pool.len() < CONSTANTS_CAPACITY,
    ensures
        ({
            let constant = ConstantView::String(text);
            let first = BytecodeWriter::defined(pool, constant, search(pool, constant, 0, None));
            let second = BytecodeWriter::defined(
                first.0,
                constant,
                search(first.0, constant, 0, None),
            );
            &&& first.1 is Ok
            &&& first.1->Ok_0 is Defined
            &&& first.1->Ok_0->Defined_0 < first.0.len()
            &&& first.0[first.1->Ok_0->Defined_0 as int] == constant
            &&& second == first
        }),
{
    let constant = ConstantView::String(text);
    search_finds_strings(pool, text, 0, None);
    let first = BytecodeWriter::defined(pool, constant, search(pool, constant, 0, None));
    search_finds_strings(first.0, text, 0, None);
}

/// A number that the search found in no entry is appended, and the pool
/// then holds that number at the index given. Where the host then finds the
/// number equal to itself, a search from that index on ends there and leaves
/// the pool as it is.
pub proof fn defining_a_new_number_appends_it(pool: Seq<ConstantView>, bits: u64)
    requires
        pool.len() < CONSTANTS_CAPACITY,
    ensures
        ({
            let constant = ConstantView::Number(bits);
            let first = BytecodeWriter::defined(pool, constant, Search::Absent);
            &&& first.0 == pool.push(constant)
            &&& first.1 == Ok::<Definition, Fault>(Definition::Defined(pool.len() as u16))
            &&& BytecodeWriter::defined(
                first.0,
                constant,
                search(first.0, constant, pool.len() as int, Some(true)),
            ) == first
        }),
{
}

/// Defining a constant that equals no entry of a pool of 65,536 constants
/// is a fault, and leaves the pool as it is.
pub proof fn full_pool_takes_no_new_constant(pool: Seq<ConstantView>, constant: ConstantView)
    requires
        pool.len() == CONSTANTS_CAPACITY,
    ensures
        BytecodeWriter::defined(pool, constant, Search::Absent) == (
            pool,
            Err::<Definition, Fault>(Fault::TooManyConstants),
        ),
        constant is String && (forall|i: int| 0 <= i < pool.len() ==> pool[i] != constant)
            ==> BytecodeWriter::defined(pool, constant, search(pool, constant, 0, None)) == (
            pool,
            Err::<Definition, Fault>(Fault::TooManyConstants),
        ),
{
    if constant is String {
        search_finds_strings(pool, constant->String_0, 0, None);
    }
}

/// Appending one item of type `T` to the code.
///
/// The writer implements it for operation codes and for each operand type,
/// so that a caller hands over the value and leaves the width and the byte
/// order to the writer.
pub trait Emit<T> {
    /// The code written so far.
    spec fn written(&self) -> Seq<u8>;

    /// The pool of constants as it stands.
    spec fn kept(&self) -> Seq<ConstantView>;

    /// The bytes that stand for `value` in code.
    spec fn encoding(value: T) -> Seq<u8>;

    /// Append the encoding of `value` to the code.
    fn emit(&mut self, value: T)
        ensures
            final(self).written() == old(self).written() + Self::encoding(value),
            final(self).kept() == old(self).kept(),
    ;
}

impl Emit<OperationCode> for BytecodeWriter {
    open spec fn written(&self) -> Seq<u8> {
        self.code()
    }

    open spec fn kept(&self) -> Seq<ConstantView> {
        self.pool()
    }

    /// An operation code is encoded as its one byte.
    open spec fn encoding(value: OperationCode) -> Seq<u8> {
        seq![value.byte()]
    }

    fn emit(&mut self, value: OperationCode) {
        self.bytecode.code.push(value.to_byte());
        assert(self.code() =~= old(self).code() + seq![value.byte()]);
    }
}

impl Emit<u8> for BytecodeWriter {
    open spec fn written(&self) -> Seq<u8> {
        self.code()
    }

    open spec fn kept(&self) -> Seq<ConstantView> {
        self.pool()
    }

    /// A byte is encoded as itself.
    open spec fn encoding(value: u8) -> Seq<u8> {
        seq![value]
    }

    fn emit(&mut self, value: u8) {
        self.bytecode.code.push(value);
        assert(self.code() =~= old(self).code() + seq![value]);
    }
}

impl Emit<u16> for BytecodeWriter {
    open spec fn written(&self) -> Seq<u8> {
        self.code()
    }

    open spec fn kept(&self) -> Seq<ConstantView> {
        self.pool()
    }

    /// An unsigned 16-bit integer is encoded in two bytes, low byte first.
    open spec fn encoding(value: u16) -> Seq<u8> {
        bytes_of_u16(value)
    }

    fn emit(&mut self, value: u16) {
        let bytes = write_u16(value);
        self.bytecode.code.push(bytes.0);
        self.bytecode.code.push(bytes.1);
        assert(seq![bytes.0, bytes.1][0] == bytes.0 && seq![bytes.0, bytes.1][1] == bytes.1);
        assert(self.code() =~= old(self).code() + bytes_of_u16(value));
    }
}

impl Emit<i16> for BytecodeWriter {
    open spec fn written(&self) -> Seq<u8> {
        self.code()
    }

    open spec fn kept(&self) -> Seq<ConstantView> {
        self.pool()
    }

    /// A signed 16-bit integer is encoded in two bytes in two's complement,
    /// low byte first.
    open spec fn encoding(value: i16) -> Seq<u8> {
        bytes_of_i16(value)
    }

    fn emit(&mut self, value: i16) {
        let bytes = write_i16(value);
        self.bytecode.code.push(bytes.0);
        self.bytecode.code.push(bytes.1);
        assert(seq![bytes.0, bytes.1][0] == bytes.0 && seq![bytes.0, bytes.1][1] == bytes.1);
        assert(self.code() =~= old(self).code() + bytes_of_i16(value));
    }
}

} // verus!
