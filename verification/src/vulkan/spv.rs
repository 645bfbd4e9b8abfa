use vstd::prelude::*;

verus! {

/// The SPIR-V magic number, as the first word of every valid module.
pub const SPV_MAGIC: u32 = 0x0723_0203;

/// The SPIR-V magic number with its bytes reversed, as it appears when the
/// module was written on a machine of the other endianness.
pub const SPV_MAGIC_REV: u32 = 0x0302_2307;

/// Why a byte buffer is not a SPIR-V module.
#[derive(Debug, Clone, Copy, PartialEq, Eq, Structural)]
pub enum SpvError {
    /// The length is zero or not a multiple of four bytes.
    BadLength,
    /// The first word is not the SPIR-V magic number in either byte order.
    BadMagic,
}

/// Word `i` of the buffer read in little-endian byte order.
pub open spec fn spec_word_le(bytes: Seq<u8>, i: int) -> int {
    bytes[4 * i] + 256 * (bytes[4 * i + 1] + 256 * (bytes[4 * i + 2] + 256 * bytes[4 * i + 3]))
}

/// Word `i` of the buffer read in big-endian byte order.
pub open spec fn spec_word_be(bytes: Seq<u8>, i: int) -> int {
    bytes[4 * i + 3] + 256 * (bytes[4 * i + 2] + 256 * (bytes[4 * i + 1] + 256 * bytes[4 * i]))
}

/// Decodes a SPIR-V binary into its words.
///
/// The buffer must be a non-empty whole number of four-byte words and begin
/// with the SPIR-V magic number; a module written in the opposite byte order
/// is recognized by the byte-reversed magic number and decoded accordingly.
pub fn words_from_bytes(bytes: &Vec<u8>) -> (r: Result<Vec<u32>, SpvError>)
    ensures
        r is Err ==> ((r.unwrap_err() == SpvError::BadLength) <==> (bytes@.len() == 0
            || bytes@.len() % 4 != 0)),
        r is Ok ==> bytes@.len() > 0 && bytes@.len() % 4 == 0,
        r is Ok ==> r.unwrap()@.len() == bytes@.len() / 4,
        r is Ok ==> r.unwrap()@[0] == SPV_MAGIC,
        r is Ok && spec_word_le(bytes@, 0) == SPV_MAGIC ==> forall|i: int|
            0 <= i < r.unwrap()@.len() ==> #[trigger] r.unwrap()@[i] == spec_word_le(bytes@, i),
        r is Ok && spec_word_le(bytes@, 0) != SPV_MAGIC ==> spec_word_le(bytes@, 0)
            == SPV_MAGIC_REV && (forall|i: int|
            0 <= i < r.unwrap()@.len() ==> #[trigger] r.unwrap()@[i] == spec_word_be(bytes@, i)),
        bytes@.len() > 0 && bytes@.len() % 4 == 0 && (spec_word_le(bytes@, 0) == SPV_MAGIC
            || spec_word_le(bytes@, 0) == SPV_MAGIC_REV) ==> r is Ok,
        bytes@.len() > 0 && bytes@.len() % 4 == 0 && spec_word_le(bytes@, 0) != SPV_MAGIC
            && spec_word_le(bytes@, 0) != SPV_MAGIC_REV ==> r == Result::<Vec<u32>, SpvError>::Err(
            SpvError::BadMagic,
        ),
{
    let n = bytes.len();
    if n == 0 || n % 4 != 0 {
        return Err(SpvError::BadLength);
    }
    let first = word_le(bytes, 0);
    if first == SPV_MAGIC {
        let mut words: Vec<u32> = Vec::new();
        let count = n / 4;
        let mut i: usize = 0;
        while i < count
            invariant
                i <= count,
                count == bytes@.len() / 4,
                bytes@.len() % 4 == 0,
                words@.len() == i,
                forall|k: int| 0 <= k < i ==> #[trigger] words@[k] == spec_word_le(bytes@, k),
            decreases count - i,
        {
            let w = word_le(bytes, i);
            words.push(w);
            i = i + 1;
        }
        Ok(words)
    } else if first == SPV_MAGIC_REV {
        proof {
            assert(bytes@[0] == 0x07);
            assert(bytes@[1] == 0x23);
            assert(bytes@[2] == 0x02);
            assert(bytes@[3] == 0x03);
        }
        let mut words: Vec<u32> = Vec::new();
        let count = n / 4;
        let mut i: usize = 0;
        while i < count
            invariant
                i <= count,
                count == bytes@.len() / 4,
                bytes@.len() % 4 == 0,
                spec_word_be(bytes@, 0) == SPV_MAGIC,
                words@.len() == i,
                forall|k: int| 0 <= k < i ==> #[trigger] words@[k] == spec_word_be(bytes@, k),
            decreases count - i,
        {
            let w = word_be(bytes, i);
            words.push(w);
            i = i + 1;
        }
        Ok(words)
    } else {
        Err(SpvError::BadMagic)
    }
}

/// Reads word `i` in little-endian byte order.
fn word_le(bytes: &Vec<u8>, i: usize) -> (w: u32)
    requires
        bytes@.len() % 4 == 0,
        i < bytes@.len() / 4,
    ensures
        w == spec_word_le(bytes@, i as int),
{
    let n = bytes.len();
    proof {
        assert(4 * (n as int / 4) == n as int);
        assert(4 * (i as int) + 3 < n as int);
    }
    let b0 = bytes[4 * i] as u32;
    let b1 = bytes[4 * i + 1] as u32;
    let b2 = bytes[4 * i + 2] as u32;
    let b3 = bytes[4 * i + 3] as u32;
    b0 + 256 * (b1 + 256 * (b2 + 256 * b3))
}

/// Reads word `i` in big-endian byte order.
fn word_be(bytes: &Vec<u8>, i: usize) -> (w: u32)
    requires
        bytes@.len() % 4 == 0,
        i < bytes@.len() / 4,
    ensures
        w == spec_word_be(bytes@, i as int),
{
    let n = bytes.len();
    proof {
        assert(4 * (n as int / 4) == n as int);
        assert(4 * (i as int) + 3 < n as int);
    }
    let b0 = bytes[4 * i] as u32;
    let b1 = bytes[4 * i + 1] as u32;
    let b2 = bytes[4 * i + 2] as u32;
    let b3 = bytes[4 * i + 3] as u32;
    b3 + 256 * (b2 + 256 * (b1 + 256 * b0))
}

} // verus!
