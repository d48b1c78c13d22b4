use crate::text::push_char;
use vstd::prelude::*;

verus! {

/// `blake3::Hasher`: a hash under way. Nothing is known of what is inside it but what
/// `hashed` names.
#[verifier::external_type_specification]
#[verifier::external_body]
pub struct ExHasher(blake3::Hasher);

/// The BLAKE3 hash of `input`.
pub uninterp spec fn blake3_hash(input: Seq<u8>) -> Seq<u8>;

/// The bytes that a hasher has taken in so far.
pub uninterp spec fn hashed(hasher: blake3::Hasher) -> Seq<u8>;

/// `blake3::Hasher::new`: a hasher that has taken in nothing yet.
#[verifier::external_body]
fn hasher_new() -> (hasher: blake3::Hasher)
    ensures
        hashed(hasher) == Seq::<u8>::empty(),
{
    blake3::Hasher::new()
}

/// `blake3::Hasher::update`: the hasher takes in `chunk` after what it already has.
#[verifier::external_body]
fn hasher_update(hasher: &mut blake3::Hasher, chunk: &[u8])
    ensures
        hashed(*final(hasher)) == hashed(*old(hasher)) + chunk@,
{
    hasher.update(chunk);
}

/// `blake3::Hasher::finalize`: the hash of all that the hasher has taken in, however it
/// came in pieces.
#[verifier::external_body]
fn hasher_finalize(hasher: &blake3::Hasher) -> (hash: Vec<u8>)
    ensures
        hash@ == blake3_hash(hashed(*hasher)),
{
    hasher.finalize().as_bytes().to_vec()
}

/// The hexadecimal digit for `n`, in lower case.
pub open spec fn hex_digit(n: u8) -> char {
    if n < 10 {
        ((48 + n) as u8) as char
    } else {
        ((87 + n) as u8) as char
    }
}

/// The bytes in hexadecimal, two digits for each.
pub open spec fn hex(bytes: Seq<u8>) -> Seq<char>
    decreases bytes.len(),
{
    if bytes.len() == 0 {
        Seq::empty()
    } else {
        hex(bytes.drop_last()) + seq![hex_digit(bytes.last() / 16), hex_digit(bytes.last() % 16)]
    }
}

/// The checksum of a file that holds `input`: its BLAKE3 hash in hexadecimal.
pub open spec fn blake3_hex(input: Seq<u8>) -> Seq<char> {
    hex(blake3_hash(input))
}

/// The hexadecimal digit for `n`.
fn to_hex_digit(n: u8) -> (digit: char)
    requires
        n < 16,
    ensures
        digit == hex_digit(n),
{
    if n < 10 {
        (48 + n) as char
    } else {
        (87 + n) as char
    }
}

/// The bytes in hexadecimal.
pub fn to_hex(bytes: &[u8]) -> (text: String)
    ensures
        text@ == hex(bytes@),
{
    let mut text = String::new();
    let mut at: usize = 0;
    assert(bytes@.take(0) =~= Seq::<u8>::empty());
    while at < bytes.len()
        invariant
            at <= bytes@.len(),
            text@ == hex(bytes@.take(at as int)),
        decreases bytes@.len() - at,
    {
        let byte = bytes[at];
        push_char(&mut text, to_hex_digit(byte / 16));
        push_char(&mut text, to_hex_digit(byte % 16));
        proof {
            let taken = bytes@.take(at + 1);
            assert(taken.drop_last() =~= bytes@.take(at as int));
            assert(taken.last() == byte);
            assert(text@ =~= hex(taken));
        }
        at += 1;
    }
    assert(bytes@.take(at as int) =~= bytes@);
    text
}

/// The checksum that a hasher has come to.
fn hasher_hex(hasher: &blake3::Hasher) -> (text: String)
    ensures
        text@ == blake3_hex(hashed(*hasher)),
{
    let hash = hasher_finalize(hasher);
    to_hex(hash.as_slice())
}

/// The size of the buffer that a file is read through.
pub const BUFFER_SIZE: usize = 65536;

/// What one read of a file gave.
pub enum Chunk<'a> {
    /// The bytes that were read; none at the end of the file.
    Bytes(&'a [u8]),
    /// The read was interrupted before it gave anything.
    Interrupted,
    /// The read failed.
    Failed(std::io::Error),
}

/// What is to be done after a read.
pub enum Progress {
    /// Read again.
    More,
    /// The file is at its end; this is its checksum.
    Done(String),
    /// Give up with this error.
    Failed(std::io::Error),
}

/// The checksum of a file that is read piece by piece.
pub struct Checksum {
    hasher: blake3::Hasher,
}

impl Checksum {
    /// The bytes that were taken in so far.
    pub closed spec fn taken(&self) -> Seq<u8> {
        hashed(self.hasher)
    }

    /// A checksum that has taken in nothing yet.
    pub fn new() -> (sum: Self)
        ensures
            sum.taken() == Seq::<u8>::empty(),
    {
        Checksum { hasher: hasher_new() }
    }

    /// Takes in what one read gave. Bytes are added to what was taken in before, and
    /// another read is asked for; so it is after an interrupted read, which adds nothing.
    /// A read that gave no bytes is the end of the file, and a failed read ends it all.
    pub fn take(&mut self, chunk: Chunk) -> (progress: Progress)
        ensures
            match chunk {
                Chunk::Bytes(bytes) => if bytes@.len() == 0 {
                    &&& final(self).taken() == old(self).taken()
                    &&& progress matches Progress::Done(hex)
                    &&& hex@ == blake3_hex(old(self).taken())
                } else {
                    &&& final(self).taken() == old(self).taken() + bytes@
                    &&& progress is More
                },
                Chunk::Interrupted => final(self).taken() == old(self).taken() && progress is More,
                Chunk::Failed(error) => final(self).taken() == old(self).taken() && progress
                    == Progress::Failed(error),
            },
    {
        match chunk {
            Chunk::Bytes(bytes) => {
                if bytes.len() == 0 {
                    Progress::Done(hasher_hex(&self.hasher))
                } else {
                    hasher_update(&mut self.hasher, bytes);
                    Progress::More
                }
            },
            Chunk::Interrupted => Progress::More,
            Chunk::Failed(error) => Progress::Failed(error),
        }
    }
}

/// The checksum of `bytes`: the one that a file with this content has.
pub fn checksum(bytes: &[u8]) -> (hex: String)
    ensures
        hex@ == blake3_hex(bytes@),
{
    let mut hasher = hasher_new();
    hasher_update(&mut hasher, bytes);
    assert(Seq::<u8>::empty() + bytes@ =~= bytes@);
    hasher_hex(&hasher)
}

} // verus!
