//! Digest selection, image measurement and the register-extend primitive.
//!
//! A run selects one hash algorithm out of a closed set of three; every
//! digest handled during that run — recorded, recomputed or accumulated —
//! has that algorithm's fixed output size.  The register state is a byte
//! buffer updated only by `measure`, which models the one-way TPM extend
//! operation `new = Hash(old || input)`.

use vstd::prelude::*;
use vstd::slice::slice_to_vec;

verus! {

/// Address width of the measured EFI executables.
#[derive(Clone, Copy, PartialEq, Eq, Structural, Debug)]
pub enum Bits {
    _64,
    _32,
}

/// The hash algorithm selected for a run.
#[derive(Clone, Copy, PartialEq, Eq, Structural, Debug)]
pub enum Hash {
    Sha1,
    Sha256,
    Sha512,
}

/// The fixed digest size of each supported algorithm, in bytes.
pub open spec fn spec_output_size(alg: Hash) -> int {
    match alg {
        Hash::Sha1 => 20,
        Hash::Sha256 => 32,
        Hash::Sha512 => 64,
    }
}

/// The SHA-1 digest of a byte sequence, named but not stated: the outside
/// implementation is relied on for its value.
pub uninterp spec fn sha1_of(data: Seq<u8>) -> Seq<u8>;

/// The SHA-256 digest of a byte sequence.
pub uninterp spec fn sha256_of(data: Seq<u8>) -> Seq<u8>;

/// The SHA-512 digest of a byte sequence.
pub uninterp spec fn sha512_of(data: Seq<u8>) -> Seq<u8>;

/// The digest of a byte sequence under the selected algorithm.
pub open spec fn spec_digest(alg: Hash, data: Seq<u8>) -> Seq<u8> {
    match alg {
        Hash::Sha1 => sha1_of(data),
        Hash::Sha256 => sha256_of(data),
        Hash::Sha512 => sha512_of(data),
    }
}

/// Relies on sha1::Sha1 through digest::Digest::digest: the SHA-1 digest
/// of the input bytes, a function of those bytes alone, 20 bytes long.
#[verifier::external_body]
fn sha1_digest(data: &[u8]) -> (r: Vec<u8>)
    ensures
        r@ == sha1_of(data@),
        r@.len() == 20,
{
    <sha1::Sha1 as sha1::Digest>::digest(data).to_vec()
}

/// Relies on sha2::Sha256 through digest::Digest::digest: the SHA-256
/// digest of the input bytes, a function of those bytes alone, 32 bytes long.
#[verifier::external_body]
fn sha256_digest(data: &[u8]) -> (r: Vec<u8>)
    ensures
        r@ == sha256_of(data@),
        r@.len() == 32,
{
    <sha2::Sha256 as sha2::Digest>::digest(data).to_vec()
}

/// Relies on sha2::Sha512 through digest::Digest::digest: the SHA-512
/// digest of the input bytes, a function of those bytes alone, 64 bytes long.
#[verifier::external_body]
fn sha512_digest(data: &[u8]) -> (r: Vec<u8>)
    ensures
        r@ == sha512_of(data@),
        r@.len() == 64,
{
    <sha2::Sha512 as sha2::Digest>::digest(data).to_vec()
}

/// A hash accumulator for one run: the selected algorithm together with
/// the bytes streamed into it so far.  Finalizing hands the whole stream
/// to the selected outside implementation in one call, which that
/// implementation documents to equal incremental updating.
pub struct Hasher {
    pub alg: Hash,
    pub buf: Vec<u8>,
}

impl Hasher {
    /// A fresh accumulator for the given algorithm, with nothing streamed yet.
    pub fn new(alg: Hash) -> (r: Hasher)
        ensures
            r.alg == alg,
            r.buf@ == Seq::<u8>::empty(),
    {
        Hasher { alg, buf: Vec::new() }
    }

    /// Stream more bytes into the accumulator.
    pub fn update(&mut self, data: &[u8])
        ensures
            final(self).alg == old(self).alg,
            final(self).buf@ == old(self).buf@ + data@,
    {
        let mut v = slice_to_vec(data);
        self.buf.append(&mut v);
    }

    /// The digest of everything streamed so far, with the algorithm's
    /// fixed output size.
    pub fn finalize(self) -> (r: Vec<u8>)
        ensures
            r@ == spec_digest(self.alg, self.buf@),
            r@.len() == spec_output_size(self.alg),
    {
        match self.alg {
            Hash::Sha1 => sha1_digest(self.buf.as_slice()),
            Hash::Sha256 => sha256_digest(self.buf.as_slice()),
            Hash::Sha512 => sha512_digest(self.buf.as_slice()),
        }
    }

    /// The fixed digest size of the selected algorithm, in bytes.
    pub fn output_size(&self) -> (r: usize)
        ensures
            r == spec_output_size(self.alg),
    {
        match self.alg {
            Hash::Sha1 => 20,
            Hash::Sha256 => 32,
            Hash::Sha512 => 64,
        }
    }
}

/// The register-extend primitive: fold a digest into a running state.
pub trait MeasureInPlace: View<V = Seq<u8>> {
    /// Replace the state with the digest of the accumulator's stream,
    /// followed by the old state, followed by the input.  With a fresh
    /// accumulator this is exactly `Hash(old_state || data)`, and the new
    /// state always has the algorithm's fixed output size.
    fn measure(&mut self, data: &[u8], hasher: Hasher)
        ensures
            final(self)@ == spec_digest(hasher.alg, hasher.buf@ + old(self)@ + data@),
            final(self)@.len() == spec_output_size(hasher.alg);
}

impl MeasureInPlace for Vec<u8> {
    fn measure(&mut self, data: &[u8], hasher: Hasher)
        ensures
            final(self)@ == spec_digest(hasher.alg, hasher.buf@ + old(self)@ + data@),
            final(self)@.len() == spec_output_size(hasher.alg),
    {
        let mut h = hasher;
        h.update(self.as_slice());
        h.update(data);
        let mut digest = h.finalize();
        self.clear();
        self.append(&mut digest);
    }
}

/// The canonical Authenticode byte stream of a 64-bit PE image: the image
/// without its checksum field and certificate-table region, or nothing if
/// the bytes do not parse as such an image or its offsets are inconsistent.
pub uninterp spec fn pe_measured_bytes_64(img: Seq<u8>) -> Option<Seq<u8>>;

/// The canonical Authenticode byte stream of a 32-bit PE image.
pub uninterp spec fn pe_measured_bytes_32(img: Seq<u8>) -> Option<Seq<u8>>;

/// Relies on object::read::pe::PeFile::parse and
/// authenticode::authenticode_digest: the bytes are parsed as a 64-bit PE
/// image and the canonical measured bytes are streamed into a SHA-1
/// accumulator.  Both the parse outcome and the streamed bytes are
/// functions of the input bytes alone.
#[verifier::external_body]
fn authenticode_sha1_64(data: &[u8]) -> (r: Option<Vec<u8>>)
    ensures
        r is Some <==> pe_measured_bytes_64(data@) is Some,
        r matches Some(d) ==> pe_measured_bytes_64(data@) matches Some(m) && d@ == sha1_of(m)
            && d@.len() == 20,
{
    let pe = match object::read::pe::PeFile::<object::pe::ImageNtHeaders64>::parse(data) {
        Ok(pe) => pe,
        Err(_) => return None,
    };
    let mut h = <sha1::Sha1 as sha1::Digest>::new();
    match authenticode::authenticode_digest(&pe, &mut h) {
        Ok(()) => Some(<sha1::Sha1 as sha1::Digest>::finalize(h).to_vec()),
        Err(_) => None,
    }
}

/// Relies on object::read::pe::PeFile::parse and
/// authenticode::authenticode_digest, as the 64-bit SHA-1 variant does,
/// with a SHA-256 accumulator.
#[verifier::external_body]
fn authenticode_sha256_64(data: &[u8]) -> (r: Option<Vec<u8>>)
    ensures
        r is Some <==> pe_measured_bytes_64(data@) is Some,
        r matches Some(d) ==> pe_measured_bytes_64(data@) matches Some(m) && d@ == sha256_of(m)
            && d@.len() == 32,
{
    let pe = match object::read::pe::PeFile::<object::pe::ImageNtHeaders64>::parse(data) {
        Ok(pe) => pe,
        Err(_) => return None,
    };
    let mut h = <sha2::Sha256 as sha2::Digest>::new();
    match authenticode::authenticode_digest(&pe, &mut h) {
        Ok(()) => Some(<sha2::Sha256 as sha2::Digest>::finalize(h).to_vec()),
        Err(_) => None,
    }
}

/// Relies on object::read::pe::PeFile::parse and
/// authenticode::authenticode_digest, as the 64-bit SHA-1 variant does,
/// with a SHA-512 accumulator.
#[verifier::external_body]
fn authenticode_sha512_64(data: &[u8]) -> (r: Option<Vec<u8>>)
    ensures
        r is Some <==> pe_measured_bytes_64(data@) is Some,
        r matches Some(d) ==> pe_measured_bytes_64(data@) matches Some(m) && d@ == sha512_of(m)
            && d@.len() == 64,
{
    let pe = match object::read::pe::PeFile::<object::pe::ImageNtHeaders64>::parse(data) {
        Ok(pe) => pe,
        Err(_) => return None,
    };
    let mut h = <sha2::Sha512 as sha2::Digest>::new();
    match authenticode::authenticode_digest(&pe, &mut h) {
        Ok(()) => Some(<sha2::Sha512 as sha2::Digest>::finalize(h).to_vec()),
        Err(_) => None,
    }
}

/// Relies on object::read::pe::PeFile::parse and
/// authenticode::authenticode_digest: as the 64-bit variants do, for a
/// 32-bit PE image, with a SHA-1 accumulator.
#[verifier::external_body]
fn authenticode_sha1_32(data: &[u8]) -> (r: Option<Vec<u8>>)
    ensures
        r is Some <==> pe_measured_bytes_32(data@) is Some,
        r matches Some(d) ==> pe_measured_bytes_32(data@) matches Some(m) && d@ == sha1_of(m)
            && d@.len() == 20,
{
    let pe = match object::read::pe::PeFile::<object::pe::ImageNtHeaders32>::parse(data) {
        Ok(pe) => pe,
        Err(_) => return None,
    };
    let mut h = <sha1::Sha1 as sha1::Digest>::new();
    match authenticode::authenticode_digest(&pe, &mut h) {
        Ok(()) => Some(<sha1::Sha1 as sha1::Digest>::finalize(h).to_vec()),
        Err(_) => None,
    }
}

/// Relies on object::read::pe::PeFile::parse and
/// authenticode::authenticode_digest, as the 32-bit SHA-1 variant does,
/// with a SHA-256 accumulator.
#[verifier::external_body]
fn authenticode_sha256_32(data: &[u8]) -> (r: Option<Vec<u8>>)
    ensures
        r is Some <==> pe_measured_bytes_32(data@) is Some,
        r matches Some(d) ==> pe_measured_bytes_32(data@) matches Some(m) && d@ == sha256_of(m)
            && d@.len() == 32,
{
    let pe = match object::read::pe::PeFile::<object::pe::ImageNtHeaders32>::parse(data) {
        Ok(pe) => pe,
        Err(_) => return None,
    };
    let mut h = <sha2::Sha256 as sha2::Digest>::new();
    match authenticode::authenticode_digest(&pe, &mut h) {
        Ok(()) => Some(<sha2::Sha256 as sha2::Digest>::finalize(h).to_vec()),
        Err(_) => None,
    }
}

/// Relies on object::read::pe::PeFile::parse and
/// authenticode::authenticode_digest, as the 32-bit SHA-1 variant does,
/// with a SHA-512 accumulator.
#[verifier::external_body]
fn authenticode_sha512_32(data: &[u8]) -> (r: Option<Vec<u8>>)
    ensures
        r is Some <==> pe_measured_bytes_32(data@) is Some,
        r matches Some(d) ==> pe_measured_bytes_32(data@) matches Some(m) && d@ == sha512_of(m)
            && d@.len() == 64,
{
    let pe = match object::read::pe::PeFile::<object::pe::ImageNtHeaders32>::parse(data) {
        Ok(pe) => pe,
        Err(_) => return None,
    };
    let mut h = <sha2::Sha512 as sha2::Digest>::new();
    match authenticode::authenticode_digest(&pe, &mut h) {
        Ok(()) => Some(<sha2::Sha512 as sha2::Digest>::finalize(h).to_vec()),
        Err(_) => None,
    }
}

/// The canonical measured bytes of an image at the selected address width.
pub open spec fn spec_measured_bytes(img: Seq<u8>, bits: Bits) -> Option<Seq<u8>> {
    match bits {
        Bits::_64 => pe_measured_bytes_64(img),
        Bits::_32 => pe_measured_bytes_32(img),
    }
}

/// The Authenticode digest of an image at the selected width and algorithm,
/// or nothing if the image cannot be measured.
pub open spec fn spec_measure_pe(img: Seq<u8>, bits: Bits, alg: Hash) -> Option<Seq<u8>> {
    match spec_measured_bytes(img, bits) {
        Option::Some(m) => Option::Some(spec_digest(alg, m)),
        Option::None => Option::None,
    }
}

/// A measurement failure, typed by its stage.
#[derive(Clone, Copy, PartialEq, Eq, Structural, Debug)]
pub enum MeasureError {
    /// The candidate file could not be read.
    UnreadableFile,
    /// The file's bytes do not form a measurable PE image of the selected
    /// width: a structural parse failure or inconsistent offsets.
    UnparsableImage,
}

/// Compute the Authenticode digest of an in-memory PE image under the
/// selected width and algorithm.
pub fn hash_pe_image(data: &[u8], bits: Bits, alg: Hash) -> (r: Result<Vec<u8>, MeasureError>)
    ensures
        match spec_measure_pe(data@, bits, alg) {
            Option::Some(d) => r matches Ok(v) && v@ == d && v@.len() == spec_output_size(alg),
            Option::None => r == Err::<Vec<u8>, MeasureError>(MeasureError::UnparsableImage),
        },
{
    let digest = match (bits, alg) {
        (Bits::_64, Hash::Sha1) => authenticode_sha1_64(data),
        (Bits::_64, Hash::Sha256) => authenticode_sha256_64(data),
        (Bits::_64, Hash::Sha512) => authenticode_sha512_64(data),
        (Bits::_32, Hash::Sha1) => authenticode_sha1_32(data),
        (Bits::_32, Hash::Sha256) => authenticode_sha256_32(data),
        (Bits::_32, Hash::Sha512) => authenticode_sha512_32(data),
    };
    match digest {
        Option::Some(v) => Ok(v),
        Option::None => Err(MeasureError::UnparsableImage),
    }
}

/// Measure a candidate file's contents, if they could be read at all.
pub fn measure_file(contents: &Option<Vec<u8>>, bits: Bits, alg: Hash) -> (r: Result<
    Vec<u8>,
    MeasureError,
>)
    ensures
        match contents {
            Option::None => r == Err::<Vec<u8>, MeasureError>(MeasureError::UnreadableFile),
            Option::Some(data) => match spec_measure_pe(data@, bits, alg) {
                Option::Some(d) => r matches Ok(v) && v@ == d && v@.len() == spec_output_size(alg),
                Option::None => r == Err::<Vec<u8>, MeasureError>(MeasureError::UnparsableImage),
            },
        },
{
    match contents {
        Option::Some(data) => hash_pe_image(data.as_slice(), bits, alg),
        Option::None => Err(MeasureError::UnreadableFile),
    }
}

/// A hexadecimal digit as a lower-case character.
pub open spec fn spec_hex_digit(n: int) -> char {
    if n == 0 { '0' }
    else if n == 1 { '1' }
    else if n == 2 { '2' }
    else if n == 3 { '3' }
    else if n == 4 { '4' }
    else if n == 5 { '5' }
    else if n == 6 { '6' }
    else if n == 7 { '7' }
    else if n == 8 { '8' }
    else if n == 9 { '9' }
    else if n == 10 { 'a' }
    else if n == 11 { 'b' }
    else if n == 12 { 'c' }
    else if n == 13 { 'd' }
    else if n == 14 { 'e' }
    else { 'f' }
}

/// The lower-case hexadecimal rendering of a byte sequence: two digits per
/// byte, high nibble first.
pub open spec fn spec_hex(data: Seq<u8>) -> Seq<char> {
    Seq::new(2 * data.len(), |i: int|
        if i % 2 == 0 {
            spec_hex_digit(data[i / 2] as int / 16)
        } else {
            spec_hex_digit(data[i / 2] as int % 16)
        })
}

/// Relies on hex::encode: the lower-case hexadecimal rendering of the
/// bytes, two digits per byte.
#[verifier::external_body]
fn to_hex(data: &[u8]) -> (r: String)
    ensures
        r@ == spec_hex(data@),
{
    hex::encode(data)
}

/// The final register value as the run's single output line: its
/// lower-case hexadecimal rendering, twice the output size in digits.
pub fn render_digest(state: &Vec<u8>) -> (r: String)
    ensures
        r@ == spec_hex(state@),
        r@.len() == 2 * state@.len(),
{
    to_hex(state.as_slice())
}

} // verus!
