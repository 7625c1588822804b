//! Reading the sizes and addresses that the shell's commands take.

use vstd::prelude::*;

verus! {

/// Why a command argument was refused.
#[derive(Debug, Clone, PartialEq, Eq)]
pub enum ArgError {
    /// The text is not a size; the message says why.
    BadSize(String),
    /// The size, in bytes, does not fit the address width.
    SizeTooLarge(u64),
    /// The text is not an address; the message says why.
    BadAddress(String),
    /// The text holds a minus sign: an address is never negative.
    NegativeAddress,
}

/// The number of bytes that a size written as text stands for (`4096`,
/// `1 MiB`, `1.5 GB`), as `bytesize` reads it.
pub uninterp spec fn byte_size_of(s: Seq<char>) -> Option<u64>;

/// The number that an integer written as text stands for (decimal, or
/// hexadecimal, binary or octal after `0x`, `0b` or `0o`), as `parse_int`
/// reads it.
pub uninterp spec fn address_of(s: Seq<char>) -> Option<usize>;

/// Relies on `<bytesize::ByteSize as FromStr>::from_str`: the number of
/// bytes of a size, which depends on the text alone, or a message when the
/// text is not a size.
#[verifier::external_body]
fn byte_size_from_str(s: &str) -> (r: Result<u64, String>)
    ensures
        match r {
            Ok(n) => byte_size_of(s@) == Some(n),
            Err(_) => byte_size_of(s@) is None,
        },
{
    match <bytesize::ByteSize as std::str::FromStr>::from_str(s) {
        Ok(size) => Ok(size.as_u64()),
        Err(message) => Err(message),
    }
}

/// Relies on `parse_int::parse::<usize>`: the integer written in the text,
/// which depends on the text alone, or the message of its error. That
/// function overflows on a negative number, hence no minus sign.
#[verifier::external_body]
fn usize_from_str(s: &str) -> (r: Result<usize, String>)
    requires
        !s@.contains('-'),
    ensures
        match r {
            Ok(n) => address_of(s@) == Some(n),
            Err(_) => address_of(s@) is None,
        },
{
    match parse_int::parse::<usize>(s) {
        Ok(n) => Ok(n),
        Err(error) => Err(error.to_string()),
    }
}

/// What a size of `bytes` bytes gives as a length in memory.
pub open spec fn length_of(bytes: u64) -> Result<usize, ArgError> {
    if bytes <= usize::MAX {
        Ok(bytes as usize)
    } else {
        Err(ArgError::SizeTooLarge(bytes))
    }
}

/// A size of `bytes` bytes as a length in memory, when it fits.
pub fn size_from_bytes(bytes: u64) -> (r: Result<usize, ArgError>)
    ensures
        r == length_of(bytes),
{
    if bytes as u128 <= usize::MAX as u128 {
        Ok(bytes as usize)
    } else {
        Err(ArgError::SizeTooLarge(bytes))
    }
}

/// Reads a size such as `1 MiB` as a number of bytes that fits the
/// address width.
pub fn parse_size(s: &str) -> (r: Result<usize, ArgError>)
    ensures
        match byte_size_of(s@) {
            None => r matches Err(ArgError::BadSize(_)),
            Some(bytes) => r == length_of(bytes),
        },
{
    match byte_size_from_str(s) {
        Err(message) => Err(ArgError::BadSize(message)),
        Ok(bytes) => size_from_bytes(bytes),
    }
}

/// Whether `s` holds a minus sign.
fn has_minus(s: &str) -> (r: bool)
    ensures
        r == s@.contains('-'),
{
    let n = s.unicode_len();
    let mut i: usize = 0;
    while i < n
        invariant
            i <= n,
            n == s@.len(),
            forall|j: int| 0 <= j < i ==> s@[j] != '-',
        decreases n - i,
    {
        if s.get_char(i) == '-' {
            return true;
        }
        i = i + 1;
    }
    false
}

/// Reads an address such as `0x7fff0000` or `4096`.
pub fn parse_addr(s: &str) -> (r: Result<usize, ArgError>)
    ensures
        s@.contains('-') ==> r == Err::<usize, ArgError>(ArgError::NegativeAddress),
        !s@.contains('-') ==> match address_of(s@) {
            None => r matches Err(ArgError::BadAddress(_)),
            Some(addr) => r == Ok::<usize, ArgError>(addr),
        },
{
    if has_minus(s) {
        return Err(ArgError::NegativeAddress);
    }
    match usize_from_str(s) {
        Ok(addr) => Ok(addr),
        Err(message) => Err(ArgError::BadAddress(message)),
    }
}

} // verus!
