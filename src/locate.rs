//! Finding the path of the running executable from what the operating
//! system wrote into a scratch buffer.
use vstd::prelude::*;

verus! {

/// Size of the scratch buffer the operating system writes the path into.
pub const PATH_CAPACITY: usize = 2000;

/// Why the path of the running executable could not be found.
#[derive(Debug, PartialEq, Eq, Clone, Copy)]
pub enum LocateError {
    /// The operating system did not report the path, or it may not have
    /// fitted in the scratch buffer.
    PathResolution,
    /// The module's path did not fit the buffer of the two-step lookup.
    BufferTooSmall,
    /// The path could not be made absolute and free of links.
    Canonicalization,
}

/// A scratch buffer of `PATH_CAPACITY` zero bytes.
pub fn scratch_buffer() -> (r: Vec<u8>)
    ensures
        r@ == Seq::new(PATH_CAPACITY as nat, |i: int| 0u8),
{
    let mut buf: Vec<u8> = Vec::new();
    let mut i: usize = 0;
    while i < PATH_CAPACITY
        invariant
            i <= PATH_CAPACITY,
            buf@ == Seq::new(i as nat, |j: int| 0u8),
        decreases PATH_CAPACITY - i,
    {
        buf.push(0u8);
        i = i + 1;
        assert(buf@ =~= Seq::new(i as nat, |j: int| 0u8));
    }
    buf
}

/// The path read from the link to the running executable, given the buffer
/// the link was read into and the count the read returned. The read is
/// handed one byte less than the buffer, so a count that reaches that size
/// may have cut the path, and is refused like a negative or zero count,
/// which means no path.
pub fn path_from_link(buf: &[u8], count: isize) -> (r: Result<Vec<u8>, LocateError>)
    requires
        buf@.len() >= 1,
    ensures
        count <= 0 ==> r == Err::<Vec<u8>, LocateError>(LocateError::PathResolution),
        count > 0 && count >= buf@.len() - 1 ==> r == Err::<Vec<u8>, LocateError>(LocateError::PathResolution),
        0 < count < buf@.len() - 1 ==> r is Ok && r->Ok_0@ == buf@.subrange(0, count as int),
{
    if count <= 0 {
        return Err(LocateError::PathResolution);
    }
    let n = count as usize;
    if n >= buf.len() - 1 {
        return Err(LocateError::PathResolution);
    }
    let mut path: Vec<u8> = Vec::new();
    let mut i: usize = 0;
    while i < n
        invariant
            i <= n < buf@.len(),
            n == count,
            path@ == buf@.subrange(0, i as int),
        decreases n - i,
    {
        path.push(buf[i]);
        i = i + 1;
        assert(path@ =~= buf@.subrange(0, i as int));
    }
    Ok(path)
}

/// Where the first zero byte of `s` stands, or its length when it holds none.
pub open spec fn nul_position(s: Seq<u8>) -> nat
    decreases s.len(),
{
    if s.len() == 0 {
        0
    } else if s[0] == 0 {
        0
    } else {
        1 + nul_position(s.drop_first())
    }
}

/// The bytes of a zero-terminated string written into `buf`: those before its first zero.
pub fn until_nul(buf: &[u8]) -> (r: Vec<u8>)
    ensures
        r@ == buf@.take(nul_position(buf@) as int),
{
    let mut path: Vec<u8> = Vec::new();
    let mut i: usize = 0;
    assert(buf@.skip(0) =~= buf@);
    while i < buf.len() && buf[i] != 0
        invariant
            i <= buf@.len(),
            path@ == buf@.take(i as int),
            nul_position(buf@) == i + nul_position(buf@.skip(i as int)),
        decreases buf@.len() - i,
    {
        assert(buf@.skip(i as int).drop_first() =~= buf@.skip(i + 1));
        path.push(buf[i]);
        i = i + 1;
        assert(path@ =~= buf@.take(i as int));
    }
    assert(nul_position(buf@.skip(i as int)) == 0);
    path
}

/// The absolute path from the two-step lookup: `status` is what the lookup
/// of the module's path returned (zero when it fitted its buffer), and
/// `canonical` the buffer the canonical path was written into, when the
/// canonicalization gave one.
pub fn path_from_canonical(status: i32, canonical: Option<&[u8]>) -> (r: Result<Vec<u8>, LocateError>)
    ensures
        status != 0 ==> r == Err::<Vec<u8>, LocateError>(LocateError::BufferTooSmall),
        status == 0 && canonical is None ==> r == Err::<Vec<u8>, LocateError>(LocateError::Canonicalization),
        status == 0 && canonical is Some ==> r is Ok
            && r->Ok_0@ == canonical->Some_0@.take(nul_position(canonical->Some_0@) as int),
{
    if status != 0 {
        return Err(LocateError::BufferTooSmall);
    }
    match canonical {
        Some(buf) => Ok(until_nul(buf)),
        None => Err(LocateError::Canonicalization),
    }
}

} // verus!
