//! Domain handles for tagging trace data.
//!
//! A domain groups the trace events of one module or subsystem so that an
//! analysis tool can attribute them. The native instrumentation library owns
//! the real domain object for the life of the process; a [`Domain`] here only
//! carries the opaque address that the library handed back, and is never
//! dereferenced, altered or freed by this crate.
//!
//! The native entry point itself is reached by the caller: [`Domain::new`]
//! takes it as a closure, hands it the terminated name bytes exactly once,
//! and wraps whatever address comes back. A null or otherwise inert address
//! is wrapped like any other: running outside a profiler is a normal
//! condition, not an error.
use vstd::prelude::*;
use vstd::string::StringSliceAdditionalSpecFns;

verus! {

/// The byte that ends a name handed to the native library.
pub const TERMINATOR: u8 = 0;

/// Whether `bytes` holds the terminator byte anywhere.
pub open spec fn has_terminator(bytes: Seq<u8>) -> bool {
    exists|i: int| 0 <= i < bytes.len() && bytes[i] == TERMINATOR
}

/// Whether `pos` is the index of the first terminator byte in `bytes`.
pub open spec fn is_first_terminator(bytes: Seq<u8>, pos: int) -> bool {
    &&& 0 <= pos < bytes.len()
    &&& bytes[pos] == TERMINATOR
    &&& forall|j: int| 0 <= j < pos ==> bytes[j] != TERMINATOR
}

/// The form in which the native library takes a name: its bytes followed by
/// one terminator byte.
pub open spec fn terminated(bytes: Seq<u8>) -> Seq<u8> {
    bytes.push(TERMINATOR)
}

/// Whether `create`, called on the terminated form of `bytes`, may return
/// `addr`.
pub open spec fn returned_for<F: FnOnce(Vec<u8>) -> usize>(
    create: F,
    bytes: Seq<u8>,
    addr: usize,
) -> bool {
    exists|buf: Vec<u8>| buf@ == terminated(bytes) && #[trigger] create.ensures((buf,), addr)
}

/// Why domain creation aborts on a name that holds a terminator byte.
pub const NAME_ENCODING_MESSAGE: &'static str = "unable to create a CString; does it contain a 0 byte?";

/// A name that cannot be passed as a terminated byte string, because it
/// holds the terminator byte itself.
#[derive(Debug, Clone, Copy, PartialEq, Eq, Structural)]
pub struct InvalidNameEncoding {
    /// Index of the first terminator byte in the name's UTF-8 bytes.
    pub nul_position: usize,
}

/// Converts `name` into the terminated byte string that the native library
/// takes.
///
/// This is the single validation point of domain creation: it fails exactly
/// when `name` holds a terminator byte, and then reports the first one.
pub fn terminated_name(name: &str) -> (r: Result<Vec<u8>, InvalidNameEncoding>)
    ensures
        match r {
            Ok(buf) => !has_terminator(name.spec_bytes()) && buf@ == terminated(
                name.spec_bytes(),
            ),
            Err(e) => has_terminator(name.spec_bytes()) && is_first_terminator(
                name.spec_bytes(),
                e.nul_position as int,
            ),
        },
{
    let bytes = name.as_bytes();
    let n = bytes.len();
    let mut buf: Vec<u8> = Vec::new();
    let mut i: usize = 0;
    while i < n
        invariant
            n == bytes@.len(),
            bytes@ == name.spec_bytes(),
            i <= n,
            buf@ == bytes@.subrange(0, i as int),
            forall|j: int| 0 <= j < i ==> bytes@[j] != TERMINATOR,
        decreases n - i,
    {
        let b = bytes[i];
        if b == TERMINATOR {
            return Err(InvalidNameEncoding { nul_position: i });
        }
        buf.push(b);
        i = i + 1;
    }
    proof {
        assert(bytes@.subrange(0, n as int) =~= bytes@);
    }
    buf.push(TERMINATOR);
    Ok(buf)
}

/// A handle on one native domain.
///
/// It holds the opaque address that the native library returned when the
/// domain was created, and nothing else. The handle is never changed after
/// construction, so any number of threads may read it at once; the native
/// library documents the domain object behind it as usable from any thread
/// of the process.
pub struct Domain {
    ptr: usize,
}

impl Domain {
    /// The address that the native library returned for this domain.
    pub closed spec fn addr(&self) -> usize {
        self.ptr
    }

    /// Creates a domain named `name`.
    ///
    /// `create` is the native creation entry point: it receives the
    /// terminated name bytes and returns the address of the domain object.
    /// It is called exactly once, and its result is wrapped as it is,
    /// whether or not the native library is active.
    ///
    /// A name that holds a terminator byte is a caller error that cannot be
    /// recovered from here: such names are ruled out, and a caller that may
    /// meet one checks it with [`terminated_name`] first and aborts with
    /// [`NAME_ENCODING_MESSAGE`].
    pub fn new<F: FnOnce(Vec<u8>) -> usize>(name: &str, create: F) -> (r: Domain)
        requires
            !has_terminator(name.spec_bytes()),
            forall|buf: Vec<u8>|
                buf@ == terminated(name.spec_bytes()) ==> #[trigger] create.requires((buf,)),
        ensures
            returned_for(create, name.spec_bytes(), r.addr()),
    {
        let buf = terminated_name(name).unwrap();
        let ptr = create(buf);
        let d = Domain { ptr };
        assert(returned_for(create, name.spec_bytes(), d.addr()));
        d
    }

    /// The opaque address of the native domain, for calls that take it.
    pub fn as_ptr(&self) -> (r: usize)
        ensures
            r == self.addr(),
    {
        self.ptr
    }
}

} // verus!
