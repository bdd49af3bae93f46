//! The client side of the loader's C interface: how another plugin finds the loader's
//! exported symbols and what it answers, and the errors it reports.
use vstd::prelude::*;
use vstd::string::StringSliceAdditionalSpecFns;

verus! {

/// Version of the exported Lua API table; raised on incompatible changes.
pub const API_VERSION: u32 = 1;

/// Size of the buffer that holds a symbol name, terminating NUL included.
pub const SYMBOL_BUFFER_LEN: usize = 64;

/// Why a plugin could not be registered with the loader.
#[derive(Clone, Copy, Debug, PartialEq, Eq)]
pub enum ApiError {
    /// The loader does not export its version: it is not loaded.
    NotLoaded,
    /// The loader's API version is not [`API_VERSION`].
    VersionMismatch,
    /// The loader does not export its registration entry.
    NotExported,
    /// The loader turned the callback away.
    Refused,
}

impl ApiError {
    /// The message reported for the error.
    pub fn message(&self) -> (r: &'static str)
        ensures
            r@ == match *self {
                ApiError::NotLoaded => "lovely-injector-nx plugin is not loaded"@,
                ApiError::VersionMismatch => "lovely-injector-nx API version mismatch"@,
                ApiError::NotExported => "lovely_nx_on_ready not exported"@,
                ApiError::Refused => "lovely-injector-nx refused the callback ?"@,
            },
    {
        match self {
            ApiError::NotLoaded => "lovely-injector-nx plugin is not loaded",
            ApiError::VersionMismatch => "lovely-injector-nx API version mismatch",
            ApiError::NotExported => "lovely_nx_on_ready not exported",
            ApiError::Refused => "lovely-injector-nx refused the callback ?",
        }
    }
}

/// Name of the exported function that returns the loader's API version.
pub const SYMBOL_API_VERSION: &'static str = "lovely_nx_api_version";

/// Name of the exported function through which a plugin registers its callback.
pub const SYMBOL_ON_READY: &'static str = "lovely_nx_on_ready";

/// The NUL-padded buffer in which a symbol name is handed to the symbol lookup:
/// the name's bytes followed by zeros up to [`SYMBOL_BUFFER_LEN`] bytes. A name that
/// leaves no room for the terminating NUL is refused.
pub fn symbol_buffer(name: &str) -> (r: Option<Vec<u8>>)
    ensures
        r is None <==> name.spec_bytes().len() >= SYMBOL_BUFFER_LEN,
        r matches Some(buf) ==> {
            &&& buf@.len() == SYMBOL_BUFFER_LEN
            &&& buf@.take(name.spec_bytes().len() as int) == name.spec_bytes()
            &&& forall|i: int| name.spec_bytes().len() <= i < SYMBOL_BUFFER_LEN ==> #[trigger] buf@[i] == 0
        },
{
    let bytes = name.as_bytes();
    let n = bytes.len();
    if n >= SYMBOL_BUFFER_LEN {
        return None;
    }
    let mut buf: Vec<u8> = Vec::new();
    let mut i: usize = 0;
    while i < SYMBOL_BUFFER_LEN
        invariant
            n == bytes@.len(),
            n < SYMBOL_BUFFER_LEN,
            bytes@ == name.spec_bytes(),
            0 <= i <= SYMBOL_BUFFER_LEN,
            buf@.len() == i,
            forall|k: int| 0 <= k < i && k < n ==> #[trigger] buf@[k] == bytes@[k],
            forall|k: int| n <= k < i ==> #[trigger] buf@[k] == 0,
        decreases SYMBOL_BUFFER_LEN - i,
    {
        if i < n {
            buf.push(bytes[i]);
        } else {
            buf.push(0u8);
        }
        i = i + 1;
    }
    assert(buf@.take(n as int) =~= name.spec_bytes());
    Some(buf)
}

/// The address the symbol lookup found: there is one when the lookup succeeded
/// (result code 0) and gave a non-null address.
pub fn lookup_result(rc: u32, addr: usize) -> (r: Option<usize>)
    ensures
        r == (if rc == 0 && addr != 0 { Some(addr) } else { None::<usize> }),
{
    if rc == 0 && addr != 0 {
        Some(addr)
    } else {
        None
    }
}

/// Whether the loader that answered with `found` (its API version, if it exports one)
/// can take the plugin's callback.
pub fn check_api_version(found: Option<u32>) -> (r: Result<(), ApiError>)
    ensures
        r == (match found {
            None => Err(ApiError::NotLoaded),
            Some(v) => if v == API_VERSION { Ok(()) } else { Err(ApiError::VersionMismatch) },
        }),
{
    match found {
        None => Err(ApiError::NotLoaded),
        Some(v) => if v == API_VERSION {
            Ok(())
        } else {
            Err(ApiError::VersionMismatch)
        },
    }
}

/// The outcome of a registration, given where the registration entry was found (if it
/// was) and, once called, whether the loader accepted the callback.
pub fn registration_outcome(entry: Option<usize>, accepted: bool) -> (r: Result<(), ApiError>)
    ensures
        r == (match entry {
            None => Err(ApiError::NotExported),
            Some(_) => if accepted { Ok(()) } else { Err(ApiError::Refused) },
        }),
{
    match entry {
        None => Err(ApiError::NotExported),
        Some(_) => if accepted {
            Ok(())
        } else {
            Err(ApiError::Refused)
        },
    }
}

} // verus!
