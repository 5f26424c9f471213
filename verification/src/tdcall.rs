//! Trust-domain call interface: marshals a leaf identifier and a fixed-width
//! argument vector into the hosting layer's calling convention and unmarshals
//! the status and return words it hands back.

use vstd::prelude::*;

verus! {

/// Leaf: accept (validate and take ownership of) a guest memory range.
pub const TDCALL_ACCEPT_MEMORY: u64 = 1;

/// Leaf: read a privileged status register by index.
pub const TDCALL_STATUS_READ: u64 = 2;

/// Leaf: write a privileged status register by index.
pub const TDCALL_STATUS_WRITE: u64 = 3;

/// Leaf: read a value from an I/O port.
pub const TDCALL_IO_READ: u64 = 4;

/// Leaf: write a value to an I/O port.
pub const TDCALL_IO_WRITE: u64 = 5;

/// Leaf: query the "why did I exit" diagnostic of the last transition.
pub const TDCALL_EXIT_INFO: u64 = 6;

/// Leaf: notify the hosting layer of a halt/idle request.
pub const TDCALL_HALT: u64 = 7;

/// Fixed width of the marshalled argument vector, in machine words.
pub const MAX_CALL_ARGS: usize = 4;

/// Status words at or above this value signal failure; the range below it is
/// reserved for success.
pub const CALL_STATUS_ERROR_BASE: u64 = 0x8000_0000_0000_0000;

/// Whether `leaf` is one of the recognized call leaves.
pub open spec fn leaf_known(leaf: u64) -> bool {
    ||| leaf == TDCALL_ACCEPT_MEMORY
    ||| leaf == TDCALL_STATUS_READ
    ||| leaf == TDCALL_STATUS_WRITE
    ||| leaf == TDCALL_IO_READ
    ||| leaf == TDCALL_IO_WRITE
    ||| leaf == TDCALL_EXIT_INFO
    ||| leaf == TDCALL_HALT
}

/// Declared argument arity of a recognized leaf.
pub open spec fn leaf_arg_count(leaf: u64) -> int {
    if leaf == TDCALL_ACCEPT_MEMORY {
        2
    } else if leaf == TDCALL_STATUS_READ {
        1
    } else if leaf == TDCALL_STATUS_WRITE {
        2
    } else if leaf == TDCALL_IO_READ {
        2
    } else if leaf == TDCALL_IO_WRITE {
        3
    } else {
        0
    }
}

/// Declared return arity of a recognized leaf.
pub open spec fn leaf_ret_count(leaf: u64) -> int {
    if leaf == TDCALL_STATUS_READ {
        1
    } else if leaf == TDCALL_IO_READ {
        1
    } else if leaf == TDCALL_EXIT_INFO {
        2
    } else {
        0
    }
}

/// Whether a status word from the hosting layer signals success.
pub open spec fn status_ok(status: u64) -> bool {
    status < CALL_STATUS_ERROR_BASE
}

/// Typed failure of a trust-domain call.
#[derive(Clone, Copy, PartialEq, Eq, Structural, Debug)]
pub enum CallError {
    /// The leaf identifier is not in the recognized set.
    UnknownLeaf { leaf: u64 },
    /// The caller supplied a different number of argument words than the
    /// leaf's declared arity.
    ArityMismatch { expected: usize, got: usize },
    /// The hosting layer answered with a status in the failure range.
    HostFailure { status: u64 },
}

/// A marshalled request: the leaf word plus the fixed-width argument vector,
/// declared arguments first and the remainder zero-filled.
pub struct CallRequest {
    pub leaf: u64,
    pub words: Vec<u64>,
}

/// Whether `leaf` is one of the recognized call leaves.
pub fn is_leaf_known(leaf: u64) -> (r: bool)
    ensures
        r == leaf_known(leaf),
{
    leaf == TDCALL_ACCEPT_MEMORY || leaf == TDCALL_STATUS_READ || leaf == TDCALL_STATUS_WRITE
        || leaf == TDCALL_IO_READ || leaf == TDCALL_IO_WRITE || leaf == TDCALL_EXIT_INFO
        || leaf == TDCALL_HALT
}

/// Declared argument arity of a recognized leaf.
pub fn arg_count(leaf: u64) -> (n: usize)
    requires
        leaf_known(leaf),
    ensures
        n as int == leaf_arg_count(leaf),
{
    if leaf == TDCALL_ACCEPT_MEMORY {
        2
    } else if leaf == TDCALL_STATUS_READ {
        1
    } else if leaf == TDCALL_STATUS_WRITE {
        2
    } else if leaf == TDCALL_IO_READ {
        2
    } else if leaf == TDCALL_IO_WRITE {
        3
    } else {
        0
    }
}

/// Declared return arity of a recognized leaf.
pub fn ret_count(leaf: u64) -> (n: usize)
    requires
        leaf_known(leaf),
    ensures
        n as int == leaf_ret_count(leaf),
{
    if leaf == TDCALL_STATUS_READ {
        1
    } else if leaf == TDCALL_IO_READ {
        1
    } else if leaf == TDCALL_EXIT_INFO {
        2
    } else {
        0
    }
}

/// Marshal a call: an unrecognized leaf or an argument count different from
/// the leaf's declared arity is a typed error; otherwise the request carries
/// the arguments in order, zero-padded to the fixed width.
pub fn marshal_call(leaf: u64, args: &Vec<u64>) -> (r: Result<CallRequest, CallError>)
    ensures
        match r {
            Ok(req) => {
                &&& leaf_known(leaf)
                &&& args.len() == leaf_arg_count(leaf)
                &&& req.leaf == leaf
                &&& req.words.len() == MAX_CALL_ARGS
                &&& forall|i: int| 0 <= i < args.len() ==> req.words[i] == args[i]
                &&& forall|i: int| args.len() <= i < MAX_CALL_ARGS as int ==> req.words[i] == 0
            },
            Err(CallError::UnknownLeaf { leaf: l }) => l == leaf && !leaf_known(leaf),
            Err(CallError::ArityMismatch { expected, got }) => {
                &&& leaf_known(leaf)
                &&& args.len() != leaf_arg_count(leaf)
                &&& expected as int == leaf_arg_count(leaf)
                &&& got == args.len()
            },
            Err(CallError::HostFailure { .. }) => false,
        },
{
    if !is_leaf_known(leaf) {
        return Err(CallError::UnknownLeaf { leaf });
    }
    let expected = arg_count(leaf);
    if args.len() != expected {
        return Err(CallError::ArityMismatch { expected, got: args.len() });
    }
    let mut words: Vec<u64> = Vec::new();
    let mut i: usize = 0;
    while i < args.len()
        invariant
            i <= args.len(),
            words.len() == i,
            forall|j: int| 0 <= j < i as int ==> words[j] == args[j],
        decreases args.len() - i,
    {
        words.push(args[i]);
        i = i + 1;
    }
    while words.len() < MAX_CALL_ARGS
        invariant
            args.len() <= words.len() <= MAX_CALL_ARGS,
            forall|j: int| 0 <= j < args.len() ==> words[j] == args[j],
            forall|j: int| args.len() <= j < words.len() ==> words[j] == 0,
        decreases MAX_CALL_ARGS - words.len(),
    {
        words.push(0);
    }
    Ok(CallRequest { leaf, words })
}

/// Unmarshal the hosting layer's answer: a failure status is surfaced as a
/// typed error; a success status yields exactly the leaf's declared number of
/// return words, taken in order from the designated registers.
pub fn unmarshal_result(leaf: u64, status: u64, words: &Vec<u64>) -> (r: Result<
    Vec<u64>,
    CallError,
>)
    requires
        leaf_known(leaf),
        words.len() == MAX_CALL_ARGS,
    ensures
        match r {
            Ok(rets) => {
                &&& status_ok(status)
                &&& rets.len() == leaf_ret_count(leaf)
                &&& forall|i: int| 0 <= i < rets.len() ==> rets[i] == words[i]
            },
            Err(CallError::HostFailure { status: s }) => s == status && !status_ok(status),
            Err(_) => false,
        },
{
    if status >= CALL_STATUS_ERROR_BASE {
        return Err(CallError::HostFailure { status });
    }
    let n = ret_count(leaf);
    let mut rets: Vec<u64> = Vec::new();
    let mut i: usize = 0;
    while i < n
        invariant
            n <= MAX_CALL_ARGS,
            words.len() == MAX_CALL_ARGS,
            i <= n,
            rets.len() == i,
            forall|j: int| 0 <= j < i as int ==> rets[j] == words[j],
        decreases n - i,
    {
        rets.push(words[i]);
        i = i + 1;
    }
    Ok(rets)
}

} // verus!
