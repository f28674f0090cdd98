//! Decoding of a system call from the eight argument registers.

use vstd::prelude::*;
use xous::SysCall;

verus! {

/// Opaque declaration of a decoded system call request.
#[verifier::external_type_specification]
#[verifier::external_body]
pub struct ExSysCall(SysCall);

/// System call numbers whose second argument is a connection id.
pub const SEND_MESSAGE: usize = 16;

pub const TRY_SEND_MESSAGE: usize = 24;

/// Kinds of message: three that lend or move memory, two that carry
/// scalars.
pub const MESSAGE_MUTABLE_BORROW: usize = 1;

pub const MESSAGE_MOVE: usize = 3;

pub const MESSAGE_SCALAR: usize = 4;

pub const MESSAGE_BLOCKING_SCALAR: usize = 5;

/// What the decoder of the system call interface makes of the eight
/// argument words: the request, or `None` where it returns an error. It
/// stands for `xous::SysCall::from_args`, in the build of that crate that
/// the library is linked with.
pub uninterp spec fn syscall_request(args: Seq<usize>) -> Option<SysCall>;


/// The argument words on which the decoder narrows the connection id to 32
/// bits and does not return if that fails: a message sent with a memory
/// range that is not empty or with scalars, and a blocking scalar sent
/// without waiting.
pub open spec fn narrows_connection(args: Seq<usize>) -> bool {
    ||| args[0] == SEND_MESSAGE && (args[2] == MESSAGE_SCALAR || args[2]
        == MESSAGE_BLOCKING_SCALAR || (MESSAGE_MUTABLE_BORROW <= args[2] <= MESSAGE_MOVE && args[4]
        != 0 && args[5] != 0))
    ||| args[0] == TRY_SEND_MESSAGE && args[2] == MESSAGE_BLOCKING_SCALAR
}

/// The argument words that the decoder can take: all but those on which it
/// narrows a connection id that is wider than 32 bits.
pub open spec fn decodable(args: Seq<usize>) -> bool {
    args.len() == 8 && (narrows_connection(args) ==> args[1] <= u32::MAX)
}

/// The request in the eight argument words: what the decoder makes of
/// them, and `None` also for words that it cannot take.
pub open spec fn spec_decode(args: Seq<usize>) -> Option<SysCall> {
    if decodable(args) {
        syscall_request(args)
    } else {
        None
    }
}

/// Whether the eight argument words hold a request.
pub open spec fn syscall_decodes(args: Seq<usize>) -> bool {
    spec_decode(args) is Some
}

/// Whether the decoder can take the words.
pub fn is_decodable(args: &[usize; 8]) -> (can: bool)
    ensures
        can == decodable(args@),
{
    let kind = args[2];
    let narrows = (args[0] == SEND_MESSAGE && (kind == MESSAGE_SCALAR || kind
        == MESSAGE_BLOCKING_SCALAR || (MESSAGE_MUTABLE_BORROW <= kind && kind <= MESSAGE_MOVE
        && args[4] != 0 && args[5] != 0))) || (args[0] == TRY_SEND_MESSAGE && kind
        == MESSAGE_BLOCKING_SCALAR);
    !narrows || args[1] <= 0xffff_ffff
}

/// Calls `xous::SysCall::from_args` on the eight words and drops the error
/// value. The contract claims only that the call is a function of its
/// arguments: what it returns is `syscall_request` of the words.
#[verifier::external_body]
fn decode_syscall(args: &[usize; 8]) -> (call: Option<SysCall>)
    requires
        decodable(args@),
    ensures
        call == syscall_request(args@),
{
    SysCall::from_args(args[0], args[1], args[2], args[3], args[4], args[5], args[6], args[7]).ok()
}

/// Decodes the request in the eight argument words. Words that the
/// decoder cannot take are not handed to it and hold no request.
pub fn decode(args: &[usize; 8]) -> (call: Option<SysCall>)
    ensures
        call == spec_decode(args@),
{
    if is_decodable(args) {
        decode_syscall(args)
    } else {
        None
    }
}

} // verus!
