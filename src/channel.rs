use vstd::prelude::*;

use crate::error::PagingError;

verus! {

/// The filesystem path of the one-shot rendezvous socket.
pub const CHANNEL_PATH: &'static str = "/tmp/uffd.sock";

/// The length of the payload that travels with the descriptor; its bytes carry
/// no meaning.
pub const PAYLOAD_LEN: usize = 64;

/// What a receive yields, given the descriptor slots it filled and the count
/// it reported: the handle when exactly one crossed, the count otherwise.
pub open spec fn accepted(fds: Seq<i32>, received: nat) -> Result<i32, PagingError> {
    if received == 1 && fds.len() >= 1 {
        Ok(fds[0])
    } else if received == 1 {
        Err(PagingError::DescriptorCount(0))
    } else {
        Err(PagingError::DescriptorCount(received as usize))
    }
}

/// The payload sent and received alongside the handle: `PAYLOAD_LEN` zero bytes.
pub fn payload() -> (r: Vec<u8>)
    ensures
        r@ == Seq::new(PAYLOAD_LEN as nat, |_i: int| 0u8),
{
    let r: Vec<u8> = vec![0u8; PAYLOAD_LEN];
    assert(r@ =~= Seq::new(PAYLOAD_LEN as nat, |_i: int| 0u8));
    r
}

/// The descriptors that one transfer of `handle` sends: the handle alone.
pub fn handles_to_send(handle: i32) -> (r: Vec<i32>)
    ensures
        r@ == seq![handle],
{
    let r: Vec<i32> = vec![handle];
    assert(r@ =~= seq![handle]);
    r
}

/// Checks a receive that filled `fds` and reported `received` descriptors:
/// the handle when exactly one crossed, a descriptor-count error otherwise.
pub fn take_single_handle(fds: &[i32], received: usize) -> (r: Result<i32, PagingError>)
    ensures
        r == accepted(fds@, received as nat),
        r is Ok <==> (received == 1 && fds@.len() >= 1),
{
    if received == 1 && fds.len() >= 1 {
        Ok(fds[0])
    } else if received == 1 {
        Err(PagingError::DescriptorCount(0))
    } else {
        Err(PagingError::DescriptorCount(received))
    }
}

/// A transfer is exact: what one send of a handle puts on the channel is
/// received as that same handle, and a receive that reports any other count
/// of descriptors is refused with that count.
pub proof fn lemma_transfer_exact(handle: i32, fds: Seq<i32>, received: nat)
    ensures
        accepted(seq![handle], seq![handle].len()) == Ok::<i32, PagingError>(handle),
        received != 1 ==> accepted(fds, received) == Err::<i32, PagingError>(
            PagingError::DescriptorCount(received as usize),
        ),
{
}

} // verus!
