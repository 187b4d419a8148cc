//! The Wake-on-LAN magic packet: six bytes of `0xFF`, then the hardware
//! address sixteen times over.

use vstd::prelude::*;

verus! {

/// `block` written `times` times in a row.
pub open spec fn repeated(block: Seq<u8>, times: nat) -> Seq<u8>
    decreases times,
{
    if times == 0 {
        Seq::empty()
    } else {
        repeated(block, (times - 1) as nat) + block
    }
}

/// The synchronization stream: six bytes of `0xFF`.
pub open spec fn sync_stream() -> Seq<u8> {
    Seq::new(6, |i: int| 0xFFu8)
}

/// The magic packet for the hardware address `mac`.
pub open spec fn magic_packet_spec(mac: Seq<u8>) -> Seq<u8> {
    sync_stream() + repeated(mac, 16)
}

/// A repetition of a block is as long as the block times the count, and its
/// byte at `i` is the block's byte at `i` modulo the block's length.
pub proof fn lemma_repeated(block: Seq<u8>, times: nat)
    requires
        block.len() > 0,
    ensures
        repeated(block, times).len() == times * block.len(),
        forall|i: int|
            0 <= i < times * block.len() ==> #[trigger] repeated(block, times)[i] == block[i
                % (block.len() as int)],
    decreases times,
{
    let len = block.len() as int;
    if times == 0 {
        assert(times * block.len() == 0) by (nonlinear_arith)
            requires
                times == 0,
        ;
    } else {
        let shorter = (times - 1) as nat;
        lemma_repeated(block, shorter);
        assert(times * block.len() == shorter * block.len() + block.len()) by (nonlinear_arith)
            requires
                shorter == times - 1,
        ;
        assert forall|i: int| 0 <= i < times * block.len() implies #[trigger] repeated(
            block,
            times,
        )[i] == block[i % len] by {
            if i >= shorter * block.len() {
                assert(i % len == i - shorter * len) by (nonlinear_arith)
                    requires
                        shorter * len <= i < shorter * len + len,
                        len > 0,
                ;
            }
        }
    }
}

/// The layout of a magic packet, byte by byte and block by block.
///
/// For every six-byte hardware address the packet is 102 bytes long, its
/// first six bytes are `0xFF`, and each of the sixteen six-byte blocks that
/// follow is the address itself.
pub proof fn lemma_magic_packet_layout(mac: Seq<u8>)
    requires
        mac.len() == 6,
    ensures
        magic_packet_spec(mac).len() == 102,
        forall|i: int| 0 <= i < 6 ==> #[trigger] magic_packet_spec(mac)[i] == 0xFF,
        forall|i: int| 6 <= i < 102 ==> #[trigger] magic_packet_spec(mac)[i] == mac[(i - 6) % 6],
        forall|k: int|
            0 <= k < 16 ==> #[trigger] magic_packet_spec(mac).subrange(6 + 6 * k, 12 + 6 * k)
                == mac,
{
    let pkt = magic_packet_spec(mac);
    lemma_repeated(mac, 16);
    assert forall|k: int| 0 <= k < 16 implies #[trigger] pkt.subrange(6 + 6 * k, 12 + 6 * k)
        == mac by {
        let block = pkt.subrange(6 + 6 * k, 12 + 6 * k);
        assert forall|j: int| 0 <= j < 6 implies block[j] == mac[j] by {
            assert((6 * k + j) % 6 == j) by (nonlinear_arith)
                requires
                    0 <= j < 6,
                    0 <= k,
            ;
        }
    }
}

/// Builds the magic packet for the six-byte hardware address `mac`.
pub fn magic_packet(mac: &[u8]) -> (pkt: [u8; 102])
    requires
        mac@.len() == 6,
    ensures
        pkt@ == magic_packet_spec(mac@),
        pkt@.len() == 102,
        forall|i: int| 0 <= i < 6 ==> pkt@[i] == 0xFF,
        forall|i: int| 6 <= i < 102 ==> pkt@[i] == mac@[(i - 6) % 6],
        forall|k: int| 0 <= k < 16 ==> #[trigger] pkt@.subrange(6 + 6 * k, 12 + 6 * k) == mac@,
{
    let mut pkt = [0u8; 102];
    let mut i: usize = 0;
    while i < 6
        invariant
            i <= 6,
            forall|j: int| 0 <= j < i ==> pkt@[j] == 0xFF,
        decreases 6 - i,
    {
        pkt[i] = 0xFF;
        i += 1;
    }
    let mut round: usize = 0;
    while round < 16
        invariant
            round <= 16,
            mac@.len() == 6,
            forall|j: int| 0 <= j < 6 ==> pkt@[j] == 0xFF,
            forall|j: int| 6 <= j < 6 + 6 * round ==> pkt@[j] == mac@[(j - 6) % 6],
        decreases 16 - round,
    {
        let base: usize = 6 + round * 6;
        let mut offset: usize = 0;
        while offset < 6
            invariant
                offset <= 6,
                round < 16,
                base == 6 + 6 * round,
                mac@.len() == 6,
                forall|j: int| 0 <= j < 6 ==> pkt@[j] == 0xFF,
                forall|j: int| 6 <= j < base + offset ==> pkt@[j] == mac@[(j - 6) % 6],
            decreases 6 - offset,
        {
            assert((base + offset - 6) % 6 == offset as int) by (nonlinear_arith)
                requires
                    base == 6 + 6 * round,
                    0 <= offset < 6,
            ;
            pkt[base + offset] = mac[offset];
            offset += 1;
        }
        round += 1;
    }
    proof {
        lemma_magic_packet_layout(mac@);
    }
    pkt
}

} // verus!
