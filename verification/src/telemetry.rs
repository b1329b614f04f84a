//! The telemetry push: turning sampled system statistics into the single
//! combined stats packet.
//!
//! One packet carries all values atomically: CPU percentage, memory
//! percentage, process count (high byte, low byte), and GPU percentage.
//! Sampling itself is the embedding application's work; it hands the
//! results in as plain integers.

use vstd::prelude::*;

use crate::packet::pad_payload;
use crate::packet::Packet;
use crate::packet::PacketHeader;

verus! {

/// The used-memory percentage, rounded to the nearest point with halves
/// rounding up: the integer nearest to `100 * used / total`.
pub open spec fn spec_mem_percent(used: int, total: int) -> int {
    (200 * used + total) / (2 * total)
}

/// Compute the used-memory percentage from the sampled byte counts.
pub fn mem_percent(used: u64, total: u64) -> (r: u8)
    requires
        total > 0,
        used <= total,
    ensures
        r == spec_mem_percent(used as int, total as int),
        r <= 100,
{
    let wide: u128 = (200u128 * used as u128 + total as u128) / (2u128 * total as u128);
    proof {
        let u = used as int;
        let t = total as int;
        assert((200 * u + t) / (2 * t) <= 100) by (nonlinear_arith)
            requires
                t > 0,
                u <= t,
        ;
        assert((200 * u + t) / (2 * t) >= 0) by (nonlinear_arith)
            requires
                t > 0,
                u >= 0,
        ;
    }
    wide as u8
}

/// The payload of one stats packet, in sampling order: CPU percentage,
/// memory percentage, process count high byte, process count low byte, GPU
/// percentage. A process count beyond sixteen bits keeps its low sixteen.
pub open spec fn spec_stats_payload(cpu: u8, mem: u8, process_count: usize, gpu: u8) -> Seq<u8> {
    seq![
        cpu,
        mem,
        ((process_count as int / 256) % 256) as u8,
        (process_count as int % 256) as u8,
        gpu,
    ]
}

/// Build the combined stats packet from the sampled values.
pub fn stats_packet(cpu: u8, mem: u8, process_count: usize, gpu: u8) -> (p: Packet)
    ensures
        p.wf(),
        p.header == PacketHeader::Stats,
        p.payload() == pad_payload(spec_stats_payload(cpu, mem, process_count, gpu)),
{
    let mut buff: Vec<u8> = Vec::new();
    buff.push(cpu);
    buff.push(mem);
    buff.push(((process_count / 256) % 256) as u8);
    buff.push((process_count % 256) as u8);
    buff.push(gpu);
    proof {
        assert(buff@ =~= spec_stats_payload(cpu, mem, process_count, gpu));
    }
    Packet::new(PacketHeader::Stats, buff)
}

} // verus!
