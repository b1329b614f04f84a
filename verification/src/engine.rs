//! The receive/dispatch decisions of the protocol engine.
//!
//! Each loop iteration of the embedding application reads at most one
//! inbound frame, asks [`engine_tick`] what the frame and the elapsed time
//! call for, carries the command out against the audio mixer, and — when the
//! tick says so — samples and pushes telemetry. Inbound work always comes
//! before the telemetry check of the same iteration, so a due push can be
//! delayed but never skipped.

use vstd::prelude::*;
use vstd::string::StrSliceExecFns;
use vstd::utf8::encode_utf8;

use crate::packet::pad_payload;
use crate::packet::Packet;
use crate::packet::PacketHeader;
use crate::packet::PAYLOAD_LEN;
use crate::settings::Settings;
use crate::volume::spec_volume_of;
use crate::volume::Volume;

verus! {

broadcast use vstd::std_specs::hash::group_hash_axioms;

/// Milliseconds between two telemetry pushes, measured from the end of the
/// previous push.
pub const TELEMETRY_INTERVAL_MS: u64 = 1000;

/// Milliseconds one inbound read may wait before it counts as "no message
/// this tick".
pub const READ_TIMEOUT_MS: u64 = 500;

/// Payload byte sent in place of a volume when the application is not
/// currently producing audio.
pub const VOLUME_UNAVAILABLE: u8 = 255;

/// What one inbound command asks the embedding application to do.
pub enum Command {
    /// Answer a `GetVolume` request for a mapped key: query the volume of
    /// the mapped application and send back the response packet built by
    /// [`volume_response`].
    QueryVolume { key: u16, app: String },
    /// Carry out a `ChangeVolume` or `ForceVolume` request for a mapped
    /// key: adjust every matching audio session. No response is sent.
    AdjustVolume { key: u16, app: String, direction: Volume, force: bool },
    /// Nothing to do: an unmapped key, a telemetry echo, or no frame.
    Ignore,
}

/// The key identifier held in the first two payload bytes: byte 0 is the
/// low byte, byte 1 the high byte.
pub open spec fn spec_key_of(payload: Seq<u8>) -> u16 {
    ((payload[1] as int) * 256 + (payload[0] as int)) as u16
}

/// Read the key identifier out of a packet's payload.
pub fn key_of_packet(p: &Packet) -> (k: u16)
    requires
        p.wf(),
    ensures
        k == spec_key_of(p.payload()),
{
    let raw = p.raw();
    (raw[1] as u16) * 256 + (raw[0] as u16)
}

/// The command one decoded packet dispatches to, given the current key
/// mapping table.
///
/// A `GetVolume`, `ChangeVolume` or `ForceVolume` packet whose key is not
/// mapped is silently ignored, as is any other header.
pub open spec fn spec_dispatch(p: Packet, procs: Map<u16, String>) -> Command {
    match p.header {
        PacketHeader::GetVolume => {
            let key = spec_key_of(p.payload());
            if procs.contains_key(key) {
                Command::QueryVolume { key, app: procs[key] }
            } else {
                Command::Ignore
            }
        },
        PacketHeader::ChangeVolume | PacketHeader::ForceVolume => {
            let key = spec_key_of(p.payload());
            if procs.contains_key(key) {
                Command::AdjustVolume {
                    key,
                    app: procs[key],
                    direction: spec_volume_of(p.payload()[2]),
                    force: p.header == PacketHeader::ForceVolume,
                }
            } else {
                Command::Ignore
            }
        },
        _ => Command::Ignore,
    }
}

/// Dispatch one decoded packet against the current settings.
pub fn dispatch(p: &Packet, settings: &Settings) -> (c: Command)
    requires
        p.wf(),
    ensures
        c == spec_dispatch(*p, settings.proc_list@),
{
    match p.header {
        PacketHeader::GetVolume => {
            let key = key_of_packet(p);
            match settings.proc_list.get(&key) {
                Some(app) => Command::QueryVolume { key, app: app.clone() },
                None => Command::Ignore,
            }
        },
        PacketHeader::ChangeVolume | PacketHeader::ForceVolume => {
            let key = key_of_packet(p);
            match settings.proc_list.get(&key) {
                Some(app) => {
                    let raw = p.raw();
                    Command::AdjustVolume {
                        key,
                        app: app.clone(),
                        direction: Volume::from_u8(raw[2]),
                        force: p.header == PacketHeader::ForceVolume,
                    }
                },
                None => Command::Ignore,
            }
        },
        _ => Command::Ignore,
    }
}

/// Whether a telemetry push is due: the interval has elapsed since the last
/// push and the live configuration enables telemetry.
pub open spec fn spec_stats_due(elapsed_ms: u64, show_stats: bool) -> bool {
    show_stats && elapsed_ms >= TELEMETRY_INTERVAL_MS
}

/// Telemetry gating: with the flag off, no observation window of any length
/// contains a tick on which a stats push is due.
pub proof fn lemma_telemetry_gated(ticks: Seq<u64>)
    ensures
        forall|i: int| 0 <= i < ticks.len() ==> !spec_stats_due(ticks[i], false),
{
}

/// What one engine iteration decided.
pub struct TickOutcome {
    /// The command the inbound frame dispatched to.
    pub command: Command,
    /// Whether to sample and push telemetry now, resetting the timer.
    pub send_stats: bool,
}

/// Decide one engine iteration: dispatch the inbound packet, if any frame
/// was decoded this tick, and check whether a telemetry push is due.
pub fn engine_tick(inbound: &Option<Packet>, settings: &Settings, elapsed_ms: u64) -> (t:
    TickOutcome)
    requires
        inbound matches Some(p) ==> p.wf(),
    ensures
        t.command == match inbound {
            Some(p) => spec_dispatch(*p, settings.proc_list@),
            None => Command::Ignore,
        },
        t.send_stats == spec_stats_due(elapsed_ms, settings.show_stats),
        !settings.show_stats ==> !t.send_stats,
{
    let command = match inbound {
        Some(p) => dispatch(p, settings),
        None => Command::Ignore,
    };
    let send_stats = settings.show_stats && elapsed_ms >= TELEMETRY_INTERVAL_MS;
    TickOutcome { command, send_stats }
}

/// The response byte a volume query result maps to: the percentage itself,
/// or [`VOLUME_UNAVAILABLE`] when no matching session was found.
pub open spec fn spec_response_byte(volume: Option<u8>) -> u8 {
    match volume {
        Some(v) => v,
        None => VOLUME_UNAVAILABLE,
    }
}

/// Build the `GetVolume` response packet: the response byte for the query
/// result, followed by the raw bytes of the mapped application name.
pub fn volume_response(app: &String, volume: Option<u8>) -> (p: Packet)
    requires
        1 + encode_utf8(app@).len() <= PAYLOAD_LEN,
        volume matches Some(v) ==> v <= 100,
    ensures
        p.wf(),
        p.header == PacketHeader::GetVolume,
        p.payload() == pad_payload(seq![spec_response_byte(volume)] + encode_utf8(app@)),
{
    let byte: u8 = match volume {
        Some(v) => v,
        None => VOLUME_UNAVAILABLE,
    };
    let mut data: Vec<u8> = Vec::new();
    data.push(byte);
    let mut name_bytes = app.as_str().as_bytes_vec();
    data.append(&mut name_bytes);
    proof {
        assert(data@ =~= seq![spec_response_byte(volume)] + encode_utf8(app@));
    }
    Packet::new(PacketHeader::GetVolume, data)
}

} // verus!
