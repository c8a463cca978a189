use vstd::prelude::*;

use crate::frame::DmxFrame;
use crate::mapping::UNIVERSE_SIZE;

verus! {

/// artnet_protocol's `Error`, carried without looking inside.
#[verifier::external_type_specification]
#[verifier::external_body]
pub struct ExArtnetError(artnet_protocol::Error);

/// The bytes of an ArtDmx (`Output`) packet for `universe` carrying `data`,
/// with protocol version 14 and sequence and physical port 0: the `Art-Net`
/// header, the opcode `0x5000` little-endian, the version, sequence and
/// physical bytes, the port address little-endian, the data length rounded up
/// to even big-endian, then the data, padded with one zero byte if its length
/// is odd.
pub open spec fn art_dmx_packet(universe: u8, data: Seq<u8>) -> Seq<u8> {
    let len: int = if data.len() % 2 == 1 {
        data.len() as int + 1
    } else {
        data.len() as int
    };
    let padded = if data.len() % 2 == 1 {
        data.push(0u8)
    } else {
        data
    };
    seq![0x41u8, 0x72, 0x74, 0x2d, 0x4e, 0x65, 0x74, 0x00] + seq![0x00u8, 0x50] + seq![0x00u8, 14]
        + seq![0x00u8, 0x00] + seq![universe, 0x00u8] + seq![(len / 256) as u8, (len % 256) as u8]
        + padded
}

/// Relies on artnet_protocol's `ArtCommand::write_to_buffer` for an
/// `ArtCommand::Output` with default fields but for the data and a port
/// address made from the universe by `PortAddress::from(u8)`: it fails exactly
/// when the data is empty or longer than 512 bytes, and otherwise writes the
/// packet that `art_dmx_packet` describes.
#[verifier::external_body]
fn write_art_dmx(universe: u8, data: Vec<u8>) -> (r: Result<Vec<u8>, artnet_protocol::Error>)
    ensures
        (r is Ok) <==> (1 <= data@.len() <= 512),
        (r is Ok) ==> r->Ok_0@ == art_dmx_packet(universe, data@),
{
    artnet_protocol::ArtCommand::Output(
        artnet_protocol::Output {
            data: data.into(),
            port_address: universe.into(),
            ..Default::default()
        },
    ).write_to_buffer()
}

/// Why a payload cannot be sent.
#[derive(Debug, Clone, Copy, PartialEq, Eq)]
pub enum OutputError {
    /// The payload is empty or longer than a universe.
    InvalidLength,
}

/// Serializes the payload of one universe into a protocol packet.
pub fn encode_output(universe: u8, payload: Vec<u8>) -> (r: Result<Vec<u8>, OutputError>)
    ensures
        (r is Ok) <==> (1 <= payload@.len() <= UNIVERSE_SIZE),
        (r is Ok) ==> r->Ok_0@ == art_dmx_packet(universe, payload@),
        (r is Err) ==> r->Err_0 == OutputError::InvalidLength,
{
    match write_art_dmx(universe, payload) {
        Ok(bytes) => Ok(bytes),
        Err(_) => Err(OutputError::InvalidLength),
    }
}

/// One protocol packet per universe present in the frame, in ascending order
/// of universe.
pub fn frame_packets(frame: &DmxFrame) -> (r: Vec<(u8, Vec<u8>)>)
    requires
        frame.wf(),
    ensures
        forall|k: int|
            0 <= k < r.len() ==> frame@.contains_key((#[trigger] r[k]).0 as int) && r[k].1@
                == art_dmx_packet(r[k].0, frame@[r[k].0 as int]),
        forall|j: int, k: int| 0 <= j < k < r.len() ==> r[j].0 < r[k].0,
        forall|u: int|
            #[trigger] frame@.contains_key(u) ==> exists|k: int|
                0 <= k < r.len() && (#[trigger] r[k]).0 == u,
{
    proof {
        frame.lemma_universes_in_range();
    }
    let mut r: Vec<(u8, Vec<u8>)> = Vec::new();
    let mut u: usize = 0;
    while u < 256
        invariant
            frame.wf(),
            u <= 256,
            forall|k: int|
                0 <= k < r.len() ==> frame@.contains_key((#[trigger] r[k]).0 as int) && r[k].1@
                    == art_dmx_packet(r[k].0, frame@[r[k].0 as int]) && r[k].0 < u,
            forall|j: int, k: int| 0 <= j < k < r.len() ==> r[j].0 < r[k].0,
            forall|v: int|
                0 <= v < u && #[trigger] frame@.contains_key(v) ==> exists|k: int|
                    0 <= k < r.len() && (#[trigger] r[k]).0 == v,
        decreases 256 - u,
    {
        let universe = u as u8;
        if frame.contains_universe(universe) {
            let data = frame.universe_data(universe);
            match encode_output(universe, data) {
                Ok(packet) => {
                    let ghost before = r@;
                    r.push((universe, packet));
                    proof {
                        assert forall|v: int|
                            0 <= v < u + 1 && #[trigger] frame@.contains_key(v) implies exists|k: int|
                            0 <= k < r.len() && (#[trigger] r[k]).0 == v by {
                            if v == u {
                                assert(r[r.len() - 1].0 == v);
                            } else {
                                let k = choose|k: int| 0 <= k < before.len() && (#[trigger] before[k]).0 == v;
                                assert(r[k].0 == v);
                            }
                        }
                    }
                },
                Err(_) => {},
            }
        }
        u = u + 1;
    }
    r
}

} // verus!
