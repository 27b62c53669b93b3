//! The audio ports both plugins offer: one stereo main port on each side, processed
//! in place.
use vstd::prelude::*;

verus! {

/// What the host is told of an audio port.
#[derive(Clone, Copy, Debug)]
pub struct PortInfo {
    pub id: u32,
    pub name: &'static str,
    pub channel_count: u32,
    /// The port is the main port.
    pub main: bool,
    /// The port carries a stereo signal.
    pub stereo: bool,
    /// The port on the other side that shares its buffers, if any.
    pub in_place_pair: Option<u32>,
}

/// The number of audio ports on either side.
pub open spec fn port_count_spec() -> u32 {
    1
}

/// The number of audio ports on the input side or on the output side.
pub fn port_count(is_input: bool) -> (r: u32)
    ensures
        r == port_count_spec(),
{
    1
}

/// The port at a position, on either side: the main stereo port `main` with id 0,
/// two channels and the port of the same id as its in-place pair; nothing at any other
/// position.
pub fn port_info(index: u32, is_input: bool) -> (r: Option<PortInfo>)
    ensures
        r is Some <==> index < port_count_spec(),
        r matches Some(p) ==> {
            &&& p.id == 0
            &&& p.name@ == "main"@
            &&& p.channel_count == 2
            &&& p.main
            &&& p.stereo
            &&& p.in_place_pair == Some(0u32)
        },
{
    if index == 0 {
        Some(
            PortInfo {
                id: 0,
                name: "main",
                channel_count: 2,
                main: true,
                stereo: true,
                in_place_pair: Some(0),
            },
        )
    } else {
        None
    }
}

} // verus!
