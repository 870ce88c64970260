use vstd::prelude::*;

verus! {

/// The IPv6 address and port the listening socket binds.
#[derive(Clone, Copy, Debug, PartialEq, Eq)]
pub struct ListenAddress {
    /// The address as eight 16-bit segments, most significant first.
    pub segments: [u16; 8],
    pub port: u16,
}

/// `::1`, the loopback interface only.
pub open spec fn loopback() -> Seq<u16> {
    seq![0, 0, 0, 0, 0, 0, 0, 1]
}

/// `::`, every interface.
pub open spec fn unspecified() -> Seq<u16> {
    seq![0, 0, 0, 0, 0, 0, 0, 0]
}

/// The address to bind for `listen_port`: the loopback interface alone when
/// `local_only` holds, else every interface.
pub fn listen_address(listen_port: u16, local_only: bool) -> (r: ListenAddress)
    ensures
        r.port == listen_port,
        r.segments@ == if local_only {
            loopback()
        } else {
            unspecified()
        },
{
    let segments: [u16; 8] = if local_only {
        [0, 0, 0, 0, 0, 0, 0, 1]
    } else {
        [0, 0, 0, 0, 0, 0, 0, 0]
    };
    proof {
        if local_only {
            assert(segments@ =~= loopback());
        } else {
            assert(segments@ =~= unspecified());
        }
    }
    ListenAddress { segments, port: listen_port }
}

} // verus!
