//! The well-known guest graphics endpoints.
//!
//! An endpoint is a named guest-side graphics service reachable over the
//! shared transport device. The set is fixed, and higher OpenGL ES versions
//! are strictly preferred when present.

use vstd::prelude::*;

verus! {

/// One guest graphics endpoint, by the OpenGL ES version it serves.
#[derive(Clone, Copy, Debug, PartialEq, Eq, Structural)]
pub enum Endpoint {
    Es3,
    Es2,
    Es1,
}

impl Endpoint {
    /// The OpenGL ES version this endpoint serves.
    pub open spec fn spec_version(self) -> u32 {
        match self {
            Endpoint::Es3 => 3,
            Endpoint::Es2 => 2,
            Endpoint::Es1 => 1,
        }
    }

    pub fn version(self) -> (r: u32)
        ensures
            r == self.spec_version(),
    {
        match self {
            Endpoint::Es3 => 3,
            Endpoint::Es2 => 2,
            Endpoint::Es1 => 1,
        }
    }

    /// The service name written on a new channel as the handshake, as bytes:
    /// `/opengles3`, `/opengles2`, or `/opengles` for the ES 1 service.
    pub open spec fn spec_name_bytes(self) -> Seq<u8> {
        let stem = seq![47u8, 111u8, 112u8, 101u8, 110u8, 103u8, 108u8, 101u8, 115u8];
        match self {
            Endpoint::Es3 => stem + seq![51u8],
            Endpoint::Es2 => stem + seq![50u8],
            Endpoint::Es1 => stem,
        }
    }

    pub fn name_bytes(self) -> (r: Vec<u8>)
        ensures
            r@ == self.spec_name_bytes(),
    {
        let mut out: Vec<u8> = Vec::new();
        out.push(47);
        out.push(111);
        out.push(112);
        out.push(101);
        out.push(110);
        out.push(103);
        out.push(108);
        out.push(101);
        out.push(115);
        match self {
            Endpoint::Es3 => out.push(51),
            Endpoint::Es2 => out.push(50),
            Endpoint::Es1 => (),
        }
        proof {
            assert(out@ =~= self.spec_name_bytes());
        }
        out
    }
}

/// The fixed negotiation order: every connect attempt walks this list from
/// the front and stops at the first endpoint that accepts.
pub open spec fn spec_preference_order() -> Seq<Endpoint> {
    seq![Endpoint::Es3, Endpoint::Es2, Endpoint::Es1]
}

pub fn preference_order() -> (r: Vec<Endpoint>)
    ensures
        r@ == spec_preference_order(),
{
    let mut out: Vec<Endpoint> = Vec::new();
    out.push(Endpoint::Es3);
    out.push(Endpoint::Es2);
    out.push(Endpoint::Es1);
    proof {
        assert(out@ =~= spec_preference_order());
    }
    out
}

/// Preference follows the version order exactly: an endpoint stands before
/// another in the negotiation order if and only if it serves the higher
/// OpenGL ES version.
pub proof fn lemma_preference_is_version_order()
    ensures
        forall|i: int, j: int|
            0 <= i < j < spec_preference_order().len()
                ==> #[trigger] spec_preference_order()[i].spec_version()
                > #[trigger] spec_preference_order()[j].spec_version(),
{
}

} // verus!
