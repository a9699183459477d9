use vstd::prelude::*;
use crate::hresult::CLASS_E_CLASSNOTAVAILABLE;

verus! {

/// The class identifier under which the thumbnail provider is registered,
/// `{D3A2F1B2-7E8B-4C9D-A3D1-2F0B3C4D5E6F}`, as a 128-bit number.
pub const PROVIDER_CLSID: u128 = 0xD3A2F1B2_7E8B_4C9D_A3D1_2F0B3C4D5E6F;

/// The answer to a request for a class object.
#[derive(Clone, Copy, Debug, PartialEq, Eq)]
pub enum ClassObjectReply {
    /// Hand out the class factory of the thumbnail provider.
    ProvideFactory,
    /// Refuse with this `HRESULT`.
    Refuse { hresult: i32 },
}

/// The factory is handed out for the provider's class identifier and for no
/// other; any other class is refused with `CLASS_E_CLASSNOTAVAILABLE`.
pub fn class_object_reply(clsid: u128) -> (reply: ClassObjectReply)
    ensures
        clsid == PROVIDER_CLSID ==> reply == ClassObjectReply::ProvideFactory,
        clsid != PROVIDER_CLSID ==> reply == (ClassObjectReply::Refuse {
            hresult: CLASS_E_CLASSNOTAVAILABLE,
        }),
        (reply is ProvideFactory) <==> clsid == 0xD3A2F1B2_7E8B_4C9D_A3D1_2F0B3C4D5E6Fu128,
        clsid != 0xD3A2F1B2_7E8B_4C9D_A3D1_2F0B3C4D5E6Fu128 ==> reply == (ClassObjectReply::Refuse {
            hresult: -2147221231i32,
        }),
{
    if clsid == PROVIDER_CLSID {
        ClassObjectReply::ProvideFactory
    } else {
        ClassObjectReply::Refuse { hresult: CLASS_E_CLASSNOTAVAILABLE }
    }
}

} // verus!
