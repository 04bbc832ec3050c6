use vstd::prelude::*;
use crate::errors::DigitalAssetError;

verus! {

/// The kind of a HotStuff wire message. `Genesis` is the special type carried
/// only by the bootstrap certificate.
#[derive(Debug, Copy, Clone, Eq, PartialEq, Structural, Hash)]
pub enum HotStuffMessageType {
    NewView,
    Prepare,
    PreCommit,
    Commit,
    Decide,
    Genesis,
}

/// The byte encoding of each message type.
pub open spec fn message_type_u8(t: HotStuffMessageType) -> u8 {
    match t {
        HotStuffMessageType::NewView => 1u8,
        HotStuffMessageType::Prepare => 2u8,
        HotStuffMessageType::PreCommit => 3u8,
        HotStuffMessageType::Commit => 4u8,
        HotStuffMessageType::Decide => 5u8,
        HotStuffMessageType::Genesis => 255u8,
    }
}

impl HotStuffMessageType {
    pub fn as_u8(&self) -> (r: u8)
        ensures
            r == message_type_u8(*self),
    {
        match self {
            HotStuffMessageType::NewView => 1,
            HotStuffMessageType::Prepare => 2,
            HotStuffMessageType::PreCommit => 3,
            HotStuffMessageType::Commit => 4,
            HotStuffMessageType::Decide => 5,
            HotStuffMessageType::Genesis => 255,
        }
    }

    /// Decodes a byte; `Ok` exactly on the bytes `as_u8` produces.
    pub fn try_from_u8(value: u8) -> (r: Result<HotStuffMessageType, DigitalAssetError>)
        ensures
            value == 1 ==> (r matches Ok(t) && t == HotStuffMessageType::NewView),
            value == 2 ==> (r matches Ok(t) && t == HotStuffMessageType::Prepare),
            value == 3 ==> (r matches Ok(t) && t == HotStuffMessageType::PreCommit),
            value == 4 ==> (r matches Ok(t) && t == HotStuffMessageType::Commit),
            value == 5 ==> (r matches Ok(t) && t == HotStuffMessageType::Decide),
            value == 255 ==> (r matches Ok(t) && t == HotStuffMessageType::Genesis),
            r matches Ok(t) ==> message_type_u8(t) == value,
            r is Err <==> (value != 1 && value != 2 && value != 3 && value != 4 && value != 5
                && value != 255),
            r is Err ==> r == Result::<HotStuffMessageType, DigitalAssetError>::Err(
                DigitalAssetError::InvalidMessageType,
            ),
    {
        match value {
            1 => Ok(HotStuffMessageType::NewView),
            2 => Ok(HotStuffMessageType::Prepare),
            3 => Ok(HotStuffMessageType::PreCommit),
            4 => Ok(HotStuffMessageType::Commit),
            5 => Ok(HotStuffMessageType::Decide),
            255 => Ok(HotStuffMessageType::Genesis),
            _ => Err(DigitalAssetError::InvalidMessageType),
        }
    }
}

/// Decoding inverts encoding: `try_from_u8(as_u8(t))` gives back `t`.
pub proof fn lemma_message_type_round_trip(t: HotStuffMessageType, u: HotStuffMessageType)
    requires
        message_type_u8(t) == message_type_u8(u),
    ensures
        t == u,
{
}

} // verus!
