use vstd::prelude::*;
use crate::bytes_util::clone_bytes;

verus! {

/// Sequence number of an instruction within its asset.
#[derive(Debug, Clone, Copy, PartialEq, Eq, Structural)]
pub struct InstructionId(pub u64);

/// An owned token identifier: opaque bytes.
#[derive(Clone, Debug, Hash)]
pub struct TokenId(pub Vec<u8>);

impl View for TokenId {
    type V = Seq<u8>;

    open spec fn view(&self) -> Seq<u8> {
        self.0@
    }
}

impl TokenId {
    pub fn as_bytes(&self) -> (r: &[u8])
        ensures
            r@ == self@,
    {
        self.0.as_slice()
    }

    /// A fresh token id holding the same bytes.
    pub fn duplicate(&self) -> (r: TokenId)
        ensures
            r@ == self@,
    {
        TokenId(clone_bytes(&self.0))
    }
}

/// The identity an instruction acts on behalf of.
#[derive(Debug)]
pub struct InstructionCaller {
    pub owner_token_id: TokenId,
}

impl InstructionCaller {
    pub fn owner_token_id(&self) -> (r: &TokenId)
        ensures
            r@ == self.owner_token_id@,
    {
        &self.owner_token_id
    }
}

/// The template an instruction targets. Only the editable-metadata template
/// exists; an unrecognised name falls back to it.
#[derive(Copy, Clone, Debug, PartialEq, Eq, Structural)]
pub enum TemplateId {
    EditableMetadata,
}

impl TemplateId {
    pub fn parse(s: &str) -> (r: TemplateId)
        ensures
            r == TemplateId::EditableMetadata,
    {
        let _ = s;
        TemplateId::EditableMetadata
    }
}

} // verus!
