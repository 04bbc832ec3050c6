//! Test-support collaborators: the in-memory stand-ins the consensus tests
//! wire the worker up with.

use vstd::prelude::*;
use crate::errors::DigitalAssetError;
use crate::instructions::Instruction;
use crate::models::committee::Committee;
use crate::models::payload::{Payload, SimplePayload};
use crate::services::signing::SigningService;

verus! {

/// An event the worker can publish; events are duplicated into observers.
pub trait Event: Sized {
    fn duplicate(&self) -> Self;
}

/// A mempool that accepts everything and holds nothing.
#[derive(Debug, Clone, Copy)]
pub struct MockMempoolService {}

impl MockMempoolService {
    pub fn submit_instruction(&mut self, instruction: Instruction) -> (r: Result<
        (),
        DigitalAssetError,
    >)
        ensures
            r is Ok,
    {
        let _ = instruction;
        Ok(())
    }

    pub fn read_block(&self, limit: usize) -> (r: Result<Vec<Instruction>, DigitalAssetError>)
        ensures
            r matches Ok(v) && v@.len() == 0,
    {
        let _ = limit;
        Ok(Vec::new())
    }

    pub fn remove_instructions(&mut self, instructions: &Vec<Instruction>) -> (r: Result<
        (),
        DigitalAssetError,
    >)
        ensures
            r is Ok,
    {
        let _ = instructions;
        Ok(())
    }

    pub fn size(&self) -> (r: usize)
        ensures
            r == 0,
    {
        0
    }
}

pub fn create_mempool_mock() -> (r: MockMempoolService) {
    MockMempoolService {  }
}

/// A payload provider that always serves copies of one fixed payload.
#[derive(Debug)]
pub struct MockStaticPayloadProvider<P: Payload> {
    pub static_payload: P,
}

impl<P: Payload> MockStaticPayloadProvider<P> {
    pub fn create_payload(&self) -> (r: Result<P, DigitalAssetError>)
        ensures
            r matches Ok(p) && p.spec_hash() == self.static_payload.spec_hash()
                && p.spec_is_empty() == self.static_payload.spec_is_empty()
                && p.spec_shard_keys() == self.static_payload.spec_shard_keys(),
    {
        Ok(self.static_payload.duplicate())
    }

    pub fn create_genesis_payload(&self) -> (r: P)
        ensures
            r.spec_hash() == self.static_payload.spec_hash(),
            r.spec_is_empty() == self.static_payload.spec_is_empty(),
            r.spec_shard_keys() == self.static_payload.spec_shard_keys(),
    {
        self.static_payload.duplicate()
    }

    pub fn get_payload_queue(&self) -> (r: usize)
        ensures
            r == 1,
    {
        1
    }
}

pub fn mock_static_payload_provider<P: Payload>(static_payload: P) -> (r: MockStaticPayloadProvider<
    P,
>)
    ensures
        r.static_payload == static_payload,
{
    MockStaticPayloadProvider { static_payload }
}

/// The default provider: an empty payload.
pub fn mock_payload_provider() -> (r: MockStaticPayloadProvider<SimplePayload>)
    ensures
        r.static_payload.spec_is_empty(),
{
    MockStaticPayloadProvider { static_payload: SimplePayload::Empty }
}

/// Collects published events in order.
#[derive(Debug)]
pub struct MockEventsPublisher<TEvent: Event> {
    pub events: Vec<TEvent>,
}

impl<TEvent: Event> MockEventsPublisher<TEvent> {
    pub fn new() -> (r: MockEventsPublisher<TEvent>)
        ensures
            r.events@.len() == 0,
    {
        MockEventsPublisher { events: Vec::new() }
    }

    pub fn publish(&mut self, event: TEvent)
        ensures
            final(self).events@ == old(self).events@.push(event),
    {
        self.events.push(event)
    }

    pub fn to_vec(&self) -> (r: Vec<TEvent>)
        ensures
            r@.len() == self.events@.len(),
    {
        let mut r: Vec<TEvent> = Vec::new();
        let mut i: usize = 0;
        while i < self.events.len()
            invariant
                i <= self.events@.len(),
                r@.len() == i,
            decreases self.events@.len() - i,
        {
            r.push(self.events[i].duplicate());
            i = i + 1;
        }
        r
    }
}

pub fn mock_events_publisher<TEvent: Event>() -> (r: MockEventsPublisher<TEvent>)
    ensures
        r.events@.len() == 0,
{
    MockEventsPublisher::new()
}

/// A base-layer client with no base layer behind it.
#[derive(Debug, Clone, Copy)]
pub struct MockBaseNodeClient {}

pub fn mock_base_node_client() -> (r: MockBaseNodeClient) {
    MockBaseNodeClient {  }
}

/// A committee manager pinned to one committee.
#[derive(Debug)]
pub struct MockCommitteeManager {
    pub committee: Committee,
}

impl MockCommitteeManager {
    pub fn current_committee(&self) -> (r: Result<&Committee, DigitalAssetError>)
        ensures
            r matches Ok(c) && c.members@ == self.committee.members@,
    {
        Ok(&self.committee)
    }
}

/// A payload processor that accepts every payload.
#[derive(Debug, Clone, Copy)]
pub struct MockPayloadProcessor {}

impl MockPayloadProcessor {
    pub fn process_payload<P: Payload>(&mut self, payload: &P) -> (r: Result<
        (),
        DigitalAssetError,
    >)
        ensures
            r is Ok,
    {
        let _ = payload;
        Ok(())
    }
}

pub fn mock_payload_processor() -> (r: MockPayloadProcessor) {
    MockPayloadProcessor {  }
}

/// The signing service as the tests wire it up; signing is deterministic,
/// so the real service doubles as its own mock.
pub type MockSigningService = SigningService;

} // verus!
