//! Captured syscall events, as the kernel observer reports them: a closed
//! set of variants carrying the descriptor and the referenced memory
//! region, and the bridge rules that resolve each to a data payload, an
//! address event or noise.

use vstd::prelude::*;

use crate::FlowDirection;

verus! {

/// One captured syscall event with its timestamp.
#[derive(Clone, Copy, PartialEq, Eq, Structural, Debug)]
pub struct Parameters {
    pub data: Variant,
    pub ts: u64,
}

/// The closed set of observed syscalls: only what is needed to extract
/// payload bytes and correlate descriptors.
#[derive(Clone, Copy, PartialEq, Eq, Structural, Debug)]
pub enum Variant {
    Empty { ptr: u64, len: u64 },
    Bind { fd: u32, addr_ptr: u64, addr_len: u64 },
    Connect { fd: u32, addr_ptr: u64, addr_len: u64 },
    Accept { listen_on_fd: u32, addr_ptr: u64, addr_len_ptr: u64 },
    Write { fd: u32, data_ptr: u64, pad: u64 },
    Read { fd: u32, data_ptr: u64, pad: u64 },
    Send { fd: u32, data_ptr: u64, pad: u64 },
    Recv { fd: u32, data_ptr: u64, pad: u64 },
    GetRandom { fd: u32, data_ptr: u64, data_len: u64 },
    /// The first of the two distinguished socket-option probes.
    GetSockOptL1O4 { fd: u32, val_ptr: u64, len_ptr: u64 },
    /// Any other socket-option read.
    GetSockOptIrrelevant { fd: u32, val_ptr: u64, len_ptr: u64 },
}

/// The address of the memory region a captured event refers to.
pub open spec fn spec_variant_ptr(v: Variant) -> u64 {
    match v {
        Variant::Empty { ptr, .. } => ptr,
        Variant::Bind { addr_ptr, .. } => addr_ptr,
        Variant::Connect { addr_ptr, .. } => addr_ptr,
        Variant::Accept { addr_ptr, .. } => addr_ptr,
        Variant::Write { data_ptr, .. } => data_ptr,
        Variant::Read { data_ptr, .. } => data_ptr,
        Variant::Send { data_ptr, .. } => data_ptr,
        Variant::Recv { data_ptr, .. } => data_ptr,
        Variant::GetRandom { data_ptr, .. } => data_ptr,
        Variant::GetSockOptL1O4 { val_ptr, .. } => val_ptr,
        Variant::GetSockOptIrrelevant { val_ptr, .. } => val_ptr,
    }
}

impl Variant {
    /// The address of the memory region this event refers to.
    pub fn ptr(&self) -> (r: u64)
        ensures
            r == spec_variant_ptr(*self),
    {
        match self {
            Variant::Empty { ptr, .. } => *ptr,
            Variant::Bind { addr_ptr, .. } => *addr_ptr,
            Variant::Connect { addr_ptr, .. } => *addr_ptr,
            Variant::Accept { addr_ptr, .. } => *addr_ptr,
            Variant::Write { data_ptr, .. } => *data_ptr,
            Variant::Read { data_ptr, .. } => *data_ptr,
            Variant::Send { data_ptr, .. } => *data_ptr,
            Variant::Recv { data_ptr, .. } => *data_ptr,
            Variant::GetRandom { data_ptr, .. } => *data_ptr,
            Variant::GetSockOptL1O4 { val_ptr, .. } => *val_ptr,
            Variant::GetSockOptIrrelevant { val_ptr, .. } => *val_ptr,
        }
    }
}

/// What the event bridge does with one captured event.
#[derive(Clone, Copy, PartialEq, Eq, Structural, Debug)]
pub enum BridgeAction {
    /// Payload bytes flowed on a descriptor, in the given direction.
    DataPayload { fd: u32, direction: FlowDirection },
    /// An address became known for a descriptor.
    AddressEvent { fd: u32 },
    /// Randomness was drawn; recorded but carries no connection data.
    Random,
    /// Nothing relevant to data flow.
    Irrelevant,
}

/// The bridge rule: writes and sends are forward payload, reads and
/// receives backward payload; bind, connect and accept carry addresses;
/// everything else carries no connection data.
pub open spec fn spec_classify(v: Variant) -> BridgeAction {
    match v {
        Variant::Write { fd, .. } => BridgeAction::DataPayload {
            fd,
            direction: FlowDirection::Forward,
        },
        Variant::Send { fd, .. } => BridgeAction::DataPayload {
            fd,
            direction: FlowDirection::Forward,
        },
        Variant::Read { fd, .. } => BridgeAction::DataPayload {
            fd,
            direction: FlowDirection::Backward,
        },
        Variant::Recv { fd, .. } => BridgeAction::DataPayload {
            fd,
            direction: FlowDirection::Backward,
        },
        Variant::Bind { fd, .. } => BridgeAction::AddressEvent { fd },
        Variant::Connect { fd, .. } => BridgeAction::AddressEvent { fd },
        Variant::Accept { listen_on_fd, .. } => BridgeAction::AddressEvent { fd: listen_on_fd },
        Variant::GetRandom { .. } => BridgeAction::Random,
        Variant::Empty { .. } => BridgeAction::Irrelevant,
        Variant::GetSockOptL1O4 { .. } => BridgeAction::Irrelevant,
        Variant::GetSockOptIrrelevant { .. } => BridgeAction::Irrelevant,
    }
}

/// Resolve one captured event to what the recorder does with it.
pub fn classify(v: &Variant) -> (r: BridgeAction)
    ensures
        r == spec_classify(*v),
{
    match v {
        Variant::Write { fd, .. } => BridgeAction::DataPayload {
            fd: *fd,
            direction: FlowDirection::Forward,
        },
        Variant::Send { fd, .. } => BridgeAction::DataPayload {
            fd: *fd,
            direction: FlowDirection::Forward,
        },
        Variant::Read { fd, .. } => BridgeAction::DataPayload {
            fd: *fd,
            direction: FlowDirection::Backward,
        },
        Variant::Recv { fd, .. } => BridgeAction::DataPayload {
            fd: *fd,
            direction: FlowDirection::Backward,
        },
        Variant::Bind { fd, .. } => BridgeAction::AddressEvent { fd: *fd },
        Variant::Connect { fd, .. } => BridgeAction::AddressEvent { fd: *fd },
        Variant::Accept { listen_on_fd, .. } => BridgeAction::AddressEvent { fd: *listen_on_fd },
        Variant::GetRandom { .. } => BridgeAction::Random,
        Variant::Empty { .. } => BridgeAction::Irrelevant,
        Variant::GetSockOptL1O4 { .. } => BridgeAction::Irrelevant,
        Variant::GetSockOptIrrelevant { .. } => BridgeAction::Irrelevant,
    }
}

} // verus!
