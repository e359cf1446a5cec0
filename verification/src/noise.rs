//! Secure-channel tracking.  The handshake walks fixed phases; once the
//! transport phase is reached, per-direction nonces advance monotonically,
//! one per frame, whether or not the frame authenticates.  A failure during
//! the handshake is fatal to the channel; a failure after it is local to
//! the one frame.

use vstd::prelude::*;

use crate::FlowDirection;

verus! {

/// Where the secure channel stands.
#[derive(Clone, Copy, PartialEq, Eq, Structural, Debug)]
pub enum Phase {
    /// Nothing exchanged yet.
    Init,
    /// Ephemeral keys are being exchanged.
    ExchangeEphemeral,
    /// Static keys and authentication are being exchanged.
    ExchangeStatic,
    /// Session keys are fixed; payload frames flow.
    Transport,
    /// The handshake failed; no further decoding is attempted beyond raw
    /// capture.
    Failed,
}

/// What became of one post-handshake frame.
#[derive(Clone, Copy, PartialEq, Eq, Structural, Debug)]
pub enum FrameOutcome {
    /// The frame authenticated and decrypted.
    Decoded,
    /// The frame failed authentication; it is recorded raw and the stream
    /// continues.
    RecordedRaw,
}

/// The handshake phase after one handshake message: phases advance one at
/// a time; any fault is fatal to the channel.
pub open spec fn spec_handshake_step(p: Phase, ok: bool) -> Phase {
    if !ok {
        Phase::Failed
    } else {
        match p {
            Phase::Init => Phase::ExchangeEphemeral,
            Phase::ExchangeEphemeral => Phase::ExchangeStatic,
            Phase::ExchangeStatic => Phase::Transport,
            Phase::Transport => Phase::Transport,
            Phase::Failed => Phase::Failed,
        }
    }
}

/// One connection's secure channel: its phase and the per-direction frame
/// nonces, fixed at the transport transition.
pub struct SecureChannel {
    pub phase: Phase,
    pub fwd_nonce: u64,
    pub bwd_nonce: u64,
}

impl SecureChannel {
    /// A channel before any handshake traffic.
    pub fn new() -> (r: SecureChannel)
        ensures
            r.phase == Phase::Init,
            r.fwd_nonce == 0,
            r.bwd_nonce == 0,
    {
        SecureChannel { phase: Phase::Init, fwd_nonce: 0, bwd_nonce: 0 }
    }

    /// Track one handshake message; `ok` says whether its expected form
    /// parsed and validated.  A failure here is fatal to the channel.
    pub fn on_handshake(&mut self, ok: bool)
        requires
            old(self).phase != Phase::Transport,
        ensures
            final(self).phase == spec_handshake_step(old(self).phase, ok),
            final(self).fwd_nonce == old(self).fwd_nonce,
            final(self).bwd_nonce == old(self).bwd_nonce,
    {
        if !ok {
            self.phase = Phase::Failed;
            return ;
        }
        self.phase = match self.phase {
            Phase::Init => Phase::ExchangeEphemeral,
            Phase::ExchangeEphemeral => Phase::ExchangeStatic,
            Phase::ExchangeStatic => Phase::Transport,
            Phase::Transport => Phase::Transport,
            Phase::Failed => Phase::Failed,
        };
    }

    /// Track one post-handshake frame: the direction's nonce advances
    /// exactly once whatever the outcome; an authentication failure is
    /// local to this frame and the channel stays in transport.
    pub fn on_transport_frame(&mut self, direction: FlowDirection, auth_ok: bool) -> (r:
        FrameOutcome)
        requires
            old(self).phase == Phase::Transport,
            direction is Forward ==> old(self).fwd_nonce < u64::MAX,
            direction is Backward ==> old(self).bwd_nonce < u64::MAX,
        ensures
            final(self).phase == Phase::Transport,
            r == (if auth_ok {
                FrameOutcome::Decoded
            } else {
                FrameOutcome::RecordedRaw
            }),
            match direction {
                FlowDirection::Forward => final(self).fwd_nonce == old(self).fwd_nonce + 1
                    && final(self).bwd_nonce == old(self).bwd_nonce,
                FlowDirection::Backward => final(self).bwd_nonce == old(self).bwd_nonce + 1
                    && final(self).fwd_nonce == old(self).fwd_nonce,
            },
    {
        match direction {
            FlowDirection::Forward => {
                self.fwd_nonce = self.fwd_nonce + 1;
            },
            FlowDirection::Backward => {
                self.bwd_nonce = self.bwd_nonce + 1;
            },
        }
        if auth_ok {
            FrameOutcome::Decoded
        } else {
            FrameOutcome::RecordedRaw
        }
    }
}

} // verus!
