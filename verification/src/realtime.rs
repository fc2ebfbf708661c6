//! The entry point: an identity and a configuration make a voice client.

use vstd::prelude::*;

use crate::error::VoiceError;
use crate::identity::DeviceIdentity;
use crate::ota::OtaConfig;
use crate::supervisor::{State, VoiceSupervisor};

verus! {

/// A realtime voice client that has not started yet.
pub struct RealtimeVoice {
    pub identity: DeviceIdentity,
    pub ota: OtaConfig,
}

impl RealtimeVoice {
    /// Builds the client.
    pub fn from_ota(identity: DeviceIdentity, ota: OtaConfig) -> (r: Result<Self, VoiceError>)
        ensures
            r == Ok::<RealtimeVoice, VoiceError>(RealtimeVoice { identity, ota }),
    {
        Ok(RealtimeVoice { identity, ota })
    }

    /// The supervisor that runs the client until it is told to stop.
    pub fn supervise(self, has_audio: bool, now: u64) -> (s: VoiceSupervisor)
        ensures
            s.wf(),
            s.identity == self.identity,
            s.ota == self.ota,
            s.state == State::SelectTransport,
            s.has_audio == has_audio,
            s.backoff.attempt == 0,
            s.mqtt_circuit.open_count == 0,
            s.mqtt_circuit.cooldown_until is None,
            s.mqtt_circuit.failures@ == Seq::<u64>::empty(),
            s.heartbeat == now,
    {
        VoiceSupervisor::new(self.identity, self.ota, has_audio, now)
    }
}

} // verus!
