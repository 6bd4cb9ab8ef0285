//! What the service registry decides: the service mode, the status it
//! reports, the listening flag and the endpoints a configuration sets.
use vstd::prelude::*;
use crate::error::VoiceError;

verus! {

/// Where inference runs.
#[derive(Clone, Copy, Debug, PartialEq, Eq, Structural)]
pub enum ServiceMode {
    /// Remote HTTP services.
    Remote,
    /// On-device inference.
    Embedded,
}

impl Default for ServiceMode {
    fn default() -> (r: Self)
        ensures
            r == ServiceMode::Remote,
    {
        ServiceMode::Remote
    }
}

impl ServiceMode {
    pub open spec fn spec_name(self) -> Seq<char> {
        match self {
            ServiceMode::Remote => "remote"@,
            ServiceMode::Embedded => "embedded"@,
        }
    }

    /// The mode's name as reported to the caller.
    pub fn name(&self) -> (r: &'static str)
        ensures
            r@ == self.spec_name(),
    {
        match self {
            ServiceMode::Remote => "remote",
            ServiceMode::Embedded => "embedded",
        }
    }
}

/// The endpoints a configuration command sets.
#[derive(Clone, Debug)]
pub struct ServiceConfig {
    pub asr_url: String,
    pub llm_url: String,
    pub tts_url: String,
}

/// Readiness of the services as reported to the caller.
#[derive(Clone, Debug)]
pub struct ServiceStatus {
    pub mode: String,
    pub asr_ready: bool,
    pub llm_ready: bool,
    pub tts_ready: bool,
}

impl ServiceStatus {
    /// The status in `mode`: remote services count as ready, since they are
    /// only reached when used.
    pub fn for_mode(mode: ServiceMode) -> (r: ServiceStatus)
        ensures
            r.mode@ == mode.spec_name(),
            r.asr_ready && r.llm_ready && r.tts_ready,
    {
        ServiceStatus { mode: mode.name().to_string(), asr_ready: true, llm_ready: true, tts_ready: true }
    }
}

/// Whether voice input is being accepted.
#[derive(Debug)]
pub struct ListeningFlag {
    on: bool,
}

impl ListeningFlag {
    pub closed spec fn spec_on(&self) -> bool {
        self.on
    }

    /// Not listening.
    pub fn new() -> (r: Self)
        ensures
            !r.spec_on(),
    {
        ListeningFlag { on: false }
    }

    /// Starts listening; starting again while listening is an error and
    /// changes nothing.
    pub fn start_listening(&mut self) -> (r: Result<(), VoiceError>)
        ensures
            old(self).spec_on() ==> r == Err::<(), VoiceError>(VoiceError::AlreadyListening),
            !old(self).spec_on() ==> r is Ok,
            final(self).spec_on(),
    {
        if self.on {
            Err(VoiceError::AlreadyListening)
        } else {
            self.on = true;
            Ok(())
        }
    }

    /// Stops listening, whether or not it was.
    pub fn stop_listening(&mut self)
        ensures
            !final(self).spec_on(),
    {
        self.on = false;
    }

    pub fn is_listening(&self) -> (r: bool)
        ensures
            r == self.spec_on(),
    {
        self.on
    }
}

} // verus!
