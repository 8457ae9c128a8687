//! What an act may attach to the diagnostics of its run.
use vstd::prelude::*;
use vstd::string::StringExecFns;

verus! {

/// How long the events of a run are kept.
#[derive(Clone, Copy, Debug, PartialEq, Eq, Structural)]
pub enum DiagnosticAdmissionProfile {
    ProductionDurable,
    SinkOnlyVolatile,
}

impl DiagnosticAdmissionProfile {
    pub open spec fn spec_name(self) -> &'static str {
        match self {
            DiagnosticAdmissionProfile::ProductionDurable => "ProductionDurable",
            DiagnosticAdmissionProfile::SinkOnlyVolatile => "SinkOnlyVolatile",
        }
    }

    pub fn name(self) -> (name: &'static str)
        ensures
            name == self.spec_name(),
    {
        match self {
            DiagnosticAdmissionProfile::ProductionDurable => "ProductionDurable",
            DiagnosticAdmissionProfile::SinkOnlyVolatile => "SinkOnlyVolatile",
        }
    }
}

/// Which events of an act its sink receives.
#[derive(Clone, Copy, Debug, PartialEq, Eq, Structural)]
pub struct DiagnosticCaptureConfig {
    pub agent_messages: bool,
    pub plans: bool,
    pub tool_calls: bool,
    pub result_validation: bool,
    pub usage: bool,
    pub custom_events: bool,
    pub tool_inputs: bool,
    pub tool_outputs: bool,
}

impl DiagnosticCaptureConfig {
    /// Captures nothing that can be left out.
    pub open spec fn nothing() -> DiagnosticCaptureConfig {
        DiagnosticCaptureConfig {
            agent_messages: false,
            plans: false,
            tool_calls: false,
            result_validation: false,
            usage: false,
            custom_events: false,
            tool_inputs: false,
            tool_outputs: false,
        }
    }

    #[allow(clippy::too_many_arguments)]
    pub fn new(
        agent_messages: bool,
        plans: bool,
        tool_calls: bool,
        result_validation: bool,
        usage: bool,
        custom_events: bool,
        tool_inputs: bool,
        tool_outputs: bool,
    ) -> (capture: Self)
        ensures
            capture == (DiagnosticCaptureConfig {
                agent_messages,
                plans,
                tool_calls,
                result_validation,
                usage,
                custom_events,
                tool_inputs,
                tool_outputs,
            }),
    {
        DiagnosticCaptureConfig {
            agent_messages,
            plans,
            tool_calls,
            result_validation,
            usage,
            custom_events,
            tool_inputs,
            tool_outputs,
        }
    }
}

impl Default for DiagnosticCaptureConfig {
    fn default() -> (capture: Self)
        ensures
            capture == DiagnosticCaptureConfig::nothing(),
    {
        DiagnosticCaptureConfig::new(false, false, false, false, false, false, false, false)
    }
}

/// What an act asks of the diagnostics: what to capture, and the sink to hand it to.
#[derive(Debug, PartialEq, Eq)]
pub struct DiagnosticActBinding<R> {
    pub capture: DiagnosticCaptureConfig,
    pub request: Option<R>,
}

impl<R> DiagnosticActBinding<R> {
    pub fn inactive() -> (binding: Self)
        ensures
            binding.capture == DiagnosticCaptureConfig::nothing(),
            binding.request is None,
    {
        DiagnosticActBinding { capture: DiagnosticCaptureConfig::default(), request: None }
    }

    pub fn new(capture: DiagnosticCaptureConfig, request: R) -> (binding: Self)
        ensures
            binding.capture == capture,
            binding.request == Some(request),
    {
        DiagnosticActBinding { capture, request: Some(request) }
    }

    pub fn is_active(&self) -> (active: bool)
        ensures
            active == self.request is Some,
    {
        self.request.is_some()
    }

    pub fn capture(&self) -> (capture: DiagnosticCaptureConfig)
        ensures
            capture == self.capture,
    {
        self.capture
    }

    pub fn request(&self) -> (request: Option<&R>)
        ensures
            match request {
                Some(request) => self.request == Some(*request),
                None => self.request is None,
            },
    {
        self.request.as_ref()
    }

    pub fn into_parts(self) -> (parts: (DiagnosticCaptureConfig, Option<R>))
        ensures
            parts == (self.capture, self.request),
    {
        (self.capture, self.request)
    }

    pub fn clear(&mut self)
        ensures
            final(self).capture == old(self).capture,
            final(self).request is None,
    {
        self.request = None;
    }
}

/// A capability was installed before.
#[derive(Clone, Copy, Debug, PartialEq, Eq, Structural)]
pub struct DiagnosticAdmissionInstallError {
    pub installed: DiagnosticAdmissionProfile,
    pub requested: DiagnosticAdmissionProfile,
}

impl DiagnosticAdmissionInstallError {
    /// The text that describes the error.
    pub open spec fn text(self) -> Seq<char> {
        "diagnostic admission capability already installed as "@ + self.installed.spec_name()@
            + "; cannot install "@ + self.requested.spec_name()@
    }

    /// Describes the error to a reader.
    pub fn describe(&self) -> (text: String)
        ensures
            text@ == self.text(),
    {
        "diagnostic admission capability already installed as ".to_owned()
            .concat(self.installed.name())
            .concat("; cannot install ")
            .concat(self.requested.name())
    }
}

/// A capability through which the acts of a run are admitted, with its profile.
#[derive(Debug, PartialEq, Eq)]
pub struct InstalledCapability<C> {
    pub capability: C,
    pub profile: DiagnosticAdmissionProfile,
}

/// A place for the one capability of a run.
#[derive(Debug, PartialEq, Eq)]
pub struct DiagnosticAdmissionSlot<C> {
    pub installed: Option<InstalledCapability<C>>,
}

impl<C> DiagnosticAdmissionSlot<C> {
    pub fn new() -> (slot: Self)
        ensures
            slot.installed is None,
    {
        DiagnosticAdmissionSlot { installed: None }
    }

    pub fn capability(&self) -> (capability: Option<&C>)
        ensures
            match self.installed {
                Some(installed) => capability == Some(&installed.capability),
                None => capability is None,
            },
    {
        match &self.installed {
            Some(installed) => Some(&installed.capability),
            None => None,
        }
    }

    /// The profile of the installed capability.
    pub open spec fn spec_profile(self) -> Option<DiagnosticAdmissionProfile> {
        match self.installed {
            Some(installed) => Some(installed.profile),
            None => None,
        }
    }

    pub fn profile(&self) -> (profile: Option<DiagnosticAdmissionProfile>)
        ensures
            profile == self.spec_profile(),
    {
        match &self.installed {
            Some(installed) => Some(installed.profile),
            None => None,
        }
    }

    /// Installs a capability where none is installed yet.
    pub fn install(&mut self, capability: C, requested: DiagnosticAdmissionProfile) -> (result:
        Result<(), DiagnosticAdmissionInstallError>)
        ensures
            match old(self).spec_profile() {
                None => {
                    &&& result == Ok::<(), DiagnosticAdmissionInstallError>(())
                    &&& final(self).installed == Some(
                        InstalledCapability { capability, profile: requested },
                    )
                },
                Some(installed) => {
                    &&& result == Err::<(), _>(
                        DiagnosticAdmissionInstallError { installed, requested },
                    )
                    &&& *final(self) == *old(self)
                },
            },
    {
        match self.profile() {
            Some(installed) => Err(DiagnosticAdmissionInstallError { installed, requested }),
            None => {
                self.installed = Some(InstalledCapability { capability, profile: requested });
                Ok(())
            },
        }
    }
}

/// The names of two profiles differ exactly where the profiles do.
pub proof fn profiles_are_told_apart(
    one: DiagnosticAdmissionProfile,
    other: DiagnosticAdmissionProfile,
)
    ensures
        one.spec_name()@ == other.spec_name()@ <==> one == other,
        one is ProductionDurable <==> one.spec_name()@ == "ProductionDurable"@,
        one is SinkOnlyVolatile <==> one.spec_name()@ == "SinkOnlyVolatile"@,
{
    reveal_strlit("ProductionDurable");
    reveal_strlit("SinkOnlyVolatile");
    assert("ProductionDurable"@[0] == 'P');
    assert("SinkOnlyVolatile"@[0] == 'S');
}

} // verus!
