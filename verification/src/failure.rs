use vstd::prelude::*;

verus! {

/// The two calls that a run makes.
#[derive(Debug, Clone, Copy, PartialEq, Eq)]
pub enum Call {
    /// The forecast lookup.
    Weather,
    /// The webhook call.
    Webhook,
}

/// Why a run ends before every user was served.
#[derive(Debug, Clone, Copy, PartialEq, Eq)]
pub enum Failure {
    /// The configuration file could not be read.
    ConfigRead,
    /// The configuration text is not TOML or lacks a required entry.
    ConfigParse,
    /// The request of this call could not be sent, or no reply came.
    Network(Call),
    /// The forecast reply is not JSON or lacks an expected entry.
    Deserialization,
    /// The forecast reply lists no day.
    NoForecastDay,
}

impl Failure {
    /// The line shown to the operator for this failure.
    pub open spec fn message_text(self) -> Seq<char> {
        match self {
            Failure::ConfigRead => "couldn't read the configuration file `conf.toml`"@,
            Failure::ConfigParse => "couldn't parse the provided toml configuration"@,
            Failure::Network(Call::Weather) => "failed to call the weather api"@,
            Failure::Network(Call::Webhook) => "something went wrong with the webhook call"@,
            Failure::Deserialization => "failed to deserialize the weather api response"@,
            Failure::NoForecastDay => "the weather api response holds no forecast day"@,
        }
    }

    /// The line shown to the operator for this failure.
    pub fn message(&self) -> (r: &'static str)
        ensures
            r@ == self.message_text(),
    {
        match self {
            Failure::ConfigRead => "couldn't read the configuration file `conf.toml`",
            Failure::ConfigParse => "couldn't parse the provided toml configuration",
            Failure::Network(Call::Weather) => "failed to call the weather api",
            Failure::Network(Call::Webhook) => "something went wrong with the webhook call",
            Failure::Deserialization => "failed to deserialize the weather api response",
            Failure::NoForecastDay => "the weather api response holds no forecast day",
        }
    }
}

} // verus!
