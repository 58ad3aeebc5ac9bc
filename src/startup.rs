//! What the bot needs before it serves events, and the fatal errors of startup.

use vstd::prelude::*;

verus! {

/// The key under which the secret store holds the bot token.
pub const TOKEN_KEY: &'static str = "DISCORD_TOKEN";

/// Why the bot cannot start. Each is fatal: no event is served.
#[derive(Debug, PartialEq, Eq)]
pub enum StartupError {
    /// The secret store holds no token.
    MissingToken,
    /// The platform refused the registration of the commands.
    RegistrationFailed { reason: String },
}

impl StartupError {
    /// A line for the operator.
    pub fn message(&self) -> (r: String)
        ensures
            self is MissingToken ==> r@ == "'DISCORD_TOKEN' was not found"@,
            self matches StartupError::RegistrationFailed { reason } ==> r@
                == "command registration failed: "@ + reason@,
    {
        match self {
            StartupError::MissingToken => String::from_str("'DISCORD_TOKEN' was not found"),
            StartupError::RegistrationFailed { reason } => {
                let mut r = String::from_str("command registration failed: ");
                r.append(reason.as_str());
                r
            },
        }
    }
}

/// The token that the secret store returned, or `MissingToken` if it had none.
pub fn require_token(secret: Option<String>) -> (r: Result<String, StartupError>)
    ensures
        match secret {
            Some(t) => r matches Ok(s) && s@ == t@,
            None => r matches Err(StartupError::MissingToken),
        },
{
    match secret {
        Some(t) => Ok(t),
        None => Err(StartupError::MissingToken),
    }
}

} // verus!
