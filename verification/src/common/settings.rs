//! The service's own section of the configuration.
use crate::common::errors::LocoError;
use vstd::prelude::*;

verus! {

/// The service's own settings.
pub struct Settings {
    pub refresh: Option<Refresh>,
}

/// Settings of refresh tokens.
pub struct Refresh {
    pub secret: String,
    pub expiration: u64,
    pub name: String,
}

/// Default lifetime of a refresh token, in seconds (thirty days).
pub fn refresh_expiration_default() -> (r: u64)
    ensures
        r == 2_592_000,
{
    2_592_000
}

/// Default name of the refresh token cookie.
pub fn refresh_name_default() -> (r: String)
    ensures
        r@ == "refresh_token"@,
{
    "refresh_token".to_owned()
}

/// The refresh token settings, from the settings section of the configuration
/// as it was read (`None` when there is none): an absent section, an
/// unreadable one or one without refresh settings is an error.
pub fn get_refresh_from_config(settings: Option<Result<Settings, LocoError>>) -> (r: Result<
    Refresh,
    LocoError,
>)
    ensures
        match settings {
            None => r matches Err(LocoError::Message(m)) && m@ == "Settings not configured"@,
            Some(Err(e)) => r == Err::<Refresh, LocoError>(e),
            Some(Ok(s)) => match s.refresh {
                Some(refresh) => r == Ok::<Refresh, LocoError>(refresh),
                None => r matches Err(LocoError::Message(m)) && m@
                    == "Refresh token is not configured"@,
            },
        },
{
    match settings {
        None => Err(LocoError::string("Settings not configured")),
        Some(Err(e)) => Err(e),
        Some(Ok(s)) => match s.refresh {
            Some(refresh) => Ok(refresh),
            None => Err(LocoError::string("Refresh token is not configured")),
        },
    }
}

} // verus!
