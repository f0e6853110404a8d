use vstd::prelude::*;

verus! {

/// The database used when none is configured.
pub const DEFAULT_DATABASE_URL: &'static str = "postgres://localhost/agora";

/// The server's settings.
pub struct Config {
    pub database_url: String,
}

impl Config {
    /// Settings from the configured database URL, if any.
    pub fn with_database_url(database_url: Option<String>) -> (c: Config)
        ensures
            c.database_url@ == match database_url {
                Some(u) => u@,
                None => DEFAULT_DATABASE_URL@,
            },
    {
        match database_url {
            Some(u) => Config { database_url: u },
            None => Config { database_url: String::from_str(DEFAULT_DATABASE_URL) },
        }
    }
}

} // verus!
