//! The configuration that the store reads.

use vstd::prelude::*;

verus! {

/// The configuration of the application.
#[derive(Debug, Clone)]
pub struct Config {
    pub database: DatabaseConfig,
}

/// The configuration of the database: the directory and the name of its file. What is not
/// set falls back to the default of the store.
#[derive(Debug, Clone)]
pub struct DatabaseConfig {
    pub database_path: Option<String>,
    pub database_file: Option<String>,
}

impl Default for DatabaseConfig {
    fn default() -> (config: Self)
        ensures
            config.database_path is None,
            config.database_file is None,
    {
        DatabaseConfig { database_path: None, database_file: None }
    }
}

impl Default for Config {
    fn default() -> (config: Self)
        ensures
            config.database.database_path is None,
            config.database.database_file is None,
    {
        Config { database: DatabaseConfig { database_path: None, database_file: None } }
    }
}

} // verus!
