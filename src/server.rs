//! The configuration of the trigger service, through which an outside
//! caller runs single migrations, and how it reports an outcome.
use vstd::prelude::*;
use vstd::string::StringExecFns;

verus! {

/// Where the trigger service listens.
#[derive(Debug)]
pub struct ServerParams {
    pub port: u16,
}

impl Default for ServerParams {
    /// Port 3000.
    fn default() -> (r: Self)
        ensures
            r.port == 3000,
    {
        ServerParams { port: 3000 }
    }
}

/// The database that the trigger service's migrator works on.
#[derive(Debug)]
pub struct DbParams {
    pub connection_string: String,
    pub log_into_db_name: String,
}

impl Default for DbParams {
    /// Database `test` of a MongoDB server on this machine.
    fn default() -> (r: Self)
        ensures
            r.connection_string@ == "mongodb://localhost:27017"@,
            r.log_into_db_name@ == "test"@,
    {
        DbParams {
            connection_string: String::from_str("mongodb://localhost:27017"),
            log_into_db_name: String::from_str("test"),
        }
    }
}

/// The HTTP status with which the trigger service answers a request: 200
/// when the migration ran successfully, 500 when the run ended with an error.
pub fn trigger_status(succeeded: bool) -> (r: u16)
    ensures
        r == if succeeded {
            200u16
        } else {
            500u16
        },
{
    if succeeded {
        200
    } else {
        500
    }
}

} // verus!
