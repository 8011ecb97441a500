//! Service configuration read from environment values. The process
//! environment itself is captured outside the library and handed in as a
//! snapshot of name/value pairs; every accessor is specified against a
//! first-match lookup over that snapshot.

use vstd::prelude::*;

use crate::strutil::dec_body;
use crate::strutil::dec_val;
use crate::strutil::eq_exact;
use crate::strutil::eq_ignore_ascii_case;
use crate::strutil::is_dec_seq;
use crate::strutil::parse_u64;
use crate::strutil::seq_eq_ignore_ascii_case;

verus! {

broadcast use vstd::seq_lib::group_seq_properties;

/// An error of the environment accessors.
#[derive(Debug, Clone)]
pub enum Error {
    /// The named variable is absent from the snapshot.
    MissingEnv(String),
    /// The named variable is present but does not parse.
    WrongFormat(String),
}

/// The model of an environment error.
#[verifier::ext_equal]
pub enum EnvErr {
    Missing(Seq<char>),
    Format(Seq<char>),
}

/// The model of an environment error value.
pub open spec fn env_error_model(e: Error) -> EnvErr {
    match e {
        Error::MissingEnv(n) => EnvErr::Missing(n@),
        Error::WrongFormat(n) => EnvErr::Format(n@),
    }
}

/// The first value bound to `name` in the snapshot, front to back.
pub open spec fn lookup(vars: Seq<(String, String)>, name: Seq<char>) -> Option<Seq<char>>
    decreases vars.len(),
{
    if vars.len() == 0 {
        None
    } else if vars[0].0@ == name {
        Some(vars[0].1@)
    } else {
        lookup(vars.skip(1), name)
    }
}

/// Reading a variable: its value when bound, else a missing-variable error
/// naming it.
pub open spec fn get_env_model(vars: Seq<(String, String)>, name: Seq<char>) -> Result<
    Seq<char>,
    EnvErr,
> {
    match lookup(vars, name) {
        Some(v) => Ok(v),
        None => Err(EnvErr::Missing(name)),
    }
}

/// Parsing a value as a bounded decimal: its number when it is a digit run
/// (with one optional leading plus sign) within the bound, else a format
/// error naming the variable.
pub open spec fn parse_env_model(s: Seq<char>, name: Seq<char>, max: nat) -> Result<nat, EnvErr> {
    if is_dec_seq(dec_body(s)) && dec_val(dec_body(s)) <= max {
        Ok(dec_val(dec_body(s)))
    } else {
        Err(EnvErr::Format(name))
    }
}

/// Reading and parsing a variable as a bounded decimal.
pub open spec fn get_env_parse_model(
    vars: Seq<(String, String)>,
    name: Seq<char>,
    max: nat,
) -> Result<nat, EnvErr> {
    match get_env_model(vars, name) {
        Ok(s) => parse_env_model(s, name, max),
        Err(e) => Err(e),
    }
}

/// A snapshot of the process environment: name/value pairs in capture
/// order.
#[derive(Debug, Clone)]
pub struct Env {
    /// The captured pairs; on a duplicate name the first pair wins.
    pub vars: Vec<(String, String)>,
}

impl Env {
    /// An environment snapshot over the given pairs.
    pub fn new(vars: Vec<(String, String)>) -> (r: Env)
        ensures
            r.vars@ == vars@,
    {
        Env { vars }
    }

    /// Reads one variable from the snapshot.
    pub fn get_env(&self, name: &str) -> (r: Result<String, Error>)
        ensures
            match r {
                Ok(v) => get_env_model(self.vars@, name@) == Ok::<Seq<char>, EnvErr>(v@),
                Err(e) => get_env_model(self.vars@, name@) == Err::<Seq<char>, EnvErr>(
                    env_error_model(e),
                ),
            },
    {
        let n = self.vars.len();
        let mut i: usize = 0;
        while i < n
            invariant
                n == self.vars@.len(),
                i <= n,
                lookup(self.vars@, name@) == lookup(self.vars@.skip(i as int), name@),
            decreases n - i,
        {
            let kv = &self.vars[i];
            if eq_exact(kv.0.as_str(), name) {
                proof {
                    assert(self.vars@.skip(i as int)[0] == self.vars@[i as int]);
                }
                return Ok(kv.1.clone());
            }
            proof {
                assert(self.vars@.skip(i as int)[0] == self.vars@[i as int]);
                assert(self.vars@.skip(i as int).skip(1) =~= self.vars@.skip(i + 1));
            }
            i = i + 1;
        }
        proof {
            assert(self.vars@.skip(n as int) =~= Seq::<(String, String)>::empty());
        }
        Err(Error::MissingEnv(String::from_str(name)))
    }

    /// Reads one variable and parses it as a decimal number.
    pub fn get_env_parse(&self, name: &str) -> (r: Result<u64, Error>)
        ensures
            match r {
                Ok(v) => get_env_parse_model(self.vars@, name@, u64::MAX as nat) == Ok::<
                    nat,
                    EnvErr,
                >(v as nat),
                Err(e) => get_env_parse_model(self.vars@, name@, u64::MAX as nat) == Err::<
                    nat,
                    EnvErr,
                >(env_error_model(e)),
            },
    {
        let val = match self.get_env(name) {
            Ok(v) => v,
            Err(e) => {
                return Err(e);
            },
        };
        match parse_u64(val.as_str()) {
            Some(v) => Ok(v),
            None => Err(Error::WrongFormat(String::from_str(name))),
        }
    }

    /// The port the service binds, from `PORT`.
    pub fn get_port(&self) -> (r: Result<u16, Error>)
        ensures
            match r {
                Ok(v) => get_env_parse_model(self.vars@, "PORT"@, u16::MAX as nat) == Ok::<
                    nat,
                    EnvErr,
                >(v as nat),
                Err(e) => get_env_parse_model(self.vars@, "PORT"@, u16::MAX as nat) == Err::<
                    nat,
                    EnvErr,
                >(env_error_model(e)),
            },
    {
        match self.get_env_parse("PORT") {
            Ok(v) => {
                if v <= 65535 {
                    Ok(v as u16)
                } else {
                    Err(Error::WrongFormat(String::from_str("PORT")))
                }
            },
            Err(e) => Err(e),
        }
    }

    /// The Postgres connection string, from `DATABASE_URL`.
    pub fn get_postgres(&self) -> (r: Result<String, Error>)
        ensures
            match r {
                Ok(v) => get_env_model(self.vars@, "DATABASE_URL"@) == Ok::<Seq<char>, EnvErr>(v@),
                Err(e) => get_env_model(self.vars@, "DATABASE_URL"@) == Err::<Seq<char>, EnvErr>(
                    env_error_model(e),
                ),
            },
    {
        self.get_env("DATABASE_URL")
    }

    /// The Redis host, from `REDIS_HOST`.
    pub fn get_redis(&self) -> (r: Result<String, Error>)
        ensures
            match r {
                Ok(v) => get_env_model(self.vars@, "REDIS_HOST"@) == Ok::<Seq<char>, EnvErr>(v@),
                Err(e) => get_env_model(self.vars@, "REDIS_HOST"@) == Err::<Seq<char>, EnvErr>(
                    env_error_model(e),
                ),
            },
    {
        self.get_env("REDIS_HOST")
    }

    /// The MongoDB connection string, from `MONGO_URI`.
    pub fn get_mongo(&self) -> (r: Result<String, Error>)
        ensures
            match r {
                Ok(v) => get_env_model(self.vars@, "MONGO_URI"@) == Ok::<Seq<char>, EnvErr>(v@),
                Err(e) => get_env_model(self.vars@, "MONGO_URI"@) == Err::<Seq<char>, EnvErr>(
                    env_error_model(e),
                ),
            },
    {
        self.get_env("MONGO_URI")
    }

    /// Whether the snapshot declares a production environment: `RUST_ENV`
    /// equals "production" up to ASCII case, defaulting to "development"
    /// when unset.
    pub fn is_prod(&self) -> (r: Result<bool, Error>)
        ensures
            r matches Ok(b) && b == seq_eq_ignore_ascii_case(
                match lookup(self.vars@, "RUST_ENV"@) {
                    Some(v) => v,
                    None => "development"@,
                },
                "production"@,
            ),
    {
        let value = match self.get_env("RUST_ENV") {
            Ok(v) => v,
            Err(e) => String::from_str("development"),
        };
        Ok(eq_ignore_ascii_case(value.as_str(), "production"))
    }
}

/// Reads one variable from a snapshot.
pub fn get_env(env: &Env, name: &str) -> (r: Result<String, Error>)
    ensures
        match r {
            Ok(v) => get_env_model(env.vars@, name@) == Ok::<Seq<char>, EnvErr>(v@),
            Err(e) => get_env_model(env.vars@, name@) == Err::<Seq<char>, EnvErr>(
                env_error_model(e),
            ),
        },
{
    env.get_env(name)
}

/// Reads one variable from a snapshot and parses it as a decimal number.
pub fn get_env_parse(env: &Env, name: &str) -> (r: Result<u64, Error>)
    ensures
        match r {
            Ok(v) => get_env_parse_model(env.vars@, name@, u64::MAX as nat) == Ok::<nat, EnvErr>(
                v as nat,
            ),
            Err(e) => get_env_parse_model(env.vars@, name@, u64::MAX as nat) == Err::<nat, EnvErr>(
                env_error_model(e),
            ),
        },
{
    env.get_env_parse(name)
}

/// The model of the connection settings a service starts with.
#[verifier::ext_equal]
pub struct ConfigPropsModel {
    pub host: Seq<char>,
    pub port: nat,
    pub mongo_uri: Seq<char>,
    pub redis_uri: Seq<char>,
    pub postgres_uri: Seq<char>,
    pub influxdb_uri: Seq<char>,
}

/// The settings a snapshot yields: each field from its variable, in reading
/// order, stopping at the first absent or malformed one.
pub open spec fn config_props_model(vars: Seq<(String, String)>) -> Result<
    ConfigPropsModel,
    EnvErr,
> {
    match get_env_model(vars, "HOST"@) {
        Err(e) => Err(e),
        Ok(host) => match get_env_parse_model(vars, "PORT"@, u16::MAX as nat) {
            Err(e) => Err(e),
            Ok(port) => match get_env_model(vars, "MONGO_URI"@) {
                Err(e) => Err(e),
                Ok(mongo) => match get_env_model(vars, "REDIS_URI"@) {
                    Err(e) => Err(e),
                    Ok(redis) => match get_env_model(vars, "DATABASE_URL"@) {
                        Err(e) => Err(e),
                        Ok(postgres) => match get_env_model(vars, "INFLUXDB_URL"@) {
                            Err(e) => Err(e),
                            Ok(influx) => Ok(
                                ConfigPropsModel {
                                    host,
                                    port,
                                    mongo_uri: mongo,
                                    redis_uri: redis,
                                    postgres_uri: postgres,
                                    influxdb_uri: influx,
                                },
                            ),
                        },
                    },
                },
            },
        },
    }
}

/// The connection settings a service starts with.
#[derive(Debug, Clone)]
pub struct ConfigProps {
    pub host: String,
    pub port: u16,
    pub mongo_uri: String,
    pub redis_uri: String,
    pub postgres_uri: String,
    pub influxdb_uri: String,
}

/// The model of a settings value.
pub open spec fn config_props_obs(c: ConfigProps) -> ConfigPropsModel {
    ConfigPropsModel {
        host: c.host@,
        port: c.port as nat,
        mongo_uri: c.mongo_uri@,
        redis_uri: c.redis_uri@,
        postgres_uri: c.postgres_uri@,
        influxdb_uri: c.influxdb_uri@,
    }
}

impl ConfigProps {
    /// Gathers the settings from a snapshot, failing at the first absent or
    /// malformed variable.
    pub fn new(env: &Env) -> (r: Result<ConfigProps, Error>)
        ensures
            match r {
                Ok(c) => config_props_model(env.vars@) == Ok::<ConfigPropsModel, EnvErr>(
                    config_props_obs(c),
                ),
                Err(e) => config_props_model(env.vars@) == Err::<ConfigPropsModel, EnvErr>(
                    env_error_model(e),
                ),
            },
    {
        let host = match env.get_env("HOST") {
            Ok(v) => v,
            Err(e) => {
                return Err(e);
            },
        };
        let port = match env.get_port() {
            Ok(v) => v,
            Err(e) => {
                return Err(e);
            },
        };
        let mongo_uri = match env.get_env("MONGO_URI") {
            Ok(v) => v,
            Err(e) => {
                return Err(e);
            },
        };
        // The settings read the redis connection string, not the bare host
        // that `get_redis` resolves.
        let redis_uri = match env.get_env("REDIS_URI") {
            Ok(v) => v,
            Err(e) => {
                return Err(e);
            },
        };
        let postgres_uri = match env.get_postgres() {
            Ok(v) => v,
            Err(e) => {
                return Err(e);
            },
        };
        let influxdb_uri = match env.get_env("INFLUXDB_URL") {
            Ok(v) => v,
            Err(e) => {
                return Err(e);
            },
        };
        Ok(ConfigProps { host, port, mongo_uri, redis_uri, postgres_uri, influxdb_uri })
    }
}

} // verus!
