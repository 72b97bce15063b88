//! The settings the service is run with, read from the environment.

use vstd::prelude::*;
use crate::text::{nat_decimal, spec_parse_unsigned};

verus! {

/// The settings of the service.
pub struct EnvLoader {
    pub url: String,
    pub port: u16,
    pub base_url: String,
    pub fixer_url: String,
    pub fixer_api_key: String,
    pub token_secret_key: String,
    pub database_url: String,
    pub connection_pool_max_size: u32,
    pub connection_pool_min_idle: Option<u32>,
}

/// A required setting that is present and, for the numbers, reads as one.
pub open spec fn number_setting(value: Option<String>, max: int) -> Option<int> {
    match value {
        Some(v) => spec_parse_unsigned(v@, max),
        None => None,
    }
}

fn read_number(value: &Option<String>, max: u64) -> (r: Option<u64>)
    ensures
        match (r, number_setting(*value, max as int)) {
            (Some(a), Some(b)) => a as int == b,
            (None, None) => true,
            _ => false,
        },
{
    match value {
        Some(v) => crate::text::parse_unsigned(v.as_str(), max),
        None => None,
    }
}

impl EnvLoader {
    /// Settings from the values of the environment variables `URL`, `PORT`,
    /// `BASE_URL`, `FIXER_URL`, `FIXER_API_KEY`, `TOKEN_SECRET_KEY`,
    /// `DATABASE_URL`, `CONNECTION_POOL_MAX_SIZE` and `CONNECTION_POOL_MIN_IDLE`
    /// (`None` for a variable that is not set). Every variable but the last
    /// is required; the numbers must read as unsigned numbers of their type.
    pub fn from_env_values(
        url: Option<String>,
        port: Option<String>,
        base_url: Option<String>,
        fixer_url: Option<String>,
        fixer_api_key: Option<String>,
        token_secret_key: Option<String>,
        database_url: Option<String>,
        connection_pool_max_size: Option<String>,
        connection_pool_min_idle: Option<String>,
    ) -> (r: Option<EnvLoader>)
        ensures
            r is Some <==> {
                &&& url is Some
                &&& number_setting(port, u16::MAX as int) is Some
                &&& base_url is Some
                &&& fixer_url is Some
                &&& fixer_api_key is Some
                &&& token_secret_key is Some
                &&& database_url is Some
                &&& number_setting(connection_pool_max_size, u32::MAX as int) is Some
                &&& (connection_pool_min_idle is Some ==> number_setting(
                    connection_pool_min_idle,
                    u32::MAX as int,
                ) is Some)
            },
            r matches Some(e) ==> {
                &&& e.url@ == url.unwrap()@
                &&& e.port as int == number_setting(port, u16::MAX as int).unwrap()
                &&& e.base_url@ == base_url.unwrap()@
                &&& e.fixer_url@ == fixer_url.unwrap()@
                &&& e.fixer_api_key@ == fixer_api_key.unwrap()@
                &&& e.token_secret_key@ == token_secret_key.unwrap()@
                &&& e.database_url@ == database_url.unwrap()@
                &&& e.connection_pool_max_size as int == number_setting(
                    connection_pool_max_size,
                    u32::MAX as int,
                ).unwrap()
                &&& e.connection_pool_min_idle is Some <==> connection_pool_min_idle is Some
                &&& e.connection_pool_min_idle matches Some(m) ==> m as int == number_setting(
                    connection_pool_min_idle,
                    u32::MAX as int,
                ).unwrap()
            },
    {
        let url = match url {
            Some(v) => v,
            None => return None,
        };
        let port = match read_number(&port, 65535) {
            Some(v) => v as u16,
            None => return None,
        };
        let base_url = match base_url {
            Some(v) => v,
            None => return None,
        };
        let fixer_url = match fixer_url {
            Some(v) => v,
            None => return None,
        };
        let fixer_api_key = match fixer_api_key {
            Some(v) => v,
            None => return None,
        };
        let token_secret_key = match token_secret_key {
            Some(v) => v,
            None => return None,
        };
        let database_url = match database_url {
            Some(v) => v,
            None => return None,
        };
        let connection_pool_max_size = match read_number(&connection_pool_max_size, 4294967295) {
            Some(v) => v as u32,
            None => return None,
        };
        let connection_pool_min_idle = match &connection_pool_min_idle {
            Some(_) => match read_number(&connection_pool_min_idle, 4294967295) {
                Some(v) => Some(v as u32),
                None => return None,
            },
            None => None,
        };
        Some(
            EnvLoader {
                url,
                port,
                base_url,
                fixer_url,
                fixer_api_key,
                token_secret_key,
                database_url,
                connection_pool_max_size,
                connection_pool_min_idle,
            },
        )
    }

    pub fn get_url(&self) -> (r: &str)
        ensures
            r@ == self.url@,
    {
        self.url.as_str()
    }

    pub fn get_port(&self) -> (r: u16)
        ensures
            r == self.port,
    {
        self.port
    }

    pub fn get_base_url(&self) -> (r: &str)
        ensures
            r@ == self.base_url@,
    {
        self.base_url.as_str()
    }

    pub fn get_fixer_url(&self) -> (r: &str)
        ensures
            r@ == self.fixer_url@,
    {
        self.fixer_url.as_str()
    }

    pub fn get_fixer_api_key(&self) -> (r: &str)
        ensures
            r@ == self.fixer_api_key@,
    {
        self.fixer_api_key.as_str()
    }

    pub fn get_token_secret_key(&self) -> (r: &str)
        ensures
            r@ == self.token_secret_key@,
    {
        self.token_secret_key.as_str()
    }

    pub fn get_database_url(&self) -> (r: &str)
        ensures
            r@ == self.database_url@,
    {
        self.database_url.as_str()
    }

    pub fn get_connection_pool_max_size(&self) -> (r: u32)
        ensures
            r == self.connection_pool_max_size,
    {
        self.connection_pool_max_size
    }

    pub fn get_connection_pool_min_idle(&self) -> (r: Option<u32>)
        ensures
            r == self.connection_pool_min_idle,
    {
        self.connection_pool_min_idle
    }

    /// The address the server listens on: the URL, a colon, and the port.
    pub fn get_address(&self) -> (s: String)
        ensures
            s@ == self.url@ + ":"@ + nat_decimal(self.port as nat),
    {
        let mut s = crate::text::to_owned_string(self.url.as_str());
        crate::text::push_str(&mut s, ":");
        let port = crate::text::u64_to_string(self.port as u64);
        crate::text::push_str(&mut s, port.as_str());
        s
    }

    /// The address of the currency-rate service with the API key appended.
    pub fn get_fixer_address(&self) -> (s: String)
        ensures
            s@ == self.fixer_url@ + self.fixer_api_key@,
    {
        let mut s = crate::text::to_owned_string(self.fixer_url.as_str());
        crate::text::push_str(&mut s, self.fixer_api_key.as_str());
        s
    }
}

} // verus!
