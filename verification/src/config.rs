//! The demo's configuration, read from the values of its environment variables.
use vstd::prelude::*;
use vstd::string::*;
use vstd::utf8::encode_utf8;
use crate::text::{parse_u16, parse_u64, parse_unsigned};

verus! {

pub struct Config {
    pub facilitator_url: String,
    pub resource_url: String,
    pub resource_port: u16,
    pub pay_to: String,
    pub payment_amount: u64,
    pub secret_key_path: String,
}

/// The value of a variable, or `default` when it is unset.
pub open spec fn value_or(v: Option<String>, default: Seq<char>) -> Seq<char> {
    match v {
        Some(s) => s@,
        None => default,
    }
}

/// The number a variable holds (read as by `from_str`, up to `max`), `default` when it is
/// unset, `None` when it is set to something else.
pub open spec fn number_or(v: Option<String>, default: nat, max: nat) -> Option<nat> {
    match v {
        Some(s) => parse_unsigned(encode_utf8(s@), max),
        None => Some(default),
    }
}

fn string_or(v: Option<String>, default: &str) -> (r: String)
    ensures
        r@ == value_or(v, default@),
{
    match v {
        Some(s) => s,
        None => String::from_str(default),
    }
}

impl Config {
    /// Builds the configuration from the values of `FACILITATOR_URL` (default
    /// `http://127.0.0.1:3001`), `RESOURCE_SERVER_URL` (default `http://127.0.0.1:3002`),
    /// `RESOURCE_SERVER_PORT` (default 3002), `PAY_TO` (required), `PAYMENT_AMOUNT` (default
    /// 1000000) and `SECRET_KEY_PATH` (default `.node_keys/secret_key.pem`); `None` stands for
    /// an unset variable. The port, the payee and the amount are checked in that order.
    pub fn from_vars(
        facilitator_url: Option<String>,
        resource_url: Option<String>,
        resource_port: Option<String>,
        pay_to: Option<String>,
        payment_amount: Option<String>,
        secret_key_path: Option<String>,
    ) -> (r: Result<Config, String>)
        ensures
            number_or(resource_port, 3002, u16::MAX as nat) is None ==> (r matches Err(e) && e@
                == "Invalid RESOURCE_SERVER_PORT"@),
            number_or(resource_port, 3002, u16::MAX as nat) is Some && pay_to is None ==> (
            r matches Err(e) && e@ == "Missing PAY_TO"@),
            number_or(resource_port, 3002, u16::MAX as nat) is Some && pay_to is Some && number_or(
                payment_amount,
                1000000,
                u64::MAX as nat,
            ) is None ==> (r matches Err(e) && e@ == "Invalid PAYMENT_AMOUNT"@),
            r is Ok <==> (number_or(resource_port, 3002, u16::MAX as nat) is Some && pay_to is Some
                && number_or(payment_amount, 1000000, u64::MAX as nat) is Some),
            r matches Ok(c) ==> {
                &&& c.facilitator_url@ == value_or(facilitator_url, "http://127.0.0.1:3001"@)
                &&& c.resource_url@ == value_or(resource_url, "http://127.0.0.1:3002"@)
                &&& number_or(resource_port, 3002, u16::MAX as nat) == Some(c.resource_port as nat)
                &&& pay_to == Some(c.pay_to)
                &&& number_or(payment_amount, 1000000, u64::MAX as nat) == Some(
                    c.payment_amount as nat,
                )
                &&& c.secret_key_path@ == value_or(secret_key_path, ".node_keys/secret_key.pem"@)
            },
    {
        let resource_port = match resource_port {
            Some(v) => match parse_u16(v.as_str()) {
                Some(p) => p,
                None => {
                    return Err(String::from_str("Invalid RESOURCE_SERVER_PORT"));
                },
            },
            None => 3002,
        };
        let pay_to = match pay_to {
            Some(v) => v,
            None => {
                return Err(String::from_str("Missing PAY_TO"));
            },
        };
        let payment_amount = match payment_amount {
            Some(v) => match parse_u64(v.as_str()) {
                Some(a) => a,
                None => {
                    return Err(String::from_str("Invalid PAYMENT_AMOUNT"));
                },
            },
            None => 1000000,
        };
        Ok(
            Config {
                facilitator_url: string_or(facilitator_url, "http://127.0.0.1:3001"),
                resource_url: string_or(resource_url, "http://127.0.0.1:3002"),
                resource_port,
                pay_to,
                payment_amount,
                secret_key_path: string_or(secret_key_path, ".node_keys/secret_key.pem"),
            },
        )
    }
}

} // verus!
