//! The handlers that start a runtime and turn its end into a result.

use crate::runtimes::pipeline::Outcome;
use crate::server::error::{cause_of, class_of, result_of, HandlerError};
use vstd::prelude::*;

verus! {

/// The handler of api routes.
#[derive(Debug)]
pub struct ApiHandler;

/// The handler of routes that are served from the `surl` directory.
#[derive(Debug)]
pub struct SurlHandler;

impl ApiHandler {
    /// The result of handling a request whose scripts ended with
    /// `outcome`.
    pub fn handle(outcome: Outcome) -> (r: Result<(), HandlerError>)
        ensures
            match r {
                Ok(()) => class_of(outcome) is None,
                Err(e) => class_of(outcome) == Some(e.class()) && e.cause() == cause_of(outcome),
            },
    {
        result_of(outcome)
    }
}

impl SurlHandler {
    /// The result of handling a request whose scripts ended with
    /// `outcome`.
    pub fn handle(outcome: Outcome) -> (r: Result<(), HandlerError>)
        ensures
            match r {
                Ok(()) => class_of(outcome) is None,
                Err(e) => class_of(outcome) == Some(e.class()) && e.cause() == cause_of(outcome),
            },
    {
        result_of(outcome)
    }
}

/// The result of running the scripts of a message: the bytes that are sent
/// back where the scripts ended well. The scripts answer for themselves, so
/// that what is sent back for them is the empty message.
pub fn run_surl(outcome: Outcome) -> (r: Result<Vec<u8>, HandlerError>)
    ensures
        match r {
            Ok(bytes) => class_of(outcome) is None && bytes@.len() == 0,
            Err(e) => class_of(outcome) == Some(e.class()) && e.cause() == cause_of(outcome),
        },
{
    match result_of(outcome) {
        Ok(()) => Ok(Vec::new()),
        Err(e) => Err(e),
    }
}

/// The first value that `headers` holds under `key`.
pub open spec fn first_header(headers: Seq<(String, Vec<String>)>, key: Seq<char>) -> Option<
    Seq<char>,
>
    decreases headers.len(),
{
    if headers.len() == 0 {
        None
    } else if headers[0].0@ == key && headers[0].1.len() > 0 {
        Some(headers[0].1[0]@)
    } else {
        first_header(headers.skip(1), key)
    }
}

/// Gets the first value that the headers of a message hold under `key`.
pub fn get_first_from_headers(headers: &Vec<(String, Vec<String>)>, key: &str) -> (r: Option<
    String,
>)
    ensures
        match r {
            Some(value) => first_header(headers@, key@) == Some(value@),
            None => first_header(headers@, key@) is None,
        },
{
    let mut i: usize = 0;
    proof {
        assert(headers@.skip(0) =~= headers@);
    }
    while i < headers.len()
        invariant
            i <= headers.len(),
            first_header(headers@.skip(i as int), key@) == first_header(headers@, key@),
        decreases headers.len() - i,
    {
        proof {
            assert(headers@.skip(i as int).skip(1) =~= headers@.skip(i + 1));
        }
        let key_owned = key.to_owned();
        if headers[i].0 == key_owned && headers[i].1.len() > 0 {
            return Some(headers[i].1[0].clone());
        }
        i += 1;
    }
    None
}

} // verus!
