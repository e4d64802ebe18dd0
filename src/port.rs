//! Port numbers read from the language server's answers and from the port
//! file that its proxy publishes.

use vstd::prelude::*;

use crate::error::DapError;
use crate::text::{find_last, last_index_of, lemma_last_index_of_range, parse_u16_range,
    parse_u16_spec, trim, trimmed_bounds};

verus! {

/// The port of a URI: the text after its last `:`, trimmed of whitespace,
/// read as a decimal `u16`.
pub open spec fn port_of_uri(s: Seq<char>) -> Result<u16, DapError> {
    let k = last_index_of(s, ':');
    if k < 0 {
        Err(DapError::MalformedUri)
    } else {
        match parse_u16_spec(trim(s.subrange(k + 1, s.len() as int))) {
            Some(p) => Ok(p),
            None => Err(DapError::PortParseError),
        }
    }
}

/// Extracts the port from a URI such as `tcp://localhost:5005`.
pub fn get_port_from_uri(s: &str) -> (r: Result<u16, DapError>)
    ensures
        r == port_of_uri(s@),
{
    match find_last(s, ':') {
        None => Err(DapError::MalformedUri),
        Some(k) => {
            proof {
                lemma_last_index_of_range(s@, ':');
            }
            let n = s.unicode_len();
            let (from, to) = trimmed_bounds(s, k + 1, n);
            match parse_u16_range(s, from, to) {
                Some(p) => Ok(p),
                None => Err(DapError::PortParseError),
            }
        },
    }
}

/// The port that a port file's contents give: the whole text read as a
/// decimal `u16`.
pub open spec fn port_of_file(contents: Seq<char>) -> Result<u16, DapError> {
    match parse_u16_spec(contents) {
        Some(p) => Ok(p),
        None => Err(DapError::PortFileCorrupt),
    }
}

/// Reads the port that a port file holds.
pub fn parse_port_file(contents: &str) -> (r: Result<u16, DapError>)
    ensures
        r == port_of_file(contents@),
{
    let n = contents.unicode_len();
    assert(contents@.subrange(0, n as int) =~= contents@);
    match parse_u16_range(contents, 0, n) {
        Some(p) => Ok(p),
        None => Err(DapError::PortFileCorrupt),
    }
}

} // verus!
