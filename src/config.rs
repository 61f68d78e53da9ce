//! Client settings as the caller writes them, and the metadata that every
//! call of the client carries.
use vstd::prelude::*;

verus! {

/// Client settings as the caller writes them; every part may be left out.
#[derive(Clone, Debug, PartialEq, Eq)]
pub struct ClientConfig {
    pub x_token: Option<String>,
    pub x_request_snapshot: Option<bool>,
    pub max_decoding_message_size: Option<u32>,
    pub max_encoding_message_size: Option<u32>,
}

/// Client settings with their defaults filled in: no snapshot request unless
/// asked for, message size limits left to the transport where not given.
#[derive(Clone, Debug, PartialEq, Eq)]
pub struct GeyserClientConfig {
    pub x_token: Option<String>,
    pub x_request_snapshot: bool,
    pub max_decoding_message_size: Option<usize>,
    pub max_encoding_message_size: Option<usize>,
}

pub open spec fn size_limit(n: Option<u32>) -> Option<usize> {
    match n {
        Some(v) => Some(v as usize),
        None => None,
    }
}

fn to_size_limit(n: Option<u32>) -> (r: Option<usize>)
    ensures
        r == size_limit(n),
{
    match n {
        Some(v) => Some(v as usize),
        None => None,
    }
}

/// The metadata entries that the settings `c` put on every call.
pub open spec fn metadata_of(c: GeyserClientConfig) -> Seq<(Seq<char>, Seq<char>)> {
    (match c.x_token {
        Some(t) => seq![("x-token"@, t@)],
        None => Seq::empty(),
    }) + (if c.x_request_snapshot {
        seq![("x-request-snapshot"@, "true"@)]
    } else {
        Seq::empty()
    })
}

impl ClientConfig {
    /// These settings with their defaults filled in.
    pub fn resolve(self) -> (r: GeyserClientConfig)
        ensures
            r.x_token == self.x_token,
            r.x_request_snapshot == (self.x_request_snapshot == Some(true)),
            r.max_decoding_message_size == size_limit(self.max_decoding_message_size),
            r.max_encoding_message_size == size_limit(self.max_encoding_message_size),
    {
        let x_request_snapshot = match self.x_request_snapshot {
            Some(b) => b,
            None => false,
        };
        GeyserClientConfig {
            x_token: self.x_token,
            x_request_snapshot,
            max_decoding_message_size: to_size_limit(self.max_decoding_message_size),
            max_encoding_message_size: to_size_limit(self.max_encoding_message_size),
        }
    }
}

impl GeyserClientConfig {
    /// The metadata entries, as `(key, value)` pairs, that every call made
    /// with these settings carries: the access token under `x-token` where
    /// one is set, and `x-request-snapshot: true` where a snapshot is asked for.
    pub fn request_metadata(&self) -> (r: Vec<(String, String)>)
        ensures
            r@.len() == metadata_of(*self).len(),
            forall|i: int|
                0 <= i < r@.len() ==> (#[trigger] r@[i]).0@ == metadata_of(*self)[i].0 && r@[i].1@
                    == metadata_of(*self)[i].1,
    {
        let mut r: Vec<(String, String)> = Vec::new();
        match &self.x_token {
            Some(t) => {
                r.push((String::from_str("x-token"), t.clone()));
            },
            None => {},
        }
        if self.x_request_snapshot {
            r.push((String::from_str("x-request-snapshot"), String::from_str("true")));
        }
        proof {
            reveal_strlit("x-token");
            reveal_strlit("x-request-snapshot");
            reveal_strlit("true");
        }
        r
    }
}

} // verus!
