//! The challenge part of the challenge-response authentication.

use vstd::prelude::*;
use crate::decoder::{blob_at, read_bytes, Decoder, FrameError};

verus! {

/// An authentication challenge: the token that the server sent, if it sent
/// one.
#[derive(Debug)]
pub struct AuthChallenge {
    token: Option<Vec<u8>>,
}

impl AuthChallenge {
    /// The token, as the bytes that it holds.
    pub closed spec fn spec_token(&self) -> Option<Seq<u8>> {
        match self.token {
            Some(token) => Some(token@),
            None => None,
        }
    }

    /// Reads the challenge from a body: one optional byte blob at its start.
    pub fn read(body: &[u8]) -> (challenge: Result<AuthChallenge, FrameError>)
        ensures
            match blob_at(body@, 0) {
                Err(e) => challenge is Err && challenge->Err_0 == e,
                Ok(token) => challenge is Ok && challenge->Ok_0.spec_token() == token,
            },
    {
        match read_bytes(body, 0) {
            Err(e) => Err(e),
            Ok(token) => Ok(AuthChallenge { token }),
        }
    }

    /// Reads the challenge from the body of a frame that holds one.
    pub fn new(decoder: &Decoder) -> (challenge: AuthChallenge)
        requires
            blob_at(decoder.spec_body(), 0) is Ok,
        ensures
            challenge.spec_token() == blob_at(decoder.spec_body(), 0)->Ok_0,
    {
        match read_bytes(decoder.body(), 0) {
            Ok(token) => AuthChallenge { token },
            Err(_) => vstd::pervasive::unreached(),
        }
    }

    /// The token, if the server sent one.
    pub fn token(&self) -> (token: &Option<Vec<u8>>)
        ensures
            match token {
                Some(bytes) => self.spec_token() == Some(bytes@),
                None => self.spec_token() is None,
            },
    {
        &self.token
    }
}

} // verus!
