//! Session issuance. A token is 32 lowercase hex digits spelling 128 random
//! bits that the caller draws from a cryptographically secure source. The
//! issuer refuses a token it has handed out before, so the tokens of its
//! sessions are pairwise distinct. A session is active until it is ended;
//! nothing ends it by itself.
use vstd::prelude::*;

use crate::clock::now_utc;
use crate::errors::SessionError;
use crate::models::{NewUserSession, UserSession};

verus! {

/// Random bytes a token is made from.
pub const TOKEN_BYTES: usize = 16;

/// The digit that spells `n` (below 16) in lowercase hexadecimal.
pub open spec fn hex_digit(n: int) -> char {
    seq!['0', '1', '2', '3', '4', '5', '6', '7', '8', '9', 'a', 'b', 'c', 'd', 'e', 'f'][n]
}

/// `bytes` spelt in hexadecimal, two digits per byte, high digit first.
pub open spec fn hex_encode(bytes: Seq<u8>) -> Seq<char>
    decreases bytes.len(),
{
    if bytes.len() == 0 {
        Seq::empty()
    } else {
        hex_encode(bytes.drop_last()) + seq![
            hex_digit(bytes.last() as int / 16),
            hex_digit(bytes.last() as int % 16),
        ]
    }
}

/// Whether a session in `sessions` has the token `token`.
pub open spec fn has_token(sessions: Seq<UserSession>, token: Seq<char>) -> bool {
    exists|i: int| 0 <= i < sessions.len() && #[trigger] sessions[i].session_key@ == token
}

/// No two sessions share a token.
pub open spec fn tokens_distinct(sessions: Seq<UserSession>) -> bool {
    forall|i: int, j: int|
        0 <= i < j < sessions.len() ==> #[trigger] sessions[i].session_key@
            != #[trigger] sessions[j].session_key@
}

/// Issuing `token` took the sessions from `before` to `after`: the token was
/// not in use, now is, and every token in use stays in use.
pub open spec fn issues(before: Seq<UserSession>, after: Seq<UserSession>, token: Seq<char>) -> bool {
    &&& !has_token(before, token)
    &&& has_token(after, token)
    &&& forall|t: Seq<char>| has_token(before, t) ==> has_token(after, t)
}

/// `after` is `before` with one more session at its end: active, for
/// `user_id`, under `token`.
pub open spec fn opened(
    before: Seq<UserSession>,
    after: Seq<UserSession>,
    token: Seq<char>,
    user_id: i32,
) -> bool {
    &&& after.len() == before.len() + 1
    &&& after.drop_last() == before
    &&& after.last().session_key@ == token
    &&& after.last().user_id == user_id
    &&& after.last().is_active_spec()
}

/// `after` is `before` with the session at `i` ended: same token, user and
/// creation time, no longer active; every other session as it was.
pub open spec fn ended(before: Seq<UserSession>, after: Seq<UserSession>, i: int) -> bool {
    &&& after == before.update(i, after[i])
    &&& after[i].session_key == before[i].session_key
    &&& after[i].user_id == before[i].user_id
    &&& after[i].created_at == before[i].created_at
    &&& !after[i].is_active_spec()
}

/// The token spelt by `entropy`: 32 lowercase hex digits.
pub fn token_from_entropy(entropy: &[u8; 16]) -> (r: String)
    ensures
        r@ == hex_encode(entropy@),
        r@.len() == 2 * TOKEN_BYTES,
{
    let digits = "0123456789abcdef";
    proof {
        reveal_strlit("0123456789abcdef");
        assert(digits@ =~= seq![
            '0', '1', '2', '3', '4', '5', '6', '7', '8', '9', 'a', 'b', 'c', 'd', 'e', 'f',
        ]);
    }
    let mut token = String::new();
    let mut i: usize = 0;
    while i < TOKEN_BYTES
        invariant
            i <= TOKEN_BYTES,
            entropy@.len() == TOKEN_BYTES,
            digits@ == seq![
                '0', '1', '2', '3', '4', '5', '6', '7', '8', '9', 'a', 'b', 'c', 'd', 'e', 'f',
            ],
            token@ == hex_encode(entropy@.subrange(0, i as int)),
            token@.len() == 2 * i,
        decreases TOKEN_BYTES - i,
    {
        let b = entropy[i];
        let hi = (b / 16) as usize;
        let lo = (b % 16) as usize;
        let hi_digit = digits.substring_char(hi, hi + 1);
        let lo_digit = digits.substring_char(lo, lo + 1);
        token.append(hi_digit);
        token.append(lo_digit);
        proof {
            let prefix = entropy@.subrange(0, i as int + 1);
            assert(prefix.drop_last() =~= entropy@.subrange(0, i as int));
            assert(prefix.last() == b);
            assert(hi_digit@ =~= seq![hex_digit(b as int / 16)]);
            assert(lo_digit@ =~= seq![hex_digit(b as int % 16)]);
        }
        i = i + 1;
    }
    proof {
        assert(entropy@.subrange(0, TOKEN_BYTES as int) =~= entropy@);
    }
    token
}

/// The sessions handed out so far, active and ended.
pub struct SessionIssuer {
    sessions: Vec<UserSession>,
}

impl View for SessionIssuer {
    type V = Seq<UserSession>;

    closed spec fn view(&self) -> Seq<UserSession> {
        self.sessions@
    }
}

impl SessionIssuer {
    /// No two sessions share a token.
    pub open spec fn wf(&self) -> bool {
        tokens_distinct(self@)
    }

    /// An issuer that has handed out nothing.
    pub fn new() -> (r: Self)
        ensures
            r.wf(),
            r@.len() == 0,
    {
        SessionIssuer { sessions: Vec::new() }
    }

    /// The position of the session with token `token`, if any.
    fn find(&self, token: &String) -> (r: Option<usize>)
        ensures
            r matches Some(i) ==> i < self@.len() && self@[i as int].session_key@ == token@,
            r is None ==> !has_token(self@, token@),
    {
        let mut i: usize = 0;
        while i < self.sessions.len()
            invariant
                i <= self.sessions@.len(),
                forall|j: int| 0 <= j < i ==> self.sessions@[j].session_key@ != token@,
            decreases self.sessions@.len() - i,
        {
            if self.sessions[i].session_key == *token {
                return Some(i);
            }
            i = i + 1;
        }
        None
    }

    /// Opens a session for `user_id` under the token that `entropy` spells,
    /// stamped with the current time. Refuses a token already in use.
    pub fn issue(&mut self, user_id: i32, entropy: &[u8; 16])
        -> (r: Result<NewUserSession, SessionError>)
        requires
            old(self).wf(),
        ensures
            final(self).wf(),
            has_token(old(self)@, hex_encode(entropy@)) ==> r == Err::<NewUserSession, SessionError>(
                SessionError::TokenInUse,
            ) && final(self)@ == old(self)@,
            !has_token(old(self)@, hex_encode(entropy@)) ==> (r matches Ok(s) && s.session_key@
                == hex_encode(entropy@) && s.user_id == user_id),
            r matches Ok(s) ==> (issues(old(self)@, final(self)@, s.session_key@) && opened(
                old(self)@,
                final(self)@,
                s.session_key@,
                user_id,
            )),
    {
        let token = token_from_entropy(entropy);
        if self.find(&token).is_some() {
            return Err(SessionError::TokenInUse);
        }
        let record = UserSession {
            session_key: token.clone(),
            user_id,
            created_at: now_utc(),
            ended_at: None,
        };
        let ghost before = self.sessions@;
        self.sessions.push(record);
        proof {
            let after = self.sessions@;
            assert(after.drop_last() =~= before);
            assert(after[after.len() - 1].session_key@ == token@);
            assert forall|t: Seq<char>| has_token(before, t) implies has_token(after, t) by {
                let k = choose|k: int| 0 <= k < before.len() && #[trigger] before[k].session_key@ == t;
                assert(after[k] == before[k]);
            }
        }
        Ok(NewUserSession::new(token, user_id))
    }

    /// Ends the active session with token `token`, stamping the current time.
    pub fn end(&mut self, token: &str) -> (r: Result<(), SessionError>)
        requires
            old(self).wf(),
        ensures
            final(self).wf(),
            final(self)@.len() == old(self)@.len(),
            !has_token(old(self)@, token@) ==> r == Err::<(), SessionError>(
                SessionError::UnknownSession,
            ) && final(self)@ == old(self)@,
            forall|i: int|
                0 <= i < old(self)@.len() && #[trigger] old(self)@[i].session_key@ == token@
                    ==> if old(self)@[i].is_active_spec() {
                    r is Ok && ended(old(self)@, final(self)@, i)
                } else {
                    &&& r == Err::<(), SessionError>(SessionError::AlreadyEnded)
                    &&& final(self)@ == old(self)@
                },
    {
        let key = String::from_str(token);
        match self.find(&key) {
            None => Err(SessionError::UnknownSession),
            Some(i) => {
                if !self.sessions[i].is_active() {
                    return Err(SessionError::AlreadyEnded);
                }
                let record = UserSession {
                    session_key: self.sessions[i].session_key.clone(),
                    user_id: self.sessions[i].user_id,
                    created_at: self.sessions[i].created_at,
                    ended_at: Some(now_utc()),
                };
                self.sessions.set(i, record);
                Ok(())
            },
        }
    }

    /// Whether a session with token `token` exists and has not been ended.
    pub fn is_active(&self, token: &str) -> (r: bool)
        requires
            self.wf(),
        ensures
            r == exists|i: int|
                0 <= i < self@.len() && #[trigger] self@[i].session_key@ == token@
                    && self@[i].is_active_spec(),
    {
        let key = String::from_str(token);
        match self.find(&key) {
            None => false,
            Some(i) => self.sessions[i].is_active(),
        }
    }
}

/// Two sessions issued one after the other never share a token, and neither
/// do any two sessions issued by the same issuer: a token, once in use, stays
/// in use.
pub proof fn lemma_issued_tokens_distinct(
    s0: Seq<UserSession>,
    s1: Seq<UserSession>,
    s2: Seq<UserSession>,
    first: Seq<char>,
    second: Seq<char>,
)
    requires
        issues(s0, s1, first),
        issues(s1, s2, second),
    ensures
        first != second,
{
}

} // verus!
