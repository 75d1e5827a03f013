//! The request/reply engine and the protocol flows.
//!
//! Inbound messages split into event tables (for the subscriber) and replies
//! (for the one outstanding request); keep-alives and out-of-service marks
//! are swallowed. The flows build each outbound command and judge each
//! reply: key exchange, the two key requests, JWT retrieval, token
//! authentication, the structure-file requests, status subscription and io
//! commands. The connection moves forward through the phases and never back.

use vstd::prelude::*;
use vstd::string::{StringExecFns, StrSliceExecFns};
use crate::b64::{spec_b64_encode, spec_b64_decode_padded, spec_b64url_decode_padded, base64_no_pad_decode, base64url_decode};
use crate::envelope::{
    json_str3_of, opt_str_view, spec_reply_code, spec_reply_value_str, json_obj2_of, json_str1_of,
    check_status, reply_value_str, reply_value_field, reply_value_is_object, json_str_at1,
};
use crate::err::{
    AuthenticationError, JwtRequestError, KeyExchangeError, LoxAPP3RequestError, RequestError,
    StateError, X509CertError,
};
use crate::events::EventTable;
use crate::frame::{Message, MessageV};
use crate::hashing::{HashAlg, hash_password, hash_token, spec_hash_password, spec_hash_token, spec_hash_alg_of};
use crate::hexstr::{hex_digit_lower, spec_hex_lower, spec_hex_decode, hex_lower, hex_decode};
use crate::session::{Session, spec_encrypt_command_ws, encrypt_command_ws};
use crate::strutil::{push_char, utf8_to_string};

verus! {

// ---------------------------------------------------------------------------
// Routing (the request/reply split).
// ---------------------------------------------------------------------------

/// Where an inbound message goes.
#[derive(Debug)]
pub enum Route {
    /// To the one outstanding request.
    Reply(Message),
    /// To the event subscriber.
    Event(EventTable),
    /// Logged and dropped: the request keeps waiting.
    Swallowed,
}

/// Routes one inbound message: event tables to the subscriber, keep-alives
/// and out-of-service marks nowhere, everything else to the pending request.
pub fn route_message(m: Message) -> (r: Route)
    ensures
        m@ is KeepAlive || m@ is OutOfServiceIndicator <==> r is Swallowed,
        m@ is EventTable <==> r is Event,
        r matches Route::Event(t) ==> m@ == MessageV::EventTable(t@),
        r matches Route::Reply(m2) ==> m2@ == m@,
{
    match m {
        Message::KeepAlive => Route::Swallowed,
        Message::OutOfServiceIndicator => Route::Swallowed,
        Message::EventTable(t) => Route::Event(t),
        other => Route::Reply(other),
    }
}

// ---------------------------------------------------------------------------
// Small text helpers the flows need.
// ---------------------------------------------------------------------------

/// The character of a decimal digit: the first ten entries of the hex
/// digit table.
pub open spec fn dec_digit(n: u8) -> char {
    hex_digit_lower(n)
}

/// The decimal text of a byte value, no leading zeros.
pub open spec fn spec_u8_dec(n: u8) -> Seq<char> {
    if n >= 100 {
        seq![dec_digit(n / 100), dec_digit((n / 10) % 10), dec_digit(n % 10)]
    } else if n >= 10 {
        seq![dec_digit(n / 10), dec_digit(n % 10)]
    } else {
        seq![dec_digit(n)]
    }
}

/// Renders a byte value in decimal.
fn u8_dec(n: u8) -> (r: String)
    ensures
        r@ == spec_u8_dec(n),
{
    let mut s = String::new();
    if n >= 100 {
        push_char(&mut s, crate::hexstr::hex_digit_lower_exec(n / 100));
        push_char(&mut s, crate::hexstr::hex_digit_lower_exec((n / 10) % 10));
        push_char(&mut s, crate::hexstr::hex_digit_lower_exec(n % 10));
    } else if n >= 10 {
        push_char(&mut s, crate::hexstr::hex_digit_lower_exec(n / 10));
        push_char(&mut s, crate::hexstr::hex_digit_lower_exec(n % 10));
    } else {
        push_char(&mut s, crate::hexstr::hex_digit_lower_exec(n));
    }
    proof {
        assert(s@ =~= spec_u8_dec(n));
    }
    s
}

/// The text with every carriage return removed.
pub open spec fn spec_strip_cr(cs: Seq<char>) -> Seq<char>
    decreases cs.len(),
{
    if cs.len() == 0 {
        Seq::empty()
    } else if cs[0] == '\r' {
        spec_strip_cr(cs.drop_first())
    } else {
        seq![cs[0]] + spec_strip_cr(cs.drop_first())
    }
}

/// Appending one character extends the stripped text by it, unless it is a
/// carriage return.
proof fn lemma_strip_cr_push(cs: Seq<char>, c: char)
    ensures
        spec_strip_cr(cs.push(c)) == if c == '\r' { spec_strip_cr(cs) } else { spec_strip_cr(cs).push(c) },
    decreases cs.len(),
{
    reveal_with_fuel(spec_strip_cr, 3);
    if cs.len() == 0 {
        assert(cs.push(c).len() == 1);
        assert(cs.push(c)[0] == c);
        assert(cs.push(c).drop_first() =~= Seq::<char>::empty());
        assert(cs.push(c).drop_first() == Seq::<char>::empty());
        assert(spec_strip_cr(cs) =~= Seq::<char>::empty());
        if c != '\r' {
            assert(spec_strip_cr(cs.push(c)) =~= seq![c] + Seq::<char>::empty());
            assert(seq![c] + Seq::<char>::empty() =~= spec_strip_cr(cs).push(c));
        } else {
            assert(spec_strip_cr(cs.push(c)) =~= Seq::<char>::empty());
        }
    } else {
        let d = cs.drop_first();
        assert(cs.push(c).drop_first() =~= d.push(c));
        assert(cs.push(c)[0] == cs[0]);
        lemma_strip_cr_push(d, c);
        if cs[0] == '\r' {
            assert(spec_strip_cr(cs.push(c)) == spec_strip_cr(d.push(c)));
            assert(spec_strip_cr(cs) == spec_strip_cr(d));
        } else {
            assert(spec_strip_cr(cs.push(c)) == seq![cs[0]] + spec_strip_cr(d.push(c)));
            assert(spec_strip_cr(cs) == seq![cs[0]] + spec_strip_cr(d));
            if c != '\r' {
                assert(seq![cs[0]] + spec_strip_cr(d).push(c)
                    =~= (seq![cs[0]] + spec_strip_cr(d)).push(c));
            }
        }
    }
}

/// Removes every carriage return, as done to getjwt replies before JSON
/// parsing.
pub fn strip_cr(s: &str) -> (r: String)
    ensures
        r@ == spec_strip_cr(s@),
{
    let n = s.unicode_len();
    let mut out = String::new();
    let mut i: usize = 0;
    while i < n
        invariant
            n == s@.len(),
            i <= n,
            out@ == spec_strip_cr(s@.subrange(0, i as int)),
        decreases n - i,
    {
        let c = s.get_char(i);
        proof {
            lemma_strip_cr_push(s@.subrange(0, i as int), s@[i as int]);
            assert(s@.subrange(0, i + 1).drop_last() =~= s@.subrange(0, i as int));
            assert(s@.subrange(0, i + 1) =~= s@.subrange(0, i as int).push(s@[i as int]));
        }
        if c != '\r' {
            push_char(&mut out, c);
        }
        i = i + 1;
    }
    proof {
        assert(s@.subrange(0, n as int) =~= s@);
    }
    out
}

/// Index of the first dot at or after `i`, if any.
pub open spec fn spec_first_dot_from(cs: Seq<char>, i: int) -> Option<int>
    decreases cs.len() - i,
{
    if i < 0 || i >= cs.len() {
        None
    } else if cs[i] == '.' {
        Some(i)
    } else {
        spec_first_dot_from(cs, i + 1)
    }
}

/// The second dot-separated segment of a token: the characters between the
/// first dot and the second dot or the end; `None` without a first dot.
pub open spec fn spec_jwt_payload(cs: Seq<char>) -> Option<Seq<char>> {
    match spec_first_dot_from(cs, 0) {
        None => None,
        Some(i) => {
            let j = match spec_first_dot_from(cs, i + 1) {
                Some(j) => j,
                None => cs.len() as int,
            };
            Some(cs.subrange(i + 1, j))
        },
    }
}

/// Finds the first dot at or after `from`.
fn first_dot_from(s: &str, from: usize) -> (r: Option<usize>)
    requires
        from <= s@.len(),
    ensures
        match r {
            Some(i) => from <= i < s@.len() && spec_first_dot_from(s@, from as int) == Some(i as int),
            None => spec_first_dot_from(s@, from as int) is None,
        },
{
    let n = s.unicode_len();
    let mut i: usize = from;
    while i < n
        invariant
            n == s@.len(),
            from <= i <= n,
            spec_first_dot_from(s@, from as int) == spec_first_dot_from(s@, i as int),
        decreases n - i,
    {
        let c = s.get_char(i);
        if c == '.' {
            return Some(i);
        }
        i = i + 1;
    }
    None
}

/// Extracts the payload segment of a JWT: the text between the first two
/// dots (or the end); `None` when the token has no dot.
pub fn jwt_payload_segment(token: &str) -> (r: Option<String>)
    ensures
        opt_str_view(r) == spec_jwt_payload(token@),
{
    let n = token.unicode_len();
    let i = match first_dot_from(token, 0) {
        Some(i) => i,
        None => {
            return None;
        },
    };
    let j = match first_dot_from(token, i + 1) {
        Some(j) => j,
        None => n,
    };
    let mut out = String::new();
    let mut k: usize = i + 1;
    while k < j
        invariant
            n == token@.len(),
            i < k <= j <= n,
            out@ == token@.subrange(i + 1, k as int),
        decreases j - k,
    {
        let c = token.get_char(k);
        push_char(&mut out, c);
        k = k + 1;
        proof {
            assert(token@.subrange(i + 1, k as int)
                =~= token@.subrange(i + 1, k - 1).push(token@[k - 1]));
        }
    }
    Some(out)
}

// ---------------------------------------------------------------------------
// The connection's phases and the engine.
// ---------------------------------------------------------------------------

/// How far the connection has come; it never moves back.
#[derive(Debug, Clone, Copy, PartialEq, Eq, Structural)]
pub enum Phase {
    Connected,
    KeyExchanged,
    Authenticated,
    Subscribed,
}

/// The request/reply engine's own state: the phase and, once key exchange
/// succeeded, the session every encrypted command uses.
pub struct Engine {
    phase: Phase,
    session: Option<Session>,
}

impl Engine {
    /// The session is present exactly from key exchange on, and is always
    /// well-formed.
    pub closed spec fn wf(&self) -> bool {
        &&& (self.session matches Some(s) ==> s.wf())
        &&& (self.phase is Connected <==> self.session is None)
    }

    pub closed spec fn spec_phase(&self) -> Phase {
        self.phase
    }

    pub closed spec fn spec_session(&self) -> Option<Session> {
        self.session
    }

    /// A fresh engine: connected, no session.
    pub fn new() -> (r: Engine)
        ensures
            r.wf(),
            r.spec_phase() == Phase::Connected,
            r.spec_session() is None,
    {
        Engine { phase: Phase::Connected, session: None }
    }

    /// The phase, for callers that gate on it.
    pub fn phase(&self) -> (r: Phase)
        ensures
            r == self.spec_phase(),
    {
        self.phase
    }

    /// Judges the key-exchange reply. On status 200 the engine adopts the
    /// session and stands key-exchanged, and the decoded remote key bytes
    /// are returned; on any failure the engine is unchanged and the session
    /// is dropped.
    pub fn complete_key_exchange(&mut self, session: Session, reply: &Message) -> (r: Result<Vec<u8>, KeyExchangeError>)
        requires
            old(self).wf(),
            session.wf(),
        ensures
            final(self).wf(),
            !(reply@ is Text) ==> r == Err::<Vec<u8>, KeyExchangeError>(KeyExchangeError::InvalidMessageType),
            reply@ matches MessageV::Text(t) ==> {
                &&& spec_reply_code(t, true) is None
                    ==> r == Err::<Vec<u8>, KeyExchangeError>(KeyExchangeError::JsonMissingField("LL.Code"))
                &&& spec_reply_code(t, true) matches Some(c) ==> (c != "200"@
                    ==> r is Err && r->Err_0 is InvalidStatusCode && r->Err_0->InvalidStatusCode_0@ == c)
                &&& spec_reply_code(t, true) == Some("200"@) && spec_reply_value_str(t) is None
                    ==> r == Err::<Vec<u8>, KeyExchangeError>(KeyExchangeError::JsonMissingField("LL.value"))
                &&& spec_reply_value_str(t) matches Some(v)
                    ==> (spec_reply_code(t, true) == Some("200"@) ==> {
                        &&& r is Ok <==> spec_b64_decode_padded(v) is Some
                        &&& r matches Ok(bytes) ==> Some(bytes@) == spec_b64_decode_padded(v)
                    })
            },
            r is Ok ==> final(self).spec_session() == Some(session)
                && final(self).spec_phase() == Phase::KeyExchanged,
            r is Err ==> *final(self) == *old(self),
    {
        let text = match reply {
            Message::Text(t) => t,
            _ => {
                return Err(KeyExchangeError::InvalidMessageType);
            },
        };
        match check_status(text.as_str(), true) {
            Ok(()) => {},
            Err(RequestError::JsonMissingField(_)) => {
                return Err(KeyExchangeError::JsonMissingField("LL.Code"));
            },
            Err(RequestError::InvalidStatusCode(c)) => {
                return Err(KeyExchangeError::InvalidStatusCode(c));
            },
            Err(_) => {
                return Err(KeyExchangeError::JsonMissingField("LL.Code"));
            },
        }
        let value = match reply_value_str(text.as_str()) {
            Some(v) => v,
            None => {
                return Err(KeyExchangeError::JsonMissingField("LL.value"));
            },
        };
        let remote_key = match base64_no_pad_decode(value.as_str()) {
            Some(b) => b,
            None => {
                return Err(KeyExchangeError::KeyDecode);
            },
        };
        self.session = Some(session);
        self.phase = Phase::KeyExchanged;
        Ok(remote_key)
    }

    /// Wraps a command for the encrypted channel. Before key exchange this
    /// is a permission error; with an adopted session it always succeeds and
    /// yields the encrypted command line.
    pub fn encrypted_command(&self, cmd: &str) -> (r: Result<String, StateError>)
        requires
            self.wf(),
        ensures
            r is Ok <==> self.spec_session() is Some,
            self.spec_session() is None ==> r == Err::<String, StateError>(StateError::PermissionDenied),
            self.spec_session() matches Some(s)
                ==> (r matches Ok(c) ==> c@ == spec_encrypt_command_ws(&s, "enc"@, cmd@)),
    {
        let session = match &self.session {
            Some(s) => s,
            None => {
                return Err(StateError::PermissionDenied);
            },
        };
        match encrypt_command_ws("enc", cmd, session) {
            Ok(c) => Ok(c),
            Err(_) => Err(StateError::Crypto),
        }
    }

    /// Records a successful authentication. The connection moves forward
    /// from key-exchanged to authenticated and never backwards.
    pub fn complete_authentication(&mut self)
        requires
            old(self).wf(),
        ensures
            final(self).wf(),
            final(self).spec_phase() == if old(self).spec_phase() is KeyExchanged { Phase::Authenticated } else { old(self).spec_phase() },
            final(self).spec_session() == old(self).spec_session(),
    {
        match self.phase {
            Phase::KeyExchanged => {
                self.phase = Phase::Authenticated;
            },
            _ => {},
        }
    }

    /// Records a successful status subscription. The connection moves
    /// forward from authenticated to subscribed and never backwards.
    pub fn complete_subscription(&mut self)
        requires
            old(self).wf(),
        ensures
            final(self).wf(),
            final(self).spec_phase() == if old(self).spec_phase() is Authenticated { Phase::Subscribed } else { old(self).spec_phase() },
            final(self).spec_session() == old(self).spec_session(),
    {
        match self.phase {
            Phase::Authenticated => {
                self.phase = Phase::Subscribed;
            },
            _ => {},
        }
    }
}

/// Builds the session for a certificate and the keyexchange command that
/// carries its wrapped key.
pub fn prepare_key_exchange(cert: &str) -> (r: Result<(Session, String), X509CertError>)
    ensures
        r matches Ok((s, cmd)) ==> s.wf()
            && cmd@ == "jdev/sys/keyexchange/"@ + spec_b64_encode(s.spec_wrapped()),
{
    let session = Session::new(cert)?;
    let encoded = session.encode_session();
    let mut cmd = String::from_str("jdev/sys/keyexchange/");
    cmd.append(encoded.as_str());
    Ok((session, cmd))
}

// ---------------------------------------------------------------------------
// Per-endpoint reply judgments and command builders.
// ---------------------------------------------------------------------------

/// Judges a getkey reply: on 200, the hex-spelled HMAC key.
pub fn getkey_reply(reply: &Message) -> (r: Result<String, RequestError>)
    ensures
        !(reply@ is Text) ==> r == Err::<String, RequestError>(RequestError::InvalidMessageType),
        reply@ matches MessageV::Text(t) ==> {
            &&& r is Ok <==> spec_reply_code(t, true) == Some("200"@) && spec_reply_value_str(t) is Some
            &&& r matches Ok(v) ==> Some(v@) == spec_reply_value_str(t)
            &&& spec_reply_code(t, true) is None
                ==> r == Err::<String, RequestError>(RequestError::JsonMissingField("LL.Code"))
            &&& spec_reply_code(t, true) matches Some(c) ==> (c != "200"@
                ==> r is Err && r->Err_0 is InvalidStatusCode && r->Err_0->InvalidStatusCode_0@ == c)
            &&& spec_reply_code(t, true) == Some("200"@) && spec_reply_value_str(t) is None
                ==> r == Err::<String, RequestError>(RequestError::JsonMissingField("LL.value"))
        },
{
    let text = match reply {
        Message::Text(t) => t,
        _ => {
            return Err(RequestError::InvalidMessageType);
        },
    };
    match check_status(text.as_str(), true) {
        Ok(()) => {},
        Err(e) => {
            return Err(e);
        },
    }
    match reply_value_str(text.as_str()) {
        Some(v) => Ok(v),
        None => Err(RequestError::JsonMissingField("LL.value")),
    }
}

/// The key material a getkey2 reply announces.
#[derive(Debug, Clone)]
pub struct AuthInfo {
    /// Hex-spelled HMAC key.
    pub key: String,
    /// The user's salt.
    pub salt: String,
    /// The hash algorithm, already narrowed to the closed set.
    pub alg: HashAlg,
}

/// Builds the getkey2 command for a user.
pub fn getkey2_command(user: &str) -> (r: String)
    ensures
        r@ == "jdev/sys/getkey2/"@ + user@,
{
    let mut cmd = String::from_str("jdev/sys/getkey2/");
    cmd.append(user);
    cmd
}

/// Judges a getkey2 reply: on 200, the key, salt and hash algorithm of the
/// value object; an algorithm outside SHA1/SHA256 is refused.
pub fn getkey2_reply(reply: &Message) -> (r: Result<AuthInfo, JwtRequestError>)
    ensures
        !(reply@ is Text) ==> r == Err::<AuthInfo, JwtRequestError>(JwtRequestError::KeyRequest(RequestError::InvalidMessageType)),
        reply@ matches MessageV::Text(t) ==> {
            &&& r is Ok <==> spec_reply_code(t, false) == Some("200"@)
                && json_str3_of(t, "LL"@, "value"@, "key"@) is Some
                && json_str3_of(t, "LL"@, "value"@, "salt"@) is Some
                && json_str3_of(t, "LL"@, "value"@, "hashAlg"@) is Some
                && spec_hash_alg_of(json_str3_of(t, "LL"@, "value"@, "hashAlg"@)->Some_0) is Some
            &&& r matches Ok(info) ==> Some(info.key@) == json_str3_of(t, "LL"@, "value"@, "key"@)
                && Some(info.salt@) == json_str3_of(t, "LL"@, "value"@, "salt"@)
                && Some(info.alg) == spec_hash_alg_of(json_str3_of(t, "LL"@, "value"@, "hashAlg"@)->Some_0)
            &&& spec_reply_code(t, false) is None
                ==> r == Err::<AuthInfo, JwtRequestError>(JwtRequestError::KeyRequest(RequestError::JsonMissingField("LL.code")))
            &&& spec_reply_code(t, false) matches Some(c) ==> (c != "200"@
                ==> r is Err && r->Err_0 is KeyRequest
                    && r->Err_0->KeyRequest_0 is InvalidStatusCode
                    && r->Err_0->KeyRequest_0->InvalidStatusCode_0@ == c)
        },
{
    let text = match reply {
        Message::Text(t) => t,
        _ => {
            return Err(JwtRequestError::KeyRequest(RequestError::InvalidMessageType));
        },
    };
    match check_status(text.as_str(), false) {
        Ok(()) => {},
        Err(e) => {
            return Err(JwtRequestError::KeyRequest(e));
        },
    }
    let key = match reply_value_field(text.as_str(), "key") {
        Some(v) => v,
        None => {
            return Err(JwtRequestError::JsonMissingField("LL.value.key"));
        },
    };
    let salt = match reply_value_field(text.as_str(), "salt") {
        Some(v) => v,
        None => {
            return Err(JwtRequestError::JsonMissingField("LL.value.salt"));
        },
    };
    let alg_name = match reply_value_field(text.as_str(), "hashAlg") {
        Some(v) => v,
        None => {
            return Err(JwtRequestError::JsonMissingField("LL.value.hashAlg"));
        },
    };
    let alg = match HashAlg::from_name(&alg_name) {
        Some(a) => a,
        None => {
            return Err(JwtRequestError::UnsupportedHashAlg(alg_name));
        },
    };
    Ok(AuthInfo { key, salt, alg })
}

/// Builds the getjwt command: the salted password hash in hex, then user,
/// permission, client UUID and client info. Sent over the encrypted channel.
pub fn getjwt_command(user: &str, password: &str, permission: u8, uuid: &str, info: &str, auth: &AuthInfo) -> (r: Result<String, JwtRequestError>)
    ensures
        r is Ok <==> spec_hex_decode(auth.key@) is Some,
        r matches Ok(c) ==> c@ == "jdev/sys/getjwt/"@
            + spec_hex_lower(spec_hash_password(user@, password@, spec_hex_decode(auth.key@)->Some_0, auth.salt@, auth.alg))
            + seq!['/'] + user@ + seq!['/'] + spec_u8_dec(permission)
            + seq!['/'] + uuid@ + seq!['/'] + info@,
{
    let key = match hex_decode(auth.key.as_str()) {
        Some(k) => k,
        None => {
            return Err(JwtRequestError::KeyDecode);
        },
    };
    let hash = hash_password(user, password, key.as_slice(), auth.salt.as_str(), auth.alg);
    let hash_hex = hex_lower(hash.as_slice());
    let mut cmd = String::from_str("jdev/sys/getjwt/");
    cmd.append(hash_hex.as_str());
    push_char(&mut cmd, '/');
    cmd.append(user);
    push_char(&mut cmd, '/');
    let perm = u8_dec(permission);
    cmd.append(perm.as_str());
    push_char(&mut cmd, '/');
    cmd.append(uuid);
    push_char(&mut cmd, '/');
    cmd.append(info);
    proof {
        assert(cmd@ =~= "jdev/sys/getjwt/"@
            + spec_hex_lower(spec_hash_password(user@, password@, spec_hex_decode(auth.key@)->Some_0, auth.salt@, auth.alg))
            + seq!['/'] + user@ + seq!['/'] + spec_u8_dec(permission)
            + seq!['/'] + uuid@ + seq!['/'] + info@);
    }
    Ok(cmd)
}

/// Judges a getjwt reply: carriage returns are removed, the status (spelled
/// `code`) must be 200 and the value must be an object. On success the
/// cleaned reply text is returned for the caller to take the token from.
pub fn getjwt_reply(reply: &Message) -> (r: Result<String, JwtRequestError>)
    ensures
        !(reply@ is Text) ==> r == Err::<String, JwtRequestError>(JwtRequestError::InvalidMessageType),
        reply@ matches MessageV::Text(t) ==> {
            &&& r is Ok <==> spec_reply_code(spec_strip_cr(t), false) == Some("200"@)
                && json_obj2_of(spec_strip_cr(t), "LL"@, "value"@)
            &&& r matches Ok(clean) ==> clean@ == spec_strip_cr(t)
            &&& spec_reply_code(spec_strip_cr(t), false) is None
                ==> r == Err::<String, JwtRequestError>(JwtRequestError::JsonMissingField("LL.code"))
            &&& spec_reply_code(spec_strip_cr(t), false) matches Some(c) ==> (c != "200"@
                ==> r is Err && r->Err_0 is InvalidStatusCode && r->Err_0->InvalidStatusCode_0@ == c)
            &&& spec_reply_code(spec_strip_cr(t), false) == Some("200"@)
                && !json_obj2_of(spec_strip_cr(t), "LL"@, "value"@)
                ==> r == Err::<String, JwtRequestError>(JwtRequestError::JsonMissingField("LL.value"))
        },
{
    let text = match reply {
        Message::Text(t) => t,
        _ => {
            return Err(JwtRequestError::InvalidMessageType);
        },
    };
    let clean = strip_cr(text.as_str());
    match check_status(clean.as_str(), false) {
        Ok(()) => {},
        Err(RequestError::JsonMissingField(_)) => {
            return Err(JwtRequestError::JsonMissingField("LL.code"));
        },
        Err(RequestError::InvalidStatusCode(c)) => {
            return Err(JwtRequestError::InvalidStatusCode(c));
        },
        Err(_) => {
            return Err(JwtRequestError::JsonMissingField("LL.code"));
        },
    }
    if !reply_value_is_object(clean.as_str()) {
        return Err(JwtRequestError::JsonMissingField("LL.value"));
    }
    Ok(clean)
}

/// Builds the authwithtoken command: the token's HMAC-SHA1 hash in hex and
/// the user taken from the token's own payload, whose segment is URL-safe
/// base64. Sent over the encrypted channel.
pub fn authenticate_command(token: &str, key_hex: &str) -> (r: Result<String, AuthenticationError>)
    ensures
        spec_hex_decode(key_hex@) is None
            ==> r == Err::<String, AuthenticationError>(AuthenticationError::KeyDecode),
        spec_jwt_payload(token@) is None && spec_hex_decode(key_hex@) is Some
            ==> r == Err::<String, AuthenticationError>(AuthenticationError::JwtBadFormat),
        spec_jwt_payload(token@) matches Some(seg)
            ==> (spec_hex_decode(key_hex@) is Some ==> {
                &&& r is Ok <==> spec_b64url_decode_padded(seg) is Some
                    && vstd::utf8::valid_utf8(spec_b64url_decode_padded(seg)->Some_0)
                    && json_str1_of(vstd::utf8::decode_utf8(spec_b64url_decode_padded(seg)->Some_0), "user"@) is Some
                &&& spec_b64url_decode_padded(seg) is None
                    ==> r == Err::<String, AuthenticationError>(AuthenticationError::JwtDecode)
                &&& r matches Ok(c) ==> c@ == "authwithtoken/"@
                    + spec_hex_lower(spec_hash_token(token@, spec_hex_decode(key_hex@)->Some_0, HashAlg::Sha1))
                    + seq!['/']
                    + json_str1_of(vstd::utf8::decode_utf8(spec_b64url_decode_padded(seg)->Some_0), "user"@)->Some_0
            }),
{
    let key = match hex_decode(key_hex) {
        Some(k) => k,
        None => {
            return Err(AuthenticationError::KeyDecode);
        },
    };
    let hash = hash_token(token, key.as_slice(), HashAlg::Sha1);
    let segment = match jwt_payload_segment(token) {
        Some(s) => s,
        None => {
            return Err(AuthenticationError::JwtBadFormat);
        },
    };
    let payload_bytes = match base64url_decode(segment.as_str()) {
        Some(b) => b,
        None => {
            return Err(AuthenticationError::JwtDecode);
        },
    };
    let payload = match utf8_to_string(payload_bytes) {
        Ok(p) => p,
        Err(_) => {
            return Err(AuthenticationError::JsonDeserialize);
        },
    };
    let user = match json_str_at1(payload.as_str(), "user") {
        Some(u) => u,
        None => {
            return Err(AuthenticationError::JsonMissingField("LL.value.user"));
        },
    };
    let hash_hex = hex_lower(hash.as_slice());
    let mut cmd = String::from_str("authwithtoken/");
    cmd.append(hash_hex.as_str());
    push_char(&mut cmd, '/');
    cmd.append(user.as_str());
    proof {
        assert(cmd@ =~= "authwithtoken/"@
            + spec_hex_lower(spec_hash_token(token@, spec_hex_decode(key_hex@)->Some_0, HashAlg::Sha1))
            + seq!['/'] + user@);
    }
    Ok(cmd)
}

/// Judges an authwithtoken reply: the status (spelled `code`) must be 200
/// and the value must be an object.
pub fn authwithtoken_reply(reply: &Message) -> (r: Result<(), AuthenticationError>)
    ensures
        !(reply@ is Text) ==> r == Err::<(), AuthenticationError>(AuthenticationError::InvalidMessageType),
        reply@ matches MessageV::Text(t) ==> {
            &&& r is Ok <==> spec_reply_code(t, false) == Some("200"@) && json_obj2_of(t, "LL"@, "value"@)
            &&& spec_reply_code(t, false) is None
                ==> r == Err::<(), AuthenticationError>(AuthenticationError::JsonMissingField("LL.code"))
            &&& spec_reply_code(t, false) matches Some(c) ==> (c != "200"@
                ==> r is Err && r->Err_0 is InvalidStatusCode && r->Err_0->InvalidStatusCode_0@ == c)
            &&& spec_reply_code(t, false) == Some("200"@) && !json_obj2_of(t, "LL"@, "value"@)
                ==> r == Err::<(), AuthenticationError>(AuthenticationError::JsonMissingField("LL.value"))
        },
{
    let text = match reply {
        Message::Text(t) => t,
        _ => {
            return Err(AuthenticationError::InvalidMessageType);
        },
    };
    match check_status(text.as_str(), false) {
        Ok(()) => {},
        Err(RequestError::JsonMissingField(_)) => {
            return Err(AuthenticationError::JsonMissingField("LL.code"));
        },
        Err(RequestError::InvalidStatusCode(c)) => {
            return Err(AuthenticationError::InvalidStatusCode(c));
        },
        Err(_) => {
            return Err(AuthenticationError::JsonMissingField("LL.code"));
        },
    }
    if !reply_value_is_object(text.as_str()) {
        return Err(AuthenticationError::JsonMissingField("LL.value"));
    }
    Ok(())
}

/// Judges a LoxAPP3 structure-file reply: the body arrives as text in a
/// binary-file slot; the document text is handed back for deserialization.
pub fn loxapp3_reply(reply: Message) -> (r: Result<String, LoxAPP3RequestError>)
    ensures
        !(reply@ is BinaryText) ==> r == Err::<String, LoxAPP3RequestError>(LoxAPP3RequestError::InvalidMessageType),
        reply@ matches MessageV::BinaryText(t) ==> r matches Ok(doc) && doc@ == t,
{
    match reply {
        Message::BinaryText(t) => Ok(t),
        _ => Err(LoxAPP3RequestError::InvalidMessageType),
    }
}

/// Judges a LoxAPPversion3 reply: on 200, the timestamp string.
pub fn loxapp3_timestamp_reply(reply: &Message) -> (r: Result<String, RequestError>)
    ensures
        !(reply@ is Text) ==> r == Err::<String, RequestError>(RequestError::InvalidMessageType),
        reply@ matches MessageV::Text(t) ==> {
            &&& r is Ok <==> spec_reply_code(t, true) == Some("200"@) && spec_reply_value_str(t) is Some
            &&& r matches Ok(v) ==> Some(v@) == spec_reply_value_str(t)
            &&& spec_reply_code(t, true) is None
                ==> r == Err::<String, RequestError>(RequestError::JsonMissingField("LL.Code"))
            &&& spec_reply_code(t, true) matches Some(c) ==> (c != "200"@
                ==> r is Err && r->Err_0 is InvalidStatusCode && r->Err_0->InvalidStatusCode_0@ == c)
            &&& spec_reply_code(t, true) == Some("200"@) && spec_reply_value_str(t) is None
                ==> r == Err::<String, RequestError>(RequestError::JsonMissingField("LL.value"))
        },
{
    let text = match reply {
        Message::Text(t) => t,
        _ => {
            return Err(RequestError::InvalidMessageType);
        },
    };
    match check_status(text.as_str(), true) {
        Ok(()) => {},
        Err(e) => {
            return Err(e);
        },
    }
    match reply_value_str(text.as_str()) {
        Some(v) => Ok(v),
        None => Err(RequestError::JsonMissingField("LL.value")),
    }
}

/// Judges a reply whose value must be the string `1`: enablebinstatusupdate
/// and io commands.
pub fn ack_reply(reply: &Message) -> (r: Result<(), RequestError>)
    ensures
        !(reply@ is Text) ==> r == Err::<(), RequestError>(RequestError::InvalidMessageType),
        reply@ matches MessageV::Text(t) ==> {
            &&& r is Ok <==> spec_reply_code(t, true) == Some("200"@) && spec_reply_value_str(t) == Some("1"@)
            &&& spec_reply_code(t, true) is None
                ==> r == Err::<(), RequestError>(RequestError::JsonMissingField("LL.Code"))
            &&& spec_reply_code(t, true) == Some("200"@) && spec_reply_value_str(t) is None
                ==> r == Err::<(), RequestError>(RequestError::JsonMissingField("LL.value"))
            &&& spec_reply_value_str(t) matches Some(v)
                ==> (spec_reply_code(t, true) == Some("200"@) && v != "1"@
                    ==> r == Err::<(), RequestError>(RequestError::UnexpectedValue))
            &&& spec_reply_code(t, true) matches Some(c) ==> (c != "200"@
                ==> r is Err && r->Err_0 is InvalidStatusCode && r->Err_0->InvalidStatusCode_0@ == c)
        },
{
    let text = match reply {
        Message::Text(t) => t,
        _ => {
            return Err(RequestError::InvalidMessageType);
        },
    };
    match check_status(text.as_str(), true) {
        Ok(()) => {},
        Err(e) => {
            return Err(e);
        },
    }
    let value = match reply_value_str(text.as_str()) {
        Some(v) => v,
        None => {
            return Err(RequestError::JsonMissingField("LL.value"));
        },
    };
    let one = String::from_str("1");
    if value == one {
        Ok(())
    } else {
        Err(RequestError::UnexpectedValue)
    }
}

/// Builds the io command for a control UUID and mutation.
pub fn io_command(uuid: &str, mutation: &str) -> (r: String)
    ensures
        r@ == "jdev/sps/io/"@ + uuid@ + seq!['/'] + mutation@,
{
    let mut cmd = String::from_str("jdev/sps/io/");
    cmd.append(uuid);
    push_char(&mut cmd, '/');
    cmd.append(mutation);
    proof {
        assert(cmd@ =~= "jdev/sps/io/"@ + uuid@ + seq!['/'] + mutation@);
    }
    cmd
}

} // verus!
