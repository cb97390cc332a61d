//! The messages of the NTLM handshake: the negotiation message that opens
//! it, the server's challenge, and the authentication message that answers it.
//!
//! The messages are encoded and decoded, and the response to the challenge is
//! computed, by the `ntlmclient` crate; what goes on the wire between them is
//! base64 text, by the `base64` crate.

use crate::encoding::{base64_bytes, base64_decode, base64_encode, base64_text};
use crate::error::{HandshakeError, InvalidCredentialsFormat, ProtocolError};
use crate::text::{chars_of, find, find_from, lemma_find, string_of};
use vstd::prelude::*;
use vstd::slice::{slice_subrange, slice_to_vec};
use vstd::string::StringExecFns;

verus! {

/// The flag by which a message states its names in Unicode.
pub const NEGOTIATE_UNICODE: u32 = 0x0000_0001;

/// The flag that asks the server to name its target.
pub const REQUEST_TARGET: u32 = 0x0000_0004;

/// The flag for NTLM authentication.
pub const NEGOTIATE_NTLM: u32 = 0x0000_0200;

/// The flag that says that the client names its workstation.
pub const NEGOTIATE_WORKSTATION_SUPPLIED: u32 = 0x0000_2000;

/// The flags of the negotiation message: Unicode, request for the target,
/// NTLM, and workstation supplied.
pub const NEGOTIATE_FLAGS: u32 = 0x0000_2205;

/// The flags of the authentication message: Unicode and NTLM.
pub const AUTHENTICATE_FLAGS: u32 = 0x0000_0201;

/// The name under which this client presents its workstation.
pub const WORKSTATION: &'static str = "octabot";

/// What an `Authorization` header starts with.
pub const SCHEME: &'static str = "NTLM ";

/// The longest field that a message can hold, in bytes.
pub const MAX_FIELD: usize = 0xFFFF;

/// Whether the flags hold `NEGOTIATE_UNICODE`, the lowest bit.
pub open spec fn speaks_unicode(flags: u32) -> bool {
    flags % 2 == 1
}

/// The number of 16-bit units that a text takes in UTF-16: two for a
/// character above U+FFFF, one for any other.
pub open spec fn utf16_len(s: Seq<char>) -> nat
    decreases s.len(),
{
    if s.len() == 0 {
        0
    } else {
        utf16_len(s.drop_last()) + if s.last() as u32 >= 0x1_0000 {
            2nat
        } else {
            1nat
        }
    }
}

/// Whether a text fits a field of a message: its UTF-16 form takes at most
/// `MAX_FIELD` bytes.
pub open spec fn fits_field(s: Seq<char>) -> bool {
    2 * utf16_len(s) <= MAX_FIELD
}

/// Whether a text fits a field of a message.
pub fn text_fits_field(s: &str) -> (b: bool)
    ensures
        b == fits_field(s@),
{
    let chars = chars_of(s);
    let mut units: usize = 0;
    let mut i: usize = 0;
    while i < chars.len()
        invariant
            i <= chars@.len(),
            chars@ == s@,
            units == utf16_len(chars@.take(i as int)),
            2 * units <= MAX_FIELD,
        decreases chars.len() - i,
    {
        proof {
            assert(chars@.take(i + 1).drop_last() =~= chars@.take(i as int));
        }
        if chars[i] as u32 >= 0x1_0000 {
            units += 2;
        } else {
            units += 1;
        }
        if units > MAX_FIELD / 2 {
            proof {
                lemma_utf16_len_grows(chars@, i + 1);
            }
            return false;
        }
        i += 1;
    }
    proof {
        assert(chars@.take(i as int) =~= chars@);
    }
    true
}

/// A text takes at least as many units as any of its beginnings.
pub proof fn lemma_utf16_len_grows(s: Seq<char>, n: int)
    requires
        0 <= n <= s.len(),
    ensures
        utf16_len(s.take(n)) <= utf16_len(s),
    decreases s.len() - n,
{
    if n < s.len() {
        assert(s.take(n + 1).drop_last() =~= s.take(n));
        lemma_utf16_len_grows(s, n + 1);
    } else {
        assert(s.take(n) =~= s);
    }
}

/// The name and the password of a user, and the domain of the name.
#[derive(Clone, Debug)]
pub struct Credentials {
    pub username: String,
    pub domain: String,
    pub password: String,
}

/// `Credentials` as a mathematical value.
pub struct CredentialsView {
    pub username: Seq<char>,
    pub domain: Seq<char>,
    pub password: Seq<char>,
}

impl View for Credentials {
    type V = CredentialsView;

    open spec fn view(&self) -> CredentialsView {
        CredentialsView {
            username: self.username@,
            domain: self.domain@,
            password: self.password@,
        }
    }
}

/// The sign that parts the user from the domain in a login.
pub open spec fn at_sign() -> Seq<char> {
    seq!['@']
}

/// The user and the domain of a login: what stands before its first `@` and
/// what stands after it.
pub open spec fn split_login(login: Seq<char>) -> Option<(Seq<char>, Seq<char>)> {
    match find(login, at_sign(), 0) {
        Some(at) => Some((login.subrange(0, at), login.subrange(at + 1, login.len() as int))),
        None => None,
    }
}

impl Credentials {
    /// The credentials of a login of the form `user@domain`. A login without
    /// `@` is refused.
    pub fn from_login(login: &str, password: &str) -> (r: Result<
        Credentials,
        InvalidCredentialsFormat,
    >)
        ensures
            match r {
                Ok(c) => split_login(login@) == Some((c.username@, c.domain@)) && c.password@
                    == password@,
                Err(e) => split_login(login@) is None && e.login@ == login@,
            },
    {
        let chars = chars_of(login);
        let at = vec!['@'];
        assert(at@ =~= at_sign());
        match find_from(chars.as_slice(), at.as_slice(), 0) {
            Some(i) => {
                proof {
                    lemma_find(chars@, at_sign(), 0);
                    assert(i + at_sign().len() <= chars.len());
                }
                let username = string_of(slice_subrange(chars.as_slice(), 0, i));
                let domain = string_of(slice_subrange(chars.as_slice(), i + 1, chars.len()));
                Ok(Credentials { username, domain, password: password.to_owned() })
            },
            None => Err(InvalidCredentialsFormat { login: login.to_owned() }),
        }
    }
}

/// The space, which parts the scheme of a header from its token.
pub open spec fn space() -> Seq<char> {
    seq![' ']
}

/// The second of the parts that single spaces divide a header into.
pub open spec fn second_token(value: Seq<char>) -> Option<Seq<char>> {
    match find(value, space(), 0) {
        Some(first) => match find(value, space(), first + 1) {
            Some(next) => Some(value.subrange(first + 1, next)),
            None => Some(value.subrange(first + 1, value.len() as int)),
        },
        None => None,
    }
}

/// The token of a `WWW-Authenticate` header: the second of the parts that
/// single spaces divide it into.
pub fn challenge_token(value: &str) -> (r: Option<String>)
    ensures
        match r {
            Some(token) => second_token(value@) == Some(token@),
            None => second_token(value@) is None,
        },
{
    let chars = chars_of(value);
    let sp = vec![' '];
    assert(sp@ =~= space());
    match find_from(chars.as_slice(), sp.as_slice(), 0) {
        Some(first) => {
            proof {
                lemma_find(chars@, space(), 0);
                assert(first + space().len() <= chars.len());
            }
            let end = match find_from(chars.as_slice(), sp.as_slice(), first + 1) {
                Some(next) => {
                    proof {
                        lemma_find(chars@, space(), first + 1);
                    }
                    next
                },
                None => chars.len(),
            };
            Some(string_of(slice_subrange(chars.as_slice(), first + 1, end)))
        },
        None => None,
    }
}

/// The message that opens the handshake.
#[derive(Clone, Debug)]
pub struct NegotiateMessage {
    pub flags: u32,
    /// The domain against which the client wishes to authenticate.
    pub supplied_domain: String,
    /// The name of the client's workstation.
    pub supplied_workstation: String,
}

/// A `NegotiateMessage` as a mathematical value.
pub struct NegotiateMessageView {
    pub flags: u32,
    pub supplied_domain: Seq<char>,
    pub supplied_workstation: Seq<char>,
}

impl View for NegotiateMessage {
    type V = NegotiateMessageView;

    open spec fn view(&self) -> NegotiateMessageView {
        NegotiateMessageView {
            flags: self.flags,
            supplied_domain: self.supplied_domain@,
            supplied_workstation: self.supplied_workstation@,
        }
    }
}

/// The message that answers the challenge.
#[derive(Clone, Debug)]
pub struct AuthenticateMessage {
    pub lm_response: Vec<u8>,
    pub ntlm_response: Vec<u8>,
    pub domain_name: String,
    pub user_name: String,
    pub workstation_name: String,
    pub session_key: Vec<u8>,
    pub flags: u32,
}

/// An `AuthenticateMessage` as a mathematical value.
pub struct AuthenticateMessageView {
    pub lm_response: Seq<u8>,
    pub ntlm_response: Seq<u8>,
    pub domain_name: Seq<char>,
    pub user_name: Seq<char>,
    pub workstation_name: Seq<char>,
    pub session_key: Seq<u8>,
    pub flags: u32,
}

impl View for AuthenticateMessage {
    type V = AuthenticateMessageView;

    open spec fn view(&self) -> AuthenticateMessageView {
        AuthenticateMessageView {
            lm_response: self.lm_response@,
            ntlm_response: self.ntlm_response@,
            domain_name: self.domain_name@,
            user_name: self.user_name@,
            workstation_name: self.workstation_name@,
            session_key: self.session_key@,
            flags: self.flags,
        }
    }
}

/// A message that the client sends.
#[derive(Clone, Debug)]
pub enum ClientMessage {
    Negotiate(NegotiateMessage),
    Authenticate(AuthenticateMessage),
}

/// A `ClientMessage` as a mathematical value.
pub enum ClientMessageView {
    Negotiate(NegotiateMessageView),
    Authenticate(AuthenticateMessageView),
}

impl View for ClientMessage {
    type V = ClientMessageView;

    open spec fn view(&self) -> ClientMessageView {
        match self {
            ClientMessage::Negotiate(m) => ClientMessageView::Negotiate(m@),
            ClientMessage::Authenticate(m) => ClientMessageView::Authenticate(m@),
        }
    }
}

/// One block of the target information of a challenge: its type and its
/// bytes.
#[derive(Clone, Debug)]
pub struct TargetInfoBlock {
    pub kind: u16,
    pub data: Vec<u8>,
}

/// The server's challenge.
#[derive(Clone, Debug)]
pub struct ChallengeMessage {
    /// The eight bytes that the client has to answer.
    pub server_challenge: [u8; 8],
    pub flags: u32,
    /// The blocks of target information, in the order in which they came.
    pub target_information: Vec<TargetInfoBlock>,
}

/// A `ChallengeMessage` as a mathematical value.
pub struct ChallengeMessageView {
    pub server_challenge: Seq<u8>,
    pub flags: u32,
    pub target_information: Seq<(u16, Seq<u8>)>,
}

impl View for TargetInfoBlock {
    type V = (u16, Seq<u8>);

    open spec fn view(&self) -> (u16, Seq<u8>) {
        (self.kind, self.data@)
    }
}

impl View for ChallengeMessage {
    type V = ChallengeMessageView;

    open spec fn view(&self) -> ChallengeMessageView {
        ChallengeMessageView {
            server_challenge: self.server_challenge@,
            flags: self.flags,
            target_information: self.target_information@.map_values(|b: TargetInfoBlock| b@),
        }
    }
}

/// What the bytes of a message were read as.
#[derive(Debug)]
pub enum DecodedMessage {
    /// No message of the protocol.
    Malformed,
    /// A challenge.
    Challenge(ChallengeMessage),
    /// A message of another type, with the number of its type.
    Other(u32),
}

/// A `DecodedMessage` as a mathematical value.
pub enum DecodedMessageView {
    Malformed,
    Challenge(ChallengeMessageView),
    Other(u32),
}

impl View for DecodedMessage {
    type V = DecodedMessageView;

    open spec fn view(&self) -> DecodedMessageView {
        match self {
            DecodedMessage::Malformed => DecodedMessageView::Malformed,
            DecodedMessage::Challenge(c) => DecodedMessageView::Challenge(c@),
            DecodedMessage::Other(n) => DecodedMessageView::Other(*n),
        }
    }
}

/// The response to a challenge: the three fields that the authentication
/// message carries.
#[derive(Clone, Debug)]
pub struct ChallengeResponse {
    pub lm_response: Vec<u8>,
    pub ntlm_response: Vec<u8>,
    pub session_key: Vec<u8>,
}

/// A `ChallengeResponse` as a mathematical value.
pub struct ChallengeResponseView {
    pub lm_response: Seq<u8>,
    pub ntlm_response: Seq<u8>,
    pub session_key: Seq<u8>,
}

impl View for ChallengeResponse {
    type V = ChallengeResponseView;

    open spec fn view(&self) -> ChallengeResponseView {
        ChallengeResponseView {
            lm_response: self.lm_response@,
            ntlm_response: self.ntlm_response@,
            session_key: self.session_key@,
        }
    }
}

/// Names what `ntlmclient::Message::to_bytes` returns for a message of the
/// client with a zero version: the bytes of the message; `None` where it
/// cannot be encoded.
pub uninterp spec fn message_wire(message: ClientMessageView) -> Option<Seq<u8>>;

/// Names what `ntlmclient::Message::try_from` reads from bytes.
pub uninterp spec fn decoded_wire(bytes: Seq<u8>) -> DecodedMessageView;

/// Names what `ntlmclient::respond_challenge_ntlm_v2` returns for a server
/// challenge, target information, a time and credentials once it has drawn
/// the client nonce `nonce`.
pub uninterp spec fn ntlm_v2_response(
    server_challenge: Seq<u8>,
    target_info: Seq<u8>,
    time: i64,
    username: Seq<char>,
    password: Seq<char>,
    domain: Seq<char>,
    nonce: Seq<u8>,
) -> ChallengeResponseView;

/// Whether the bytes start like a challenge that states its names in
/// Unicode: the type of the message, at bytes 8 to 11, is 2, and the lowest
/// bit of its flags, at byte 20, is set.
pub open spec fn is_unicode_challenge(bytes: Seq<u8>) -> bool {
    &&& bytes.len() >= 24
    &&& bytes[8] == 2 && bytes[9] == 0 && bytes[10] == 0 && bytes[11] == 0
    &&& bytes[20] % 2 == 1
}

/// The client nonce of a response: the last eight of the 24 bytes of its LM
/// response.
pub open spec fn client_nonce(response: ChallengeResponseView) -> Seq<u8> {
    response.lm_response.subrange(16, 24)
}

/// Whether `response` answers the challenge for these credentials at this
/// time, with the nonce that it carries.
pub open spec fn is_response_to(
    response: ChallengeResponseView,
    server_challenge: Seq<u8>,
    target_info: Seq<u8>,
    time: i64,
    credentials: CredentialsView,
) -> bool {
    response == ntlm_v2_response(
        server_challenge,
        target_info,
        time,
        credentials.username,
        credentials.password,
        credentials.domain,
        client_nonce(response),
    )
}

/// The flags of a message.
pub open spec fn message_flags(message: ClientMessageView) -> u32 {
    match message {
        ClientMessageView::Negotiate(m) => m.flags,
        ClientMessageView::Authenticate(m) => m.flags,
    }
}

/// Whether each field of a message fits its 16-bit length.
pub open spec fn message_fits(message: ClientMessageView) -> bool {
    match message {
        ClientMessageView::Negotiate(m) => fits_field(m.supplied_domain) && fits_field(
            m.supplied_workstation,
        ),
        ClientMessageView::Authenticate(m) => {
            &&& m.lm_response.len() <= MAX_FIELD
            &&& m.ntlm_response.len() <= MAX_FIELD
            &&& m.session_key.len() <= MAX_FIELD
            &&& fits_field(m.domain_name)
            &&& fits_field(m.user_name)
            &&& fits_field(m.workstation_name)
        },
    }
}

/// The bytes of a message of the client, by `ntlmclient::Message::to_bytes`.
/// The message states its names in Unicode, so that no code page of the
/// machine is read, and each field fits its 16-bit length, without which
/// that call panics.
#[verifier::external_body]
fn message_to_bytes(message: &ClientMessage) -> (r: Option<Vec<u8>>)
    requires
        speaks_unicode(message_flags(message@)),
        message_fits(message@),
    ensures
        match r {
            Some(bytes) => message_wire(message@) == Some(bytes@),
            None => message_wire(message@) is None,
        },
{
    let outgoing = match message.clone() {
        ClientMessage::Negotiate(m) => ntlmclient::Message::Negotiate(
            ntlmclient::NegotiateMessage {
                flags: ntlmclient::Flags::from_bits_retain(m.flags), os_version: Default::default(),
                supplied_domain: m.supplied_domain, supplied_workstation: m.supplied_workstation,
        }),
        ClientMessage::Authenticate(m) => ntlmclient::Message::Authenticate(
            ntlmclient::AuthenticateMessage {
                flags: ntlmclient::Flags::from_bits_retain(m.flags), os_version: Default::default(),
                lm_response: m.lm_response, ntlm_response: m.ntlm_response,
                domain_name: m.domain_name, user_name: m.user_name,
                workstation_name: m.workstation_name, session_key: m.session_key,
        }),
    };
    outgoing.to_bytes().ok()
}

/// Reads a message from bytes, by `ntlmclient::Message::try_from`. Of a
/// challenge only the server challenge, the flags and the target information
/// are kept. The result is named for a challenge in Unicode only: a name in
/// another encoding is read through the code page of the machine on some
/// systems.
#[verifier::external_body]
fn message_from_bytes(bytes: &[u8]) -> (r: DecodedMessage)
    ensures
        is_unicode_challenge(bytes@) ==> r@ == decoded_wire(bytes@),
{
    match ntlmclient::Message::try_from(bytes) {
        Ok(ntlmclient::Message::Challenge(c)) => DecodedMessage::Challenge(
            ChallengeMessage {
                server_challenge: c.challenge,
                flags: c.flags.bits(),
                target_information: c.target_information.into_iter().map(
                    |e| TargetInfoBlock { kind: e.entry_type.into(), data: e.data },
                ).collect(),
            },
        ),
        Ok(other) => DecodedMessage::Other(other.message_number()),
        Err(_) => DecodedMessage::Malformed,
    }
}

/// The response to a challenge, by `ntlmclient::respond_challenge_ntlm_v2`.
/// That call draws eight random bytes, the client nonce, and hands them back
/// as bytes 16 to 23 of the LM response; all else follows from the arguments
/// and the nonce.
#[verifier::external_body]
fn respond_to_challenge(
    server_challenge: &[u8; 8],
    target_info: &[u8],
    time: i64,
    credentials: &Credentials,
) -> (r: ChallengeResponse)
    ensures
        r@ == ntlm_v2_response(
            server_challenge@,
            target_info@,
            time,
            credentials.username@,
            credentials.password@,
            credentials.domain@,
            client_nonce(r@),
        ),
{
    let creds = ntlmclient::Credentials {
        username: credentials.username.clone(),
        password: credentials.password.clone(),
        domain: credentials.domain.clone(),
    };
    let r = ntlmclient::respond_challenge_ntlm_v2(*server_challenge, target_info, time, &creds);
    ChallengeResponse {
        lm_response: r.lm_response,
        ntlm_response: r.ntlm_response,
        session_key: r.session_key,
    }
}

/// The current time as the protocol counts it, by
/// `ntlmclient::get_ntlm_time`.
#[verifier::external_body]
fn ntlm_time_now() -> i64 {
    ntlmclient::get_ntlm_time()
}

/// The negotiation message of this client: its fixed flags, no domain, and
/// its workstation.
pub open spec fn negotiate_message_spec() -> NegotiateMessageView {
    NegotiateMessageView {
        flags: NEGOTIATE_FLAGS,
        supplied_domain: Seq::empty(),
        supplied_workstation: WORKSTATION@,
    }
}

/// The negotiation message of this client.
pub fn negotiate_message() -> (m: NegotiateMessage)
    ensures
        m@ == negotiate_message_spec(),
{
    NegotiateMessage {
        flags: NEGOTIATE_FLAGS,
        supplied_domain: String::new(),
        supplied_workstation: WORKSTATION.to_owned(),
    }
}

/// The bytes of a message of the client, or why it has none.
pub open spec fn encode_message_spec(message: ClientMessageView) -> Result<Seq<u8>, ProtocolError> {
    if !speaks_unicode(message_flags(message)) {
        Err(ProtocolError::UnsupportedEncoding)
    } else if !message_fits(message) {
        Err(ProtocolError::FieldTooLong)
    } else {
        match message_wire(message) {
            Some(bytes) => Ok(bytes),
            None => Err(ProtocolError::EncodeFailed),
        }
    }
}

/// A result with bytes as a mathematical value.
pub open spec fn bytes_result(r: Result<Vec<u8>, ProtocolError>) -> Result<Seq<u8>, ProtocolError> {
    match r {
        Ok(bytes) => Ok(bytes@),
        Err(e) => Err(e),
    }
}

/// Whether each field of a message fits its 16-bit length.
fn fits(message: &ClientMessage) -> (b: bool)
    ensures
        b == message_fits(message@),
{
    match message {
        ClientMessage::Negotiate(m) => text_fits_field(m.supplied_domain.as_str())
            && text_fits_field(m.supplied_workstation.as_str()),
        ClientMessage::Authenticate(m) => m.lm_response.len() <= MAX_FIELD && m.ntlm_response.len()
            <= MAX_FIELD && m.session_key.len() <= MAX_FIELD && text_fits_field(
            m.domain_name.as_str(),
        ) && text_fits_field(m.user_name.as_str()) && text_fits_field(m.workstation_name.as_str()),
    }
}

/// Encodes a message of the client. Only a message that states its names in
/// Unicode is encoded, and only if each of its fields fits its length.
pub fn encode_message(message: &ClientMessage) -> (r: Result<Vec<u8>, ProtocolError>)
    ensures
        bytes_result(r) == encode_message_spec(message@),
{
    let flags = match message {
        ClientMessage::Negotiate(m) => m.flags,
        ClientMessage::Authenticate(m) => m.flags,
    };
    if flags % 2 != 1 {
        return Err(ProtocolError::UnsupportedEncoding);
    }
    if !fits(message) {
        return Err(ProtocolError::FieldTooLong);
    }
    match message_to_bytes(message) {
        Some(bytes) => Ok(bytes),
        None => Err(ProtocolError::EncodeFailed),
    }
}

/// The value of the `Authorization` header for a message: the scheme and
/// the base64 text of the message.
pub open spec fn authorization_spec(message: Seq<u8>) -> Seq<char> {
    SCHEME@ + base64_text(message)
}

/// The value of the `Authorization` header that carries a message.
pub fn authorization_value(message: &[u8]) -> (value: String)
    ensures
        value@ == authorization_spec(message@),
{
    let mut value = SCHEME.to_owned();
    let text = base64_encode(message);
    value.append(text.as_str());
    value
}

/// The value of the `Authorization` header of the first request: the
/// negotiation message of this client, encoded.
pub open spec fn negotiate_authorization_spec() -> Result<Seq<char>, ProtocolError> {
    match message_wire(ClientMessageView::Negotiate(negotiate_message_spec())) {
        Some(bytes) => Ok(authorization_spec(bytes)),
        None => Err(ProtocolError::EncodeFailed),
    }
}

/// A result with text as a mathematical value.
pub open spec fn text_result<E>(r: Result<String, E>) -> Result<Seq<char>, E> {
    match r {
        Ok(text) => Ok(text@),
        Err(e) => Err(e),
    }
}

/// The value of the `Authorization` header of the first request.
pub fn negotiate_authorization() -> (r: Result<String, ProtocolError>)
    ensures
        text_result(r) == negotiate_authorization_spec(),
{
    proof {
        lemma_client_constants_fit();
    }
    match encode_message(&ClientMessage::Negotiate(negotiate_message())) {
        Ok(bytes) => Ok(authorization_value(bytes.as_slice())),
        Err(e) => Err(e),
    }
}

/// The challenge that a decoded message holds, or why it holds none.
pub open spec fn challenge_of_spec(d: DecodedMessageView) -> Result<
    ChallengeMessageView,
    ProtocolError,
> {
    match d {
        DecodedMessageView::Challenge(c) => Ok(c),
        DecodedMessageView::Other(n) => Err(ProtocolError::UnexpectedMessage(n)),
        DecodedMessageView::Malformed => Err(ProtocolError::MalformedMessage),
    }
}

/// The challenge that a decoded message holds. A message of another type
/// and bytes that are no message are refused.
pub fn challenge_of(d: DecodedMessage) -> (r: Result<ChallengeMessage, ProtocolError>)
    ensures
        match r {
            Ok(c) => challenge_of_spec(d@) == Ok::<ChallengeMessageView, ProtocolError>(c@),
            Err(e) => challenge_of_spec(d@) == Err::<ChallengeMessageView, ProtocolError>(e),
        },
{
    match d {
        DecodedMessage::Challenge(c) => Ok(c),
        DecodedMessage::Other(n) => Err(ProtocolError::UnexpectedMessage(n)),
        DecodedMessage::Malformed => Err(ProtocolError::MalformedMessage),
    }
}

/// Whether `r` is what the bytes of a message yield as a challenge. Of bytes
/// that are no challenge in Unicode this says nothing.
pub open spec fn is_challenge_of(
    bytes: Seq<u8>,
    r: Result<ChallengeMessage, ProtocolError>,
) -> bool {
    is_unicode_challenge(bytes) ==> match r {
        Ok(c) => challenge_of_spec(decoded_wire(bytes)) == Ok::<ChallengeMessageView, ProtocolError>(
            c@,
        ),
        Err(e) => challenge_of_spec(decoded_wire(bytes)) == Err::<
            ChallengeMessageView,
            ProtocolError,
        >(e),
    }
}

/// Reads the bytes of a message as a challenge.
pub fn read_challenge(bytes: &[u8]) -> (r: Result<ChallengeMessage, ProtocolError>)
    ensures
        is_challenge_of(bytes@, r),
{
    challenge_of(message_from_bytes(bytes))
}

/// Whether `r` is what a `WWW-Authenticate` header yields as a challenge:
/// the second part of the header, decoded from base64 and read as a message.
pub open spec fn is_header_challenge(
    value: Seq<char>,
    r: Result<ChallengeMessage, ProtocolError>,
) -> bool {
    match second_token(value) {
        None => r == Err::<ChallengeMessage, ProtocolError>(ProtocolError::MissingChallengeToken),
        Some(token) => match base64_bytes(token) {
            None => r == Err::<ChallengeMessage, ProtocolError>(
                ProtocolError::InvalidChallengeEncoding,
            ),
            Some(bytes) => is_challenge_of(bytes, r),
        },
    }
}

/// Reads the challenge that a `WWW-Authenticate` header carries.
pub fn challenge_from_header(value: &str) -> (r: Result<ChallengeMessage, ProtocolError>)
    ensures
        is_header_challenge(value@, r),
{
    let token = match challenge_token(value) {
        Some(token) => token,
        None => {
            return Err(ProtocolError::MissingChallengeToken);
        },
    };
    let bytes = match base64_decode(token.as_str()) {
        Some(bytes) => bytes,
        None => {
            return Err(ProtocolError::InvalidChallengeEncoding);
        },
    };
    read_challenge(bytes.as_slice())
}

/// A 16-bit number as two bytes, the low byte first.
pub open spec fn le16(n: int) -> Seq<u8> {
    seq![(n % 256) as u8, (n / 256 % 256) as u8]
}

/// A block of target information as it stands on the wire: its type and the
/// length of its bytes, each as two bytes, and the bytes.
pub open spec fn block_wire(block: (u16, Seq<u8>)) -> Seq<u8> {
    le16(block.0 as int) + le16(block.1.len() as int) + block.1
}

/// The blocks as they stand on the wire, one after the other.
pub open spec fn target_info_spec(blocks: Seq<(u16, Seq<u8>)>) -> Seq<u8>
    decreases blocks.len(),
{
    if blocks.len() == 0 {
        Seq::empty()
    } else {
        target_info_spec(blocks.drop_last()) + block_wire(blocks.last())
    }
}

/// Whether the bytes of each block fit a field.
pub open spec fn blocks_fit(blocks: Seq<(u16, Seq<u8>)>) -> bool {
    forall|i: int| 0 <= i < blocks.len() ==> (#[trigger] blocks[i]).1.len() <= MAX_FIELD
}

impl ChallengeMessage {
    /// The target information as one run of bytes: the blocks in their order,
    /// each as it stands on the wire. A block whose bytes do not fit a field
    /// cannot stand on the wire.
    pub fn target_info_blob(&self) -> (r: Result<Vec<u8>, ProtocolError>)
        ensures
            match r {
                Ok(blob) => blocks_fit(self@.target_information) && blob@ == target_info_spec(
                    self@.target_information,
                ),
                Err(e) => !blocks_fit(self@.target_information) && e
                    == ProtocolError::FieldTooLong,
            },
    {
        let ghost blocks = self@.target_information;
        let mut blob: Vec<u8> = Vec::new();
        let mut i: usize = 0;
        while i < self.target_information.len()
            invariant
                i <= self.target_information@.len(),
                blocks == self@.target_information,
                blocks.len() == self.target_information@.len(),
                blocks_fit(blocks.take(i as int)),
                blob@ == target_info_spec(blocks.take(i as int)),
            decreases self.target_information.len() - i,
        {
            let block = &self.target_information[i];
            let len = block.data.len();
            proof {
                assert(blocks.take(i + 1).drop_last() =~= blocks.take(i as int));
                assert(blocks[i as int] == block@);
            }
            if len > MAX_FIELD {
                return Err(ProtocolError::FieldTooLong);
            }
            let ghost before = blob@;
            blob.push((block.kind % 256) as u8);
            blob.push((block.kind / 256) as u8);
            blob.push((len % 256) as u8);
            blob.push((len / 256) as u8);
            let mut k: usize = 0;
            while k < len
                invariant
                    k <= len,
                    len == block.data@.len(),
                    blob@ == before + le16(block.kind as int) + le16(len as int)
                        + block.data@.take(k as int),
                decreases len - k,
            {
                blob.push(block.data[k]);
                k += 1;
            }
            proof {
                assert forall|j: int| 0 <= j < i + 1 implies (#[trigger] blocks.take(i + 1)[j]).1.len()
                    <= MAX_FIELD by {}
            }
            i += 1;
        }
        proof {
            assert(blocks.take(i as int) =~= blocks);
        }
        Ok(blob)
    }
}

/// The flags of this client say Unicode, and its workstation and the empty
/// domain fit their fields.
pub proof fn lemma_client_constants_fit()
    ensures
        speaks_unicode(NEGOTIATE_FLAGS),
        speaks_unicode(AUTHENTICATE_FLAGS),
        fits_field(WORKSTATION@),
        fits_field(Seq::<char>::empty()),
{
    reveal_strlit("octabot");
    reveal_with_fuel(utf16_len, 8);
    lemma_utf16_len_bound(WORKSTATION@);
}

/// A text takes at most two units for each of its characters.
pub proof fn lemma_utf16_len_bound(s: Seq<char>)
    ensures
        utf16_len(s) <= 2 * s.len(),
    decreases s.len(),
{
    if s.len() > 0 {
        lemma_utf16_len_bound(s.drop_last());
    }
}

/// The authentication message that carries a response for a user: the three
/// fields of the response, the user and the domain of the credentials, and
/// the workstation and the flags given.
pub open spec fn to_message_spec(
    response: ChallengeResponseView,
    credentials: CredentialsView,
    workstation: Seq<char>,
    flags: u32,
) -> AuthenticateMessageView {
    AuthenticateMessageView {
        lm_response: response.lm_response,
        ntlm_response: response.ntlm_response,
        domain_name: credentials.domain,
        user_name: credentials.username,
        workstation_name: workstation,
        session_key: response.session_key,
        flags,
    }
}

/// A copy of bytes.
fn copy_bytes(bytes: &Vec<u8>) -> (copy: Vec<u8>)
    ensures
        copy@ == bytes@,
{
    slice_to_vec(bytes.as_slice())
}

impl ChallengeResponse {
    /// The authentication message that carries this response for a user.
    pub fn to_message(&self, credentials: &Credentials, workstation: &str, flags: u32) -> (m:
        AuthenticateMessage)
        ensures
            m@ == to_message_spec(self@, credentials@, workstation@, flags),
    {
        AuthenticateMessage {
            lm_response: copy_bytes(&self.lm_response),
            ntlm_response: copy_bytes(&self.ntlm_response),
            domain_name: credentials.domain.clone(),
            user_name: credentials.username.clone(),
            workstation_name: workstation.to_owned(),
            session_key: copy_bytes(&self.session_key),
            flags,
        }
    }
}

/// The bytes of the authentication message that carries a response for a
/// user, with the flags and the workstation of this client, or why it has
/// none.
pub open spec fn encode_authenticate_spec(
    response: ChallengeResponseView,
    credentials: CredentialsView,
) -> Result<Seq<u8>, ProtocolError> {
    encode_message_spec(
        ClientMessageView::Authenticate(
            to_message_spec(response, credentials, WORKSTATION@, AUTHENTICATE_FLAGS),
        ),
    )
}

/// Encodes the authentication message that carries a response for a user.
pub fn encode_authenticate(response: &ChallengeResponse, credentials: &Credentials) -> (r: Result<
    Vec<u8>,
    ProtocolError,
>)
    ensures
        bytes_result(r) == encode_authenticate_spec(response@, credentials@),
{
    let message = response.to_message(credentials, WORKSTATION, AUTHENTICATE_FLAGS);
    encode_message(&ClientMessage::Authenticate(message))
}

/// Whether `r` is an authentication message for a challenge: the message
/// that carries some response to the challenge for these credentials at this
/// time. The response is fixed by the nonce that it carries.
pub open spec fn is_authentication_of(
    r: Result<Seq<u8>, ProtocolError>,
    challenge: ChallengeMessageView,
    credentials: CredentialsView,
    time: i64,
) -> bool {
    if !blocks_fit(challenge.target_information) {
        r == Err::<Seq<u8>, ProtocolError>(ProtocolError::FieldTooLong)
    } else {
        exists|response: ChallengeResponseView|
            is_response_to(
                response,
                challenge.server_challenge,
                target_info_spec(challenge.target_information),
                time,
                credentials,
            ) && r == encode_authenticate_spec(response, credentials)
    }
}

/// Answers a challenge: computes the response for the credentials at the
/// given time and encodes the authentication message that carries it.
pub fn authenticate_bytes(challenge: &ChallengeMessage, credentials: &Credentials, time: i64) -> (r:
    Result<Vec<u8>, ProtocolError>)
    ensures
        is_authentication_of(bytes_result(r), challenge@, credentials@, time),
{
    let blob = match challenge.target_info_blob() {
        Ok(blob) => blob,
        Err(e) => {
            return Err(e);
        },
    };
    let response = respond_to_challenge(
        &challenge.server_challenge,
        blob.as_slice(),
        time,
        credentials,
    );
    encode_authenticate(&response, credentials)
}

/// Two responses to one challenge, for the same credentials and at the same
/// time, that carry the same client nonce are the same response.
pub proof fn law_response_is_reproducible(
    a: ChallengeResponseView,
    b: ChallengeResponseView,
    server_challenge: Seq<u8>,
    target_info: Seq<u8>,
    time: i64,
    credentials: CredentialsView,
)
    requires
        is_response_to(a, server_challenge, target_info, time, credentials),
        is_response_to(b, server_challenge, target_info, time, credentials),
        client_nonce(a) == client_nonce(b),
    ensures
        a == b,
{
}

/// Whether `r` answers what was read as a challenge: a failure to read it is
/// handed on; else the login is split into user and domain, and the
/// authentication message for them goes into an `Authorization` header.
pub open spec fn is_answer_to(
    r: Result<String, HandshakeError>,
    challenge: Result<ChallengeMessage, ProtocolError>,
    login: Seq<char>,
    password: Seq<char>,
    time: i64,
) -> bool {
    match challenge {
        Err(e) => r matches Err(HandshakeError::Protocol(cause)) && cause == e,
        Ok(c) => match split_login(login) {
            None => r matches Err(HandshakeError::Credentials(cause)) && cause.login@ == login,
            Some((username, domain)) => exists|message: Result<Seq<u8>, ProtocolError>|
                is_authentication_of(
                    message,
                    c@,
                    CredentialsView { username, domain, password },
                    time,
                ) && match message {
                    Ok(bytes) => r matches Ok(value) && value@ == authorization_spec(bytes),
                    Err(e) => r matches Err(HandshakeError::Protocol(cause)) && cause == e,
                },
        },
    }
}

/// Answers what was read as a challenge with the value of the
/// `Authorization` header of the second request.
pub fn answer_challenge_message(
    challenge: Result<ChallengeMessage, ProtocolError>,
    login: &str,
    password: &str,
    time: i64,
) -> (r: Result<String, HandshakeError>)
    ensures
        is_answer_to(r, challenge, login@, password@, time),
{
    let challenge = match challenge {
        Ok(c) => c,
        Err(e) => {
            return Err(HandshakeError::Protocol(e));
        },
    };
    let credentials = match Credentials::from_login(login, password) {
        Ok(c) => c,
        Err(e) => {
            return Err(HandshakeError::Credentials(e));
        },
    };
    let message = authenticate_bytes(&challenge, &credentials, time);
    match message {
        Ok(bytes) => Ok(authorization_value(bytes.as_slice())),
        Err(e) => Err(HandshakeError::Protocol(e)),
    }
}

/// Whether `r` answers the response to the first request, of which
/// `www_authenticate` is the header of that name, at the given time.
pub open spec fn is_handshake_answer(
    r: Result<String, HandshakeError>,
    www_authenticate: Option<Seq<char>>,
    login: Seq<char>,
    password: Seq<char>,
    time: i64,
) -> bool {
    match www_authenticate {
        None => r matches Err(HandshakeError::Protocol(cause)) && cause
            == ProtocolError::MissingChallengeHeader,
        Some(value) => answers_header(r, value, login, password, time),
    }
}

/// Whether `r` answers the challenge that a `WWW-Authenticate` header
/// carries.
pub open spec fn answers_header(
    r: Result<String, HandshakeError>,
    value: Seq<char>,
    login: Seq<char>,
    password: Seq<char>,
    time: i64,
) -> bool {
    exists|challenge: Result<ChallengeMessage, ProtocolError>|
        #[trigger] is_header_challenge(value, challenge) && is_answer_to(
            r,
            challenge,
            login,
            password,
            time,
        )
}

/// A header that may be absent as a mathematical value.
pub open spec fn header_view(header: Option<&str>) -> Option<Seq<char>> {
    match header {
        Some(value) => Some(value@),
        None => None,
    }
}

/// Answers the response to the first request: reads the challenge from its
/// `WWW-Authenticate` header and computes the value of the `Authorization`
/// header of the second request, for the given time.
pub fn answer_challenge(www_authenticate: Option<&str>, login: &str, password: &str, time: i64) -> (r:
    Result<String, HandshakeError>)
    ensures
        is_handshake_answer(r, header_view(www_authenticate), login@, password@, time),
{
    match www_authenticate {
        None => Err(HandshakeError::Protocol(ProtocolError::MissingChallengeHeader)),
        Some(value) => {
            let challenge = challenge_from_header(value);
            answer_challenge_message(challenge, login, password, time)
        },
    }
}

/// Answers the response to the first request at the current time.
pub fn answer_challenge_now(www_authenticate: Option<&str>, login: &str, password: &str) -> (r:
    Result<String, HandshakeError>)
    ensures
        exists|time: i64|
            is_handshake_answer(r, header_view(www_authenticate), login@, password@, time),
{
    let time = ntlm_time_now();
    answer_challenge(www_authenticate, login, password, time)
}

} // verus!
