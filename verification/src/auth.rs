//! LingModel browser sign-in: the outside calls behind the PKCE request and
//! the token exchange, and the callback that the editor routes to the
//! provider, buffered for a provider that subscribes late.
use vstd::prelude::*;
use vstd::string::*;
use vstd::utf8::encode_utf8;
use crate::text::{trim, trim_str};

verus! {

// ---- outside calls --------------------------------------------------------

/// The character of the 6-bit value `v` in the URL-safe base64 alphabet:
/// `A`–`Z`, `a`–`z`, `0`–`9`, `-`, `_`.
pub open spec fn url_safe_digit(v: int) -> char {
    if v < 26 {
        (65 + v) as char
    } else if v < 52 {
        (97 + v - 26) as char
    } else if v < 62 {
        (48 + v - 52) as char
    } else if v == 62 {
        '-'
    } else {
        '_'
    }
}

/// The unpadded base64 text of `data` in the URL-safe alphabet, as
/// `base64::engine::general_purpose::URL_SAFE_NO_PAD` encodes it: each run
/// of three bytes becomes four characters of six bits each; a last run of
/// one or two bytes becomes two or three characters, without `=`.
pub open spec fn base64_url_no_pad(data: Seq<u8>) -> Seq<char>
    decreases data.len(),
{
    if data.len() == 0 {
        Seq::empty()
    } else if data.len() == 1 {
        let a = data[0] as int;
        seq![url_safe_digit(a / 4), url_safe_digit((a % 4) * 16)]
    } else if data.len() == 2 {
        let a = data[0] as int;
        let b = data[1] as int;
        seq![url_safe_digit(a / 4), url_safe_digit((a % 4) * 16 + b / 16), url_safe_digit((b % 16) * 4)]
    } else {
        let a = data[0] as int;
        let b = data[1] as int;
        let c = data[2] as int;
        seq![
            url_safe_digit(a / 4),
            url_safe_digit((a % 4) * 16 + b / 16),
            url_safe_digit((b % 16) * 4 + c / 64),
            url_safe_digit(c % 64),
        ] + base64_url_no_pad(data.skip(3))
    }
}

/// The SHA-256 digest of `data`, as `sha2::Sha256` computes it.
pub uninterp spec fn sha256(data: Seq<u8>) -> Seq<u8>;

/// The `Debug` text of a string: the string in double quotes, escaped.
pub uninterp spec fn str_debug(s: Seq<char>) -> Seq<char>;

/// The characters of the URL-safe base64 alphabet.
pub open spec fn is_url_safe_char(c: char) -> bool {
    ('A' <= c <= 'Z') || ('a' <= c <= 'z') || ('0' <= c <= '9') || c == '-' || c == '_'
}

/// The length of the unpadded base64 text of `n` bytes.
pub open spec fn unpadded_base64_len(n: nat) -> nat {
    (n / 3) * 4 + if n % 3 == 0 {
        0
    } else {
        n % 3 + 1
    }
}

/// Encodes `data` with `base64::engine::general_purpose::URL_SAFE_NO_PAD`
/// (`Engine::encode`). The contract claims the result is the unpadded
/// URL-safe base64 text of the bytes (`base64_url_no_pad`).
#[verifier::external_body]
pub(crate) fn encode_url_safe(data: &[u8]) -> (r: String)
    requires
        (data@.len() / 3) * 4 + 4 <= usize::MAX,
    ensures
        r@ == base64_url_no_pad(data@),
{
    base64::Engine::encode(&base64::engine::general_purpose::URL_SAFE_NO_PAD, data)
}

/// The unpadded base64 text of `n` bytes has the documented length and is
/// made of the URL-safe alphabet.
pub proof fn lemma_base64_shape(data: Seq<u8>)
    ensures
        base64_url_no_pad(data).len() == unpadded_base64_len(data.len()),
        forall|i: int|
            0 <= i < base64_url_no_pad(data).len() ==> is_url_safe_char(
                #[trigger] base64_url_no_pad(data)[i],
            ),
    decreases data.len(),
{
    assert forall|v: int| 0 <= v < 64 implies is_url_safe_char(#[trigger] url_safe_digit(v)) by {}
    if data.len() >= 3 {
        lemma_base64_shape(data.skip(3));
        let a = data[0] as int;
        let b = data[1] as int;
        let c = data[2] as int;
        assert(0 <= (a % 4) * 16 + b / 16 < 64);
        assert(0 <= (b % 16) * 4 + c / 64 < 64);
        let head = seq![
            url_safe_digit(a / 4),
            url_safe_digit((a % 4) * 16 + b / 16),
            url_safe_digit((b % 16) * 4 + c / 64),
            url_safe_digit(c % 64),
        ];
        let rest = base64_url_no_pad(data.skip(3));
        assert(base64_url_no_pad(data) == head + rest);
        assert(data.len() as nat / 3 == 1 + (data.len() - 3) as nat / 3);
        assert(data.len() as nat % 3 == (data.len() - 3) as nat % 3);
        assert forall|i: int| 0 <= i < (head + rest).len() implies is_url_safe_char(
            #[trigger] (head + rest)[i],
        ) by {
            if i >= 4 {
                assert((head + rest)[i] == rest[i - 4]);
            }
        }
    } else if data.len() == 2 {
        let a = data[0] as int;
        let b = data[1] as int;
        assert(0 <= (a % 4) * 16 + b / 16 < 64);
    }
}

/// Hashes `data` with `sha2::Sha256::digest`. The contract claims the
/// result is the named digest of the bytes and has 32 bytes.
#[verifier::external_body]
pub(crate) fn digest_sha256(data: &[u8]) -> (r: Vec<u8>)
    ensures
        r@ == sha256(data@),
        r@.len() == 32,
{
    <sha2::Sha256 as sha2::Digest>::digest(data).to_vec()
}

/// `n` bytes from `rand::rng()` through `rand::Rng::fill`. The contract
/// claims only the length: the bytes are random.
#[verifier::external_body]
pub(crate) fn random_bytes_for_sign_in(n: usize) -> (r: Vec<u8>)
    ensures
        r@.len() == n,
{
    let mut bytes = vec![0u8; n];
    rand::Rng::fill(&mut rand::rng(), &mut bytes[..]);
    bytes
}

/// The `Debug` text of `s` (`<str as Debug>::fmt`, through `format!`). The
/// contract claims the result is the named text of the string.
#[verifier::external_body]
fn debug_str(s: &str) -> (r: String)
    ensures
        r@ == str_debug(s@),
{
    format!("{:?}", s)
}

/// The `application/x-www-form-urlencoded` text of one byte, as
/// `form_urlencoded::byte_serialize` writes it.
pub open spec fn form_byte(b: u8) -> Seq<char> {
    if b == 0x2A || b == 0x2D || b == 0x2E || b == 0x5F || (0x30 <= b <= 0x39) || (0x41 <= b
        <= 0x5A) || (0x61 <= b <= 0x7A) {
        seq![b as char]
    } else if b == 0x20 {
        seq!['+']
    } else {
        seq!['%', hex_upper(b / 16), hex_upper(b % 16)]
    }
}

/// The upper-case hexadecimal digit for `d < 16`.
pub open spec fn hex_upper(d: u8) -> char {
    seq!['0', '1', '2', '3', '4', '5', '6', '7', '8', '9', 'A', 'B', 'C', 'D', 'E', 'F'][d as int]
}

/// The `application/x-www-form-urlencoded` text of `bytes`.
pub open spec fn form_bytes(bytes: Seq<u8>) -> Seq<char>
    decreases bytes.len(),
{
    if bytes.len() == 0 {
        Seq::empty()
    } else {
        form_byte(bytes[0]) + form_bytes(bytes.drop_first())
    }
}

/// Serializes the UTF-8 bytes of `s` with
/// `url::form_urlencoded::byte_serialize`. The contract states the whole
/// serialization, byte by byte, as the crate's source writes it.
#[verifier::external_body]
pub(crate) fn form_urlencode(s: &str) -> (r: String)
    ensures
        r@ == form_bytes(encode_utf8(s@)),
{
    url::form_urlencoded::byte_serialize(s.as_bytes()).collect()
}

// ---- the buffered callback ------------------------------------------------

/// Parsed `lingcode://auth/callback` payload. Either `access_token` is present
/// (direct redirect) or `code` is (authorization code + PKCE), or `error`
/// describes a failed or denied sign-in.
pub struct LingModelAuthCallback {
    pub code: Option<String>,
    pub state: Option<String>,
    pub access_token: Option<String>,
    pub error: Option<String>,
}

impl Default for LingModelAuthCallback {
    fn default() -> (r: Self)
        ensures
            r.code is None && r.state is None && r.access_token is None && r.error is None,
    {
        LingModelAuthCallback { code: None, state: None, access_token: None, error: None }
    }
}

fn copy_opt(o: &Option<String>) -> (r: Option<String>)
    ensures
        r == *o,
{
    match o {
        Some(s) => Some(s.clone()),
        None => None,
    }
}

/// The `Debug` text of an optional string value.
pub open spec fn option_debug(o: Option<Seq<char>>) -> Seq<char> {
    match o {
        None => "None"@,
        Some(s) => "Some("@ + str_debug(s) + ")"@,
    }
}

/// A secret as the debug text shows it: present or not, never its value.
pub open spec fn redacted(o: Option<String>) -> Option<Seq<char>> {
    match o {
        Some(_) => Some("[redacted]"@),
        None => None,
    }
}

pub open spec fn opt_view(o: Option<String>) -> Option<Seq<char>> {
    match o {
        Some(s) => Some(s@),
        None => None,
    }
}

/// The debug text of a callback, with the code and the access token redacted.
pub open spec fn callback_debug(c: LingModelAuthCallback) -> Seq<char> {
    "LingModelAuthCallback { code: "@ + option_debug(redacted(c.code)) + ", state: "@
        + option_debug(opt_view(c.state)) + ", access_token: "@ + option_debug(
        redacted(c.access_token),
    ) + ", error: "@ + option_debug(opt_view(c.error)) + " }"@
}

fn push_option_debug(out: &mut String, o: Option<&str>)
    ensures
        final(out)@ == old(out)@ + option_debug(
            match o {
                Some(s) => Some(s@),
                None => None,
            },
        ),
{
    match o {
        None => out.append("None"),
        Some(s) => {
            out.append("Some(");
            let d = debug_str(s);
            out.append(d.as_str());
            out.append(")");
        },
    }
}

impl LingModelAuthCallback {
    /// An exact copy of the callback.
    pub fn duplicate(&self) -> (r: Self)
        ensures
            r == *self,
    {
        LingModelAuthCallback {
            code: copy_opt(&self.code),
            state: copy_opt(&self.state),
            access_token: copy_opt(&self.access_token),
            error: copy_opt(&self.error),
        }
    }

    /// The text to log for this callback: its fields, with the secret
    /// material (`code`, `access_token`) shown only as `[redacted]`.
    pub fn debug_text(&self) -> (r: String)
        ensures
            r@ == callback_debug(*self),
    {
        let mut out = String::from_str("LingModelAuthCallback { code: ");
        push_option_debug(&mut out, if self.code.is_some() { Some("[redacted]") } else { None });
        out.append(", state: ");
        push_option_debug(
            &mut out,
            match &self.state {
                Some(s) => Some(s.as_str()),
                None => None,
            },
        );
        out.append(", access_token: ");
        push_option_debug(
            &mut out,
            if self.access_token.is_some() { Some("[redacted]") } else { None },
        );
        out.append(", error: ");
        push_option_debug(
            &mut out,
            match &self.error {
                Some(s) => Some(s.as_str()),
                None => None,
            },
        );
        out.append(" }");
        out
    }
}

/// Secrets never reach the log: two callbacks that agree on `state`, `error`
/// and on which secrets are present have the same debug text, whatever the
/// secret values are.
pub proof fn law_debug_text_hides_secrets(a: LingModelAuthCallback, b: LingModelAuthCallback)
    requires
        a.code is Some == b.code is Some,
        a.access_token is Some == b.access_token is Some,
        opt_view(a.state) == opt_view(b.state),
        opt_view(a.error) == opt_view(b.error),
    ensures
        callback_debug(a) == callback_debug(b),
{
}

/// Emitted to subscribers (the LingModel provider) when a callback arrives.
pub struct LingModelAuthEvent(pub LingModelAuthCallback);

/// Holds the most recent callback, so that a subscriber that attaches after
/// delivery can still drain it.
pub struct LingModelAuthListener {
    last: Option<LingModelAuthCallback>,
}

impl View for LingModelAuthListener {
    type V = Option<LingModelAuthCallback>;

    open spec fn view(&self) -> Option<LingModelAuthCallback> {
        self.buffered()
    }
}

impl LingModelAuthListener {
    /// The callback buffered for a late subscriber, if any.
    pub closed spec fn buffered(&self) -> Option<LingModelAuthCallback> {
        self.last
    }

    /// A listener with nothing buffered.
    pub fn new() -> (l: Self)
        ensures
            l@ is None,
    {
        LingModelAuthListener { last: None }
    }

    /// Installs the listener in `global` unless one is there already.
    pub fn register(global: &mut Option<LingModelAuthListener>)
        ensures
            (*old(global)) is Some ==> *final(global) == *old(global),
            (*old(global)) is None ==> (*final(global) matches Some(l) && l@ is None),
    {
        if global.is_some() {
            return;
        }
        *global = Some(LingModelAuthListener::new());
    }

    /// The installed listener. There must be one: install it with `register`
    /// early, before anything asks for it.
    pub fn global(global: &Option<LingModelAuthListener>) -> (l: &LingModelAuthListener)
        requires
            global is Some,
        ensures
            *l == global->0,
    {
        global.as_ref().unwrap()
    }

    /// The installed listener, if there is one.
    pub fn try_global(global: &Option<LingModelAuthListener>) -> (l: Option<&LingModelAuthListener>)
        ensures
            global is None ==> l is None,
            global matches Some(g) ==> (l matches Some(x) && *x == g),
    {
        match global {
            Some(l) => Some(l),
            None => None,
        }
    }

    /// Drains the buffered callback, if any.
    pub fn take_last(&mut self) -> (r: Option<LingModelAuthCallback>)
        ensures
            (final(self)@, r) == drained(old(self)@),
    {
        self.last.take()
    }

    /// Buffers `callback` and returns the event that announces it.
    pub fn deliver(&mut self, callback: LingModelAuthCallback) -> (e: LingModelAuthEvent)
        ensures
            final(self)@ == delivered(old(self)@, callback),
            e.0 == callback,
    {
        self.last = Some(callback.duplicate());
        LingModelAuthEvent(callback)
    }
}

/// Hands a parsed callback to the installed listener. Returns the event for
/// its subscribers, or `None` (the callback is dropped) when no listener is
/// installed yet.
pub fn deliver_ling_model_auth(
    callback: LingModelAuthCallback,
    global: &mut Option<LingModelAuthListener>,
) -> (e: Option<LingModelAuthEvent>)
    ensures
        (*old(global)) is None ==> e is None && (*final(global)) is None,
        (*old(global)) is Some ==> (e matches Some(ev) && ev.0 == callback),
        (*old(global)) is Some ==> (*final(global) matches Some(l) && l@ == Some(callback)),
{
    match global {
        Some(listener) => Some(listener.deliver(callback)),
        None => None,
    }
}


/// The buffer after `callback` was delivered: the latest callback replaces
/// any earlier one.
pub open spec fn delivered(
    buffered: Option<LingModelAuthCallback>,
    callback: LingModelAuthCallback,
) -> Option<LingModelAuthCallback> {
    Some(callback)
}

/// The buffer after it was drained, and what was drained.
pub open spec fn drained(buffered: Option<LingModelAuthCallback>) -> (
    Option<LingModelAuthCallback>,
    Option<LingModelAuthCallback>,
) {
    (None, buffered)
}

/// A late subscriber drains the latest delivered callback, and only once.
pub proof fn law_drain_after_deliver(
    buffered: Option<LingModelAuthCallback>,
    first: LingModelAuthCallback,
    latest: LingModelAuthCallback,
)
    ensures
        drained(delivered(delivered(buffered, first), latest)).1 == Some(latest),
        drained(drained(delivered(buffered, latest)).0).1 is None,
{
}

} // verus!
