use vstd::prelude::*;
use vstd::string::*;
use vstd::utf8::encode_utf8;
use base64::prelude::{Engine, BASE64_STANDARD};

verus! {

/// The name and password that a proxy asks for.
pub struct ProxyAuth {
    pub username: String,
    pub password: String,
}

pub struct ProxyAuthView {
    pub username: Seq<char>,
    pub password: Seq<char>,
}

impl View for ProxyAuth {
    type V = ProxyAuthView;

    open spec fn view(&self) -> ProxyAuthView {
        ProxyAuthView { username: self.username@, password: self.password@ }
    }
}

impl Clone for ProxyAuth {
    fn clone(&self) -> (copy: Self)
        ensures
            copy@ == self@,
    {
        ProxyAuth { username: self.username.clone(), password: self.password.clone() }
    }
}

/// The forward proxy that connections are opened through.
pub struct ProxyConfiguration {
    pub proxy_url: String,
    pub proxy_port: u16,
    pub auth: Option<ProxyAuth>,
}

pub struct ProxyConfigurationView {
    pub proxy_url: Seq<char>,
    pub proxy_port: u16,
    pub auth: Option<ProxyAuthView>,
}

impl View for ProxyConfiguration {
    type V = ProxyConfigurationView;

    open spec fn view(&self) -> ProxyConfigurationView {
        ProxyConfigurationView {
            proxy_url: self.proxy_url@,
            proxy_port: self.proxy_port,
            auth: match self.auth {
                Some(auth) => Some(auth@),
                None => None,
            },
        }
    }
}

impl Clone for ProxyConfiguration {
    fn clone(&self) -> (copy: Self)
        ensures
            copy@ == self@,
    {
        ProxyConfiguration {
            proxy_url: self.proxy_url.clone(),
            proxy_port: self.proxy_port,
            auth: match &self.auth {
                Some(auth) => Some(auth.clone()),
                None => None,
            },
        }
    }
}

/// The text that the standard engine of the `base64` crate gives for a byte string.
pub uninterp spec fn base64_standard(input: Seq<u8>) -> Seq<char>;

/// Whether the base64 text of so many bytes is short enough to be held in memory.
pub open spec fn base64_fits(len: nat) -> bool {
    len / 3 * 4 + 4 <= usize::MAX / 2
}

/// Encodes bytes with `Engine::encode` of the `base64` crate, on its standard engine.
///
/// Believed of it: the text depends on the bytes alone. The call is kept from inputs
/// whose text would not fit in memory, on which it panics.
#[verifier::external_body]
fn base64_encode(input: &[u8]) -> (text: String)
    requires
        base64_fits(input@.len()),
    ensures
        text@ == base64_standard(input@),
{
    BASE64_STANDARD.encode(input)
}

impl ProxyAuthView {
    /// The credentials as they are encoded: the name, a colon, the password.
    pub open spec fn credentials(self) -> Seq<char> {
        self.username + seq![':'] + self.password
    }

    /// Whether the credentials are short enough to be encoded.
    pub open spec fn fits(self) -> bool {
        base64_fits(encode_utf8(self.credentials()).len())
    }

    /// The token that stands for the credentials in a Basic authorization.
    pub open spec fn token(self) -> Seq<char> {
        base64_standard(encode_utf8(self.credentials()))
    }
}

impl ProxyAuth {
    fn credentials(&self) -> (text: String)
        ensures
            text@ == self@.credentials(),
    {
        let mut text = self.username.clone();
        proof {
            reveal_strlit(":");
        }
        text.append(":");
        text.append(self.password.as_str());
        assert(text@ =~= self@.credentials());
        text
    }

    /// The Basic-auth token of the credentials.
    pub fn encode(&self) -> (token: String)
        requires
            self@.fits(),
        ensures
            token@ == self@.token(),
    {
        let text = self.credentials();
        base64_encode(text.as_str().as_bytes())
    }

    /// The Basic-auth token of the credentials, where they are short enough to have one.
    pub fn try_encode(&self) -> (token: Option<String>)
        ensures
            match token {
                Some(token) => self@.fits() && token@ == self@.token(),
                None => !self@.fits(),
            },
    {
        let text = self.credentials();
        let bytes = text.as_str().as_bytes();
        if bytes.len() / 3 <= (usize::MAX / 2 - 4) / 4 {
            Some(base64_encode(bytes))
        } else {
            None
        }
    }
}

} // verus!
