//! The exchange client's configuration and the preparation of its requests.
//!
//! A client holds two pairs of credentials, the primary one and the one for
//! two-factor accounts, and resolves once which of them is in force. Public
//! endpoints are called without credentials. For a private endpoint the
//! request carries the key in force and a signature over its parameters.
//!
//! Preparing a request sends nothing: what comes back is the request, to be
//! sent by the caller, or the reason why there is none.

use vstd::prelude::*;
use vstd::string::*;
use crate::clock::{millis_in, unix_millis, MAX_MILLIS};
use crate::header::{header_value_accepts, is_header_value};
use crate::payload::{
    distinct_keys,
    entries_view,
    has_key,
    lemma_without_absent_key,
    lemma_without_key_properties,
    lemma_without_one_key_len,
    value_of,
    without_key,
    Entry,
    Payload,
};
use crate::request::{
    headers_view,
    outcome_view,
    Method,
    RequestError,
    RequestView,
    SignedRequest,
};
use crate::signing::{sign, signature, signed_view, SignError};
use crate::text::{
    appended,
    contains,
    contains_text,
    decimal,
    decimal_string,
    join,
    joined,
    occurs_at,
    same_text,
    texts,
};

verus! {

/// Whether a configured flag asks for two-factor credentials: only the text
/// `1` does; an absent or empty flag, or any other text, does not.
pub open spec fn flag_requires_passphrase(flag: Option<String>) -> bool {
    flag matches Some(text) && text@ == "1"@
}

/// A path names a private endpoint where it holds the text `private`.
pub open spec fn is_private(href: Seq<char>) -> bool {
    contains_text(href, "private"@)
}

/// The method that a method name stands for.
pub open spec fn method_of(name: Seq<char>) -> Option<Method> {
    if name == "GET"@ {
        Some(Method::Get)
    } else if name == "POST"@ {
        Some(Method::Post)
    } else {
        None
    }
}

/// One parameter of a query string: `key=value`, as they are.
pub open spec fn query_pair(entry: Entry) -> Seq<char> {
    entry.0 + "="@ + entry.1
}

/// The query string of the parameters: the pairs in order, joined by `&`.
pub open spec fn query_string(entries: Seq<Entry>) -> Seq<char> {
    joined(Seq::new(entries.len(), |i: int| query_pair(entries[i])), "&"@)
}

/// The address of a request: base URL and path, and for a `GET` with
/// parameters a `?` and the query string.
pub open spec fn request_url(base: Seq<char>, href: Seq<char>, method: Method, entries: Seq<Entry>) -> Seq<
    char,
> {
    if method == Method::Get && entries.len() > 0 {
        base + href + "?"@ + query_string(entries)
    } else {
        base + href
    }
}

/// The nonce that a request is signed with: the one among its parameters,
/// else the reading of the clock in decimal, where there is one.
pub open spec fn nonce_text(entries: Seq<Entry>, clock: Option<u128>) -> Option<Seq<char>> {
    if has_key(entries, "nonce"@) {
        Some(value_of(entries, "nonce"@))
    } else {
        match clock {
            Some(millis) => Some(decimal(millis as nat)),
            None => None,
        }
    }
}

/// Whether signing these parameters takes a reading of the clock.
pub open spec fn takes_clock(entries: Seq<Entry>) -> bool {
    entries.len() > 0 && !has_key(entries, "nonce"@)
}

/// The two headers of an authenticated request.
pub open spec fn auth_headers(key: Seq<char>, sign: Seq<char>) -> Seq<Entry> {
    seq![("API-Key"@, key), ("API-Sign"@, sign)]
}

/// The configuration of a client of the exchange.
#[derive(Debug)]
pub struct BaseExchange {
    /// Key of the primary credentials.
    pub api_key: String,
    /// Secret of the primary credentials, in base64.
    pub api_secret: String,
    /// Key of the two-factor credentials.
    pub api_key_2fa: String,
    /// Secret of the two-factor credentials, in base64.
    pub api_secret_2fa: String,
    /// Passphrase or one-time password of a two-factor account.
    pub api_passphrase: String,
    /// Address that every path is appended to.
    pub base_url: String,
    /// The configured flag that says whether two-factor credentials are
    /// required; `None` where nothing is configured.
    pub api_passphrase_flag: Option<String>,
    /// Whether two-factor credentials are required, once resolved.
    pub api_passphrase_required: Option<bool>,
}

impl Default for BaseExchange {
    /// A client without credentials, with nothing configured or resolved.
    fn default() -> (exchange: Self)
        ensures
            exchange.api_key@.len() == 0,
            exchange.api_secret@.len() == 0,
            exchange.api_key_2fa@.len() == 0,
            exchange.api_secret_2fa@.len() == 0,
            exchange.api_passphrase@.len() == 0,
            exchange.base_url@.len() == 0,
            exchange.api_passphrase_flag is None,
            exchange.api_passphrase_required is None,
    {
        Self {
            api_key: String::new(),
            api_secret: String::new(),
            api_key_2fa: String::new(),
            api_secret_2fa: String::new(),
            api_passphrase: String::new(),
            base_url: String::new(),
            api_passphrase_flag: None,
            api_passphrase_required: None,
        }
    }
}

impl BaseExchange {
    /// Whether two-factor credentials are required: what was resolved, else
    /// what the configured flag says.
    pub open spec fn two_factor(&self) -> bool {
        match self.api_passphrase_required {
            Some(required) => required,
            None => flag_requires_passphrase(self.api_passphrase_flag),
        }
    }

    /// The same configuration with the requirement resolved.
    pub open spec fn resolved(&self) -> BaseExchange {
        BaseExchange { api_passphrase_required: Some(self.two_factor()), ..*self }
    }

    /// The key of the credentials in force.
    pub open spec fn active_key(&self) -> Seq<char> {
        if self.two_factor() {
            self.api_key_2fa@
        } else {
            self.api_key@
        }
    }

    /// The secret of the credentials in force.
    pub open spec fn active_secret(&self) -> Seq<char> {
        if self.two_factor() {
            self.api_secret_2fa@
        } else {
            self.api_secret@
        }
    }

    /// The headers of a request to `href` with the parameters `entries`, or
    /// the reason why they cannot be had. Without parameters there are none.
    /// A two-factor account without its passphrase, key or secret gets none.
    pub open spec fn header_outcome(
        &self,
        href: Seq<char>,
        entries: Seq<Entry>,
        clock: Option<u128>,
    ) -> Result<Seq<Entry>, RequestError> {
        if entries.len() == 0 {
            Ok(Seq::empty())
        } else if self.two_factor() && self.api_passphrase@.len() == 0 {
            Err(RequestError::MissingPassphrase)
        } else if self.two_factor() && (self.api_key_2fa@.len() == 0
            || self.api_secret_2fa@.len() == 0) {
            Err(RequestError::MissingTwoFactorCredentials)
        } else {
            match nonce_text(entries, clock) {
                None => Err(RequestError::ClockBeforeEpoch),
                Some(nonce) => {
                    if !is_header_value(self.active_key()) {
                        Err(RequestError::InvalidHeaderValue)
                    } else {
                        match signature(self.active_secret(), href, nonce, entries) {
                            Err(e) => Err(RequestError::Signature(e)),
                            Ok(sign) => {
                                if is_header_value(sign) {
                                    Ok(auth_headers(self.active_key(), sign))
                                } else {
                                    Err(RequestError::InvalidHeaderValue)
                                }
                            },
                        }
                    }
                },
            }
        }
    }

    /// The parameters that a private request is signed over and sent with:
    /// all of them for a two-factor account, else all but `otp`.
    pub open spec fn signed_entries(&self, entries: Seq<Entry>) -> Seq<Entry> {
        if self.two_factor() {
            entries
        } else {
            without_key(entries, "otp"@)
        }
    }

    /// The request to `href`, or the reason why there is none.
    ///
    /// A public path is addressed with the parameters as they are, without
    /// headers or form. A private path is addressed, signed and sent with
    /// the signed parameters only.
    pub open spec fn request_outcome(
        &self,
        href: Seq<char>,
        method: Seq<char>,
        entries: Seq<Entry>,
        clock: Option<u128>,
    ) -> Result<RequestView, RequestError> {
        match method_of(method) {
            None => Err(RequestError::InvalidMethod),
            Some(method) => {
                if !is_private(href) {
                    Ok(
                        RequestView {
                            method,
                            url: request_url(self.base_url@, href, method, entries),
                            headers: Seq::empty(),
                            form: None,
                        },
                    )
                } else if self.two_factor() && self.api_passphrase@.len() == 0 {
                    Err(RequestError::MissingPassphrase)
                } else if self.two_factor() && (self.api_key_2fa@.len() == 0
                    || self.api_secret_2fa@.len() == 0) {
                    Err(RequestError::MissingTwoFactorCredentials)
                } else {
                    let signed = self.signed_entries(entries);
                    match self.header_outcome(href, signed, clock) {
                        Err(e) => Err(e),
                        Ok(headers) => Ok(
                            RequestView {
                                method,
                                url: request_url(self.base_url@, href, method, signed),
                                headers,
                                form: if signed.len() == 0 {
                                    None
                                } else {
                                    Some(signed)
                                },
                            },
                        ),
                    }
                }
            },
        }
    }

    /// Whether preparing the request takes a reading of the clock: it does
    /// for a private path whose signed parameters hold no nonce.
    pub open spec fn request_takes_clock(&self, href: Seq<char>, entries: Seq<Entry>) -> bool {
        is_private(href) && takes_clock(self.signed_entries(entries))
    }

    /// Resolves, if that has not been done, whether two-factor credentials
    /// are required, keeps the answer and returns it.
    pub fn api_pass_required(&mut self) -> (required: bool)
        ensures
            required == old(self).two_factor(),
            *final(self) == old(self).resolved(),
    {
        if self.api_passphrase_required.is_none() {
            self.set_api_passphrase_required();
        }
        match self.api_passphrase_required {
            Some(required) => required,
            None => false,
        }
    }

    /// Resolves anew from the configured flag whether two-factor credentials
    /// are required, whatever was resolved before.
    pub fn set_api_passphrase_required(&mut self)
        ensures
            final(self).api_passphrase_required == Some(
                flag_requires_passphrase(old(self).api_passphrase_flag),
            ),
            *final(self) == (BaseExchange {
                api_passphrase_required: final(self).api_passphrase_required,
                ..*old(self)
            }),
    {
        let required = match &self.api_passphrase_flag {
            Some(flag) => same_text(flag.as_str(), "1"),
            None => false,
        };
        self.api_passphrase_required = Some(required);
    }

    /// A fresh nonce: the clock's milliseconds since the Unix epoch. Two
    /// calls within one millisecond return the same number. `None` where the
    /// clock reads a time before the epoch.
    pub fn nonce() -> (millis: Option<u128>)
        ensures
            millis matches Some(m) ==> m <= MAX_MILLIS && exists|secs: u64, sub: u32|
                sub < 1000 && m == #[trigger] millis_in(secs, sub),
    {
        unix_millis()
    }

    /// The key and the secret of the credentials in force.
    pub fn active_pair(&mut self) -> (pair: (&String, &String))
        ensures
            pair.0@ == old(self).active_key(),
            pair.1@ == old(self).active_secret(),
            *final(self) == old(self).resolved(),
    {
        if self.api_pass_required() {
            (&self.api_key_2fa, &self.api_secret_2fa)
        } else {
            (&self.api_key, &self.api_secret)
        }
    }

    /// Computes the signature of a request to `href` over `payload`.
    pub fn build_signature(
        &self,
        secret: String,
        href: String,
        nonce: String,
        payload: Payload,
    ) -> (res: Result<String, SignError>)
        ensures
            signed_view(res) == signature(secret@, href@, nonce@, payload@),
    {
        sign(secret.as_str(), href.as_str(), nonce.as_str(), &payload)
    }

    /// Assembles the headers of a request to `href` with the parameters
    /// `data`, given what the clock read.
    pub fn headers_with_clock(&mut self, href: &str, data: &Payload, clock: Option<u128>) -> (res:
        Result<Vec<(String, String)>, RequestError>)
        ensures
            headers_view(res) == old(self).header_outcome(href@, data@, clock),
            *final(self) == old(self).resolved(),
    {
        let two_factor = self.api_pass_required();
        let mut headers: Vec<(String, String)> = Vec::new();
        if data.is_empty() {
            assert(entries_view(headers@) =~= Seq::<Entry>::empty());
            return Ok(headers);
        }
        if two_factor {
            if self.api_passphrase.as_str().is_empty() {
                return Err(RequestError::MissingPassphrase);
            }
            if self.api_key_2fa.as_str().is_empty() || self.api_secret_2fa.as_str().is_empty() {
                return Err(RequestError::MissingTwoFactorCredentials);
            }
        }
        let nonce = match data.get("nonce") {
            Some(given) => given.clone(),
            None => match clock {
                Some(millis) => decimal_string(millis),
                None => {
                    return Err(RequestError::ClockBeforeEpoch);
                },
            },
        };
        let api_key = if two_factor {
            &self.api_key_2fa
        } else {
            &self.api_key
        };
        let api_secret = if two_factor {
            &self.api_secret_2fa
        } else {
            &self.api_secret
        };
        if !header_value_accepts(api_key.as_str()) {
            return Err(RequestError::InvalidHeaderValue);
        }
        match sign(api_secret.as_str(), href, nonce.as_str(), data) {
            Err(e) => Err(RequestError::Signature(e)),
            Ok(api_sign) => {
                if !header_value_accepts(api_sign.as_str()) {
                    return Err(RequestError::InvalidHeaderValue);
                }
                headers.push((String::from_str("API-Key"), api_key.clone()));
                headers.push((String::from_str("API-Sign"), api_sign));
                assert(entries_view(headers@) =~= auth_headers(api_key@, api_sign@));
                Ok(headers)
            },
        }
    }

    /// Assembles the headers of a request to `href` with the parameters
    /// `data`. Parameters without a nonce are signed under one read from the
    /// clock.
    pub fn create_headers(&mut self, href: String, data: Payload) -> (res: Result<
        Vec<(String, String)>,
        RequestError,
    >)
        ensures
            *final(self) == old(self).resolved(),
            exists|clock: Option<u128>|
                headers_view(res) == old(self).header_outcome(href@, data@, clock),
            !takes_clock(data@) ==> headers_view(res) == old(self).header_outcome(
                href@,
                data@,
                None,
            ),
            data@.len() > 0 && old(self).two_factor() && (old(self).api_passphrase@.len() == 0
                || old(self).api_key_2fa@.len() == 0 || old(self).api_secret_2fa@.len() == 0)
                ==> res is Err,
    {
        let clock = if !data.is_empty() && !data.contains_key("nonce") {
            Self::nonce()
        } else {
            None
        };
        self.headers_with_clock(href.as_str(), &data, clock)
    }

    fn url_for(&self, href: &str, method: Method, data: &Payload) -> (url: String)
        ensures
            url@ == request_url(self.base_url@, href@, method, data@),
    {
        let mut url = appended(self.base_url.as_str(), href);
        if matches!(method, Method::Get) && !data.is_empty() {
            let mut pairs: Vec<String> = Vec::new();
            let mut i: usize = 0;
            while i < data.len()
                invariant
                    i <= data@.len(),
                    pairs@.len() == i,
                    texts(pairs@) == Seq::new(i as nat, |k: int| query_pair(data@[k])),
                decreases data@.len() - i,
            {
                let mut pair = appended(data.key_at(i).as_str(), "=");
                pair.append(data.value_at(i).as_str());
                let ghost earlier = pairs@;
                pairs.push(pair);
                assert forall|k: int| 0 <= k < i + 1 implies texts(pairs@)[k] == query_pair(
                    data@[k],
                ) by {
                    if k < i {
                        assert(texts(earlier)[k] == query_pair(data@[k]));
                        assert(pairs@[k] == earlier[k]);
                    }
                }
                assert(texts(pairs@) =~= Seq::new((i + 1) as nat, |k: int| query_pair(data@[k])));
                i += 1;
            }
            url.append("?");
            url.append(join(&pairs, "&").as_str());
        }
        url
    }

    /// Prepares the request to `href`, given what the clock read.
    ///
    /// A public path gets a request without headers or body. A private path
    /// gets the headers of the credentials in force; an account without
    /// two-factor credentials never sends or signs an `otp` parameter, be it
    /// in the address, in the form or under the signature.
    pub fn request_with_clock(
        &mut self,
        href: &str,
        method: &str,
        data: Payload,
        clock: Option<u128>,
    ) -> (res: Result<SignedRequest, RequestError>)
        ensures
            outcome_view(res) == old(self).request_outcome(href@, method@, data@, clock),
            *final(self) == old(self).resolved(),
    {
        let two_factor = self.api_pass_required();
        let method = if same_text(method, "GET") {
            Method::Get
        } else if same_text(method, "POST") {
            Method::Post
        } else {
            return Err(RequestError::InvalidMethod);
        };
        if !contains(href, "private") {
            let url = self.url_for(href, method, &data);
            let headers: Vec<(String, String)> = Vec::new();
            assert(entries_view(headers@) =~= Seq::<Entry>::empty());
            return Ok(SignedRequest { method, url, headers, form: None });
        }
        let mut data = data;
        if two_factor {
            if self.api_passphrase.as_str().is_empty() {
                return Err(RequestError::MissingPassphrase);
            }
            if self.api_key_2fa.as_str().is_empty() || self.api_secret_2fa.as_str().is_empty() {
                return Err(RequestError::MissingTwoFactorCredentials);
            }
        } else {
            data.remove("otp");
        }
        let url = self.url_for(href, method, &data);
        match self.headers_with_clock(href, &data, clock) {
            Err(e) => Err(e),
            Ok(headers) => {
                let form = if data.is_empty() {
                    None
                } else {
                    Some(data)
                };
                Ok(SignedRequest { method, url, headers, form })
            },
        }
    }

    /// Whether preparing the request to `href` takes a reading of the clock.
    pub fn needs_clock(&mut self, href: &str, data: &Payload) -> (needed: bool)
        ensures
            needed == old(self).request_takes_clock(href@, data@),
            *final(self) == old(self).resolved(),
    {
        let two_factor = self.api_pass_required();
        if !contains(href, "private") {
            return false;
        }
        proof {
            use_type_invariant(data);
            lemma_without_key_properties(data@, "otp"@);
            lemma_without_absent_key(Seq::<Entry>::empty(), "otp"@);
            reveal_strlit("otp");
            reveal_strlit("nonce");
            assert("nonce"@.len() == 5);
            assert("otp"@.len() == 3);
            assert("nonce"@ != "otp"@);
            assert(has_key(without_key(data@, "otp"@), "nonce"@) <==> has_key(data@, "nonce"@));
        }
        if data.contains_key("nonce") {
            return false;
        }
        if two_factor {
            !data.is_empty()
        } else if data.contains_key("otp") {
            proof {
                lemma_without_one_key_len(data@, "otp"@);
            }
            data.len() > 1
        } else {
            proof {
                lemma_without_absent_key(data@, "otp"@);
            }
            !data.is_empty()
        }
    }

    /// Prepares the request to `href` with the parameters `data`: the
    /// address, and for a private path the headers and the form to send.
    /// Parameters of a private request that hold no nonce are signed under
    /// one read from the clock.
    pub fn construct_req(&mut self, href: String, method: &str, data: Payload) -> (res: Result<
        SignedRequest,
        RequestError,
    >)
        ensures
            *final(self) == old(self).resolved(),
            exists|clock: Option<u128>|
                outcome_view(res) == old(self).request_outcome(href@, method@, data@, clock),
            !old(self).request_takes_clock(href@, data@) ==> outcome_view(res) == old(
                self,
            ).request_outcome(href@, method@, data@, None),
            is_private(href@) && old(self).two_factor() && old(self).api_passphrase@.len() == 0
                ==> res is Err,
            is_private(href@) && !old(self).two_factor() ==> (res matches Ok(request) ==> (
                request.form matches Some(form) ==> form@ == without_key(data@, "otp"@)
                    && !has_key(form@, "otp"@))),
    {
        let ghost before = *self;
        proof {
            use_type_invariant(&data);
        }
        let clock = if self.needs_clock(href.as_str(), &data) {
            Self::nonce()
        } else {
            None
        };
        assert(self.request_outcome(href@, method@, data@, clock) == before.request_outcome(
            href@,
            method@,
            data@,
            clock,
        ));
        proof {
            lemma_request_outcome(before, href@, method@, data@, clock);
        }
        self.request_with_clock(href.as_str(), method, data, clock)
    }
}

/// What holds of every prepared request, whatever the clock read.
///
/// A private request of a two-factor account without a passphrase is never
/// prepared. A private request of an account without two-factor credentials
/// carries no `otp` parameter, its form is what was signed, and it is the
/// request that the same parameters without `otp` give. A public request
/// carries no header and no form.
pub proof fn lemma_request_outcome(
    exchange: BaseExchange,
    href: Seq<char>,
    method: Seq<char>,
    entries: Seq<Entry>,
    clock: Option<u128>,
)
    requires
        distinct_keys(entries),
    ensures
        is_private(href) && exchange.two_factor() && exchange.api_passphrase@.len() == 0
            ==> exchange.request_outcome(href, method, entries, clock) is Err,
        is_private(href) && exchange.two_factor() && exchange.api_passphrase@.len() == 0
            && method_of(method) is Some ==> exchange.request_outcome(
            href,
            method,
            entries,
            clock,
        ) == Err::<RequestView, RequestError>(RequestError::MissingPassphrase),
        is_private(href) && !exchange.two_factor() ==> (exchange.request_outcome(
            href,
            method,
            entries,
            clock,
        ) matches Ok(request) ==> (request.form matches Some(form) ==> form == without_key(
            entries,
            "otp"@,
        ) && !has_key(form, "otp"@))),
        is_private(href) && !exchange.two_factor() ==> exchange.request_outcome(
            href,
            method,
            entries,
            clock,
        ) == exchange.request_outcome(href, method, without_key(entries, "otp"@), clock),
        !is_private(href) ==> (exchange.request_outcome(href, method, entries, clock) matches Ok(
            request,
        ) ==> request.headers.len() == 0 && request.form is None),
{
    lemma_without_key_properties(entries, "otp"@);
    lemma_without_absent_key(without_key(entries, "otp"@), "otp"@);
}

/// The parameters of a request for asset pairs: the pair names joined by
/// commas, and the kind of information where one is asked for.
pub open spec fn asset_pairs_entries(pairs: Seq<Seq<char>>, info: Option<Seq<char>>) -> Seq<Entry> {
    match info {
        Some(kind) => seq![("pair"@, joined(pairs, ","@)), ("info"@, kind)],
        None => seq![("pair"@, joined(pairs, ","@))],
    }
}

/// The parameters of a request for open orders: the nonce, and the
/// passphrase as `otp` where there is one.
pub open spec fn open_orders_entries(nonce: Seq<char>, passphrase: Seq<char>) -> Seq<Entry> {
    if passphrase.len() == 0 {
        seq![("nonce"@, nonce)]
    } else {
        seq![("nonce"@, nonce), ("otp"@, passphrase)]
    }
}

/// Of the three endpoint paths, only that of the open orders is private.
pub proof fn lemma_endpoint_paths()
    ensures
        !is_private("/public/Time"@),
        !is_private("/public/AssetPairs"@),
        is_private("/private/OpenOrders"@),
{
    reveal_strlit("private");
    reveal_strlit("/public/Time");
    reveal_strlit("/public/AssetPairs");
    reveal_strlit("/private/OpenOrders");
    let marker = "private"@;
    assert(marker.len() == 7);
    let time = "/public/Time"@;
    assert(time.len() == 12);
    assert forall|at: int| !occurs_at(time, marker, at) by {
        if occurs_at(time, marker, at) {
            let part = time.subrange(at, at + 7);
            assert(part[0] == marker[0]);
            assert(part[1] == marker[1]);
        }
    }
    let pairs = "/public/AssetPairs"@;
    assert(pairs.len() == 18);
    assert forall|at: int| !occurs_at(pairs, marker, at) by {
        if occurs_at(pairs, marker, at) {
            let part = pairs.subrange(at, at + 7);
            assert(part[0] == marker[0]);
            assert(part[1] == marker[1]);
        }
    }
    let orders = "/private/OpenOrders"@;
    assert(orders.len() == 19);
    assert(orders.subrange(1, 8) =~= marker);
    assert(occurs_at(orders, marker, 1));
}

impl BaseExchange {
    /// Prepares the request for the server's time: a `GET` of
    /// `/public/Time` without parameters, headers or body.
    pub fn get_server_time(&mut self) -> (res: Result<SignedRequest, RequestError>)
        ensures
            *final(self) == old(self).resolved(),
            outcome_view(res) == Ok::<RequestView, RequestError>(
                RequestView {
                    method: Method::Get,
                    url: old(self).base_url@ + "/public/Time"@,
                    headers: Seq::empty(),
                    form: None,
                },
            ),
    {
        proof {
            lemma_endpoint_paths();
        }
        self.request_with_clock("/public/Time", "GET", Payload::new(), None)
    }

    /// Prepares the request for the tradable asset pairs `pairs`: a `GET` of
    /// `/public/AssetPairs` with the pairs, and the kind of information where
    /// `info` names one, in the query string.
    pub fn get_tradable_asset_pairs(&mut self, pairs: Vec<String>, info: Option<String>) -> (res:
        Result<SignedRequest, RequestError>)
        ensures
            *final(self) == old(self).resolved(),
            outcome_view(res) == Ok::<RequestView, RequestError>(
                RequestView {
                    method: Method::Get,
                    url: old(self).base_url@ + "/public/AssetPairs"@ + "?"@ + query_string(
                        asset_pairs_entries(
                            texts(pairs@),
                            match info {
                                Some(kind) => Some(kind@),
                                None => None,
                            },
                        ),
                    ),
                    headers: Seq::empty(),
                    form: None,
                },
            ),
    {
        proof {
            lemma_endpoint_paths();
            reveal_strlit("pair");
            reveal_strlit("info");
            assert("pair"@.len() == 4);
            assert("info"@.len() == 4);
            assert("pair"@[0] != "info"@[0]);
        }
        let mut payload = Payload::new();
        payload.insert(String::from_str("pair"), join(&pairs, ","));
        assert(payload@ =~= seq![("pair"@, joined(texts(pairs@), ","@))]);
        if let Some(kind) = info {
            assert(payload@[0].0 == "pair"@);
            assert(!has_key(payload@, "info"@));
            payload.insert(String::from_str("info"), kind);
            assert(payload@ =~= seq![("pair"@, joined(texts(pairs@), ","@)), ("info"@, kind@)]);
        }
        self.request_with_clock("/public/AssetPairs", "GET", payload, None)
    }

    /// Prepares the request for the open orders under the nonce `millis`: a
    /// `POST` to `/private/OpenOrders` whose parameters are the nonce in
    /// decimal and, where the passphrase is not empty, the passphrase as
    /// `otp`.
    pub fn open_orders_with_clock(&mut self, millis: u128) -> (res: Result<
        SignedRequest,
        RequestError,
    >)
        ensures
            *final(self) == old(self).resolved(),
            outcome_view(res) == old(self).request_outcome(
                "/private/OpenOrders"@,
                "POST"@,
                open_orders_entries(decimal(millis as nat), old(self).api_passphrase@),
                None,
            ),
    {
        proof {
            reveal_strlit("nonce");
            reveal_strlit("otp");
            assert("nonce"@.len() == 5);
            assert("otp"@.len() == 3);
        }
        let mut payload = Payload::new();
        payload.insert(String::from_str("nonce"), decimal_string(millis));
        assert(payload@ =~= seq![("nonce"@, decimal(millis as nat))]);
        if !self.api_passphrase.as_str().is_empty() {
            assert(payload@[0].0 == "nonce"@);
            assert(!has_key(payload@, "otp"@));
            payload.insert(String::from_str("otp"), self.api_passphrase.clone());
            assert(payload@ =~= seq![
                ("nonce"@, decimal(millis as nat)),
                ("otp"@, self.api_passphrase@),
            ]);
        }
        self.request_with_clock("/private/OpenOrders", "POST", payload, None)
    }

    /// Prepares the request for the open orders under a nonce read from the
    /// clock. Where the clock reads a time before the epoch there is no
    /// nonce and no request.
    pub fn get_open_orders(&mut self) -> (res: Result<SignedRequest, RequestError>)
        ensures
            *final(self) == old(self).resolved(),
            outcome_view(res) == Err::<RequestView, RequestError>(RequestError::ClockBeforeEpoch)
                || exists|millis: u128|
                outcome_view(res) == old(self).request_outcome(
                    "/private/OpenOrders"@,
                    "POST"@,
                    open_orders_entries(decimal(millis as nat), old(self).api_passphrase@),
                    None,
                ),
    {
        match Self::nonce() {
            Some(millis) => self.open_orders_with_clock(millis),
            None => {
                self.api_pass_required();
                Err(RequestError::ClockBeforeEpoch)
            },
        }
    }
}

} // verus!
