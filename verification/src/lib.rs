pub mod config;
pub mod data;
pub mod err;

use vstd::pervasive::VecAdditionalExecFns;
use vstd::prelude::*;
use vstd::string::StringExecFns;

verus! {

/// Whether an HTTP status code counts as transport-level success.
pub open spec fn is_http_success(status: u16) -> bool {
    200 <= status && status <= 299
}

/// The five text fields of the vendor's response body.
#[derive(Debug)]
pub struct MPesaPaymentResponse {
    pub output_conversation_id: String,
    pub output_response_code: String,
    pub output_response_desc: String,
    pub output_third_party_reference: String,
    pub output_transaction_id: String,
}

/// First-match lookup in a key-value list.
pub open spec fn lookup(s: Seq<(String, String)>, key: Seq<char>) -> Option<Seq<char>>
    decreases s.len(),
{
    if s.len() == 0 {
        None
    } else if s[0].0@ == key {
        Some(s[0].1@)
    } else {
        lookup(s.subrange(1, s.len() as int), key)
    }
}

proof fn lemma_lookup_absent(s: Seq<(String, String)>, key: Seq<char>)
    requires
        forall|j: int| 0 <= j < s.len() ==> s[j].0@ != key,
    ensures
        lookup(s, key) is None,
    decreases s.len(),
{
    if s.len() > 0 {
        lemma_lookup_absent(s.subrange(1, s.len() as int), key);
    }
}

proof fn lemma_lookup_push(s: Seq<(String, String)>, p: (String, String), key: Seq<char>)
    ensures
        lookup(s, key) is Some ==> lookup(s.push(p), key) == lookup(s, key),
        lookup(s, key) is None && p.0@ == key ==> lookup(s.push(p), key) == Some(p.1@),
        lookup(s, key) is None && p.0@ != key ==> lookup(s.push(p), key) is None,
    decreases s.len(),
{
    if s.len() == 0 {
        assert(s.push(p).len() == 1);
        assert(s.push(p)[0] == p);
        assert(s.push(p).subrange(1, 1) =~= Seq::<(String, String)>::empty());
        assert(lookup(s.push(p).subrange(1, 1), key) is None);
        if p.0@ == key {
            assert(lookup(s.push(p), key) == Some(p.1@));
        } else {
            assert(lookup(s.push(p), key) is None);
        }
    } else {
        let tail = s.subrange(1, s.len() as int);
        assert(s.push(p)[0] == s[0]);
        assert(s.push(p).subrange(1, s.len() as int + 1) =~= tail.push(p));
        lemma_lookup_push(tail, p, key);
        if s[0].0@ == key {
            assert(lookup(s, key) == Some(s[0].1@));
            assert(lookup(s.push(p), key) == Some(s[0].1@));
        } else {
            assert(lookup(s, key) == lookup(tail, key));
            assert(lookup(s.push(p), key) == lookup(tail.push(p), key));
        }
    }
}

proof fn lemma_lookup_update(s: Seq<(String, String)>, i: int, p: (String, String))
    requires
        0 <= i < s.len(),
        p.0@ == s[i].0@,
        forall|j: int| 0 <= j < i ==> s[j].0@ != p.0@,
    ensures
        lookup(s.update(i, p), p.0@) == Some(p.1@),
        forall|k: Seq<char>| k != p.0@ ==> lookup(s.update(i, p), k) == lookup(s, k),
    decreases i,
{
    let t = s.update(i, p);
    if i == 0 {
        assert(t[0] == p);
        assert(t.subrange(1, t.len() as int) =~= s.subrange(1, s.len() as int));
    } else {
        assert(t[0] == s[0]);
        assert(t.subrange(1, t.len() as int) =~= s.subrange(1, s.len() as int).update(
            i - 1,
            p,
        ));
        lemma_lookup_update(s.subrange(1, s.len() as int), i - 1, p);
        assert forall|k: Seq<char>| k != p.0@ implies lookup(t, k) == lookup(s, k) by {
            if s[0].0@ != k {
                assert(lookup(t, k) == lookup(t.subrange(1, t.len() as int), k));
                assert(lookup(s, k) == lookup(s.subrange(1, s.len() as int), k));
            }
        }
    }
}

/// Puts `value` under `key`: replaces the first pair holding `key`, or
/// appends a new pair; every other key keeps its value.
fn insert_pair(v: &mut Vec<(String, String)>, key: String, value: String)
    ensures
        lookup(final(v)@, key@) == Some(value@),
        forall|k: Seq<char>| k != key@ ==> lookup(final(v)@, k) == lookup(old(v)@, k),
{
    let mut i: usize = 0;
    while i < v.len()
        invariant
            i <= v.len(),
            v@ == old(v)@,
            forall|j: int| 0 <= j < i ==> v@[j].0@ != key@,
        decreases v.len() - i,
    {
        if err::str_eq(v[i].0.as_str(), key.as_str()) {
            let p = (key, value);
            let ghost gp = p;
            let ghost gs = v@;
            v.set(i, p);
            proof {
                lemma_lookup_update(gs, i as int, gp);
            }
            return;
        }
        i += 1;
    }
    let p = (key, value);
    let ghost gp = p;
    let ghost gs = v@;
    v.push(p);
    proof {
        lemma_lookup_absent(gs, gp.0@);
        lemma_lookup_push(gs, gp, gp.0@);
        assert forall|k: Seq<char>| k != gp.0@ implies lookup(v@, k) == lookup(gs, k) by {
            lemma_lookup_push(gs, gp, k);
        }
    }
}

/// The client: the credential store, the secrets it was built from, the
/// fixed endpoint, and the header and parameter maps, kept as key-value
/// lists whose first match is the binding.
pub struct MPesaClient {
    pub configuration: config::Configuration,
    pub api_key: String,
    pub public_key: String,
    pub base_url: String,
    pub path: String,
    pub headers: Vec<(String, String)>,
    pub parameters: Vec<(String, String)>,
}

impl MPesaClient {
    /// Builds a client around the two secrets: the credential store is
    /// fed both, and the standing headers are set. The Authorization
    /// header carries `Bearer` plus the derived credential exactly when
    /// derivation succeeded; with key material that does not parse there
    /// is no pre-issued token to fall back to, so it is absent.
    pub fn new(api_key: String, public_key: String) -> (r: MPesaClient)
        ensures
            r.api_key == api_key,
            r.public_key == public_key,
            r.base_url@ == "https://api.sandbox.vm.co.mz"@,
            r.path@ == "/ipg/v1x/b2cPayment/"@,
            lookup(r.headers@, "User-Agent"@) == Some("PaymentsDS/Mpesa"@),
            lookup(r.headers@, "Content-Type"@) == Some("application/json"@),
            r.configuration.api_key == Some(api_key),
            r.configuration.public_key == Some(public_key),
            r.configuration.access_token is None,
            (match r.configuration.auth {
                Some(a) => lookup(r.headers@, "Authorization"@) == Some("Bearer "@ + a@),
                None => lookup(r.headers@, "Authorization"@) is None,
            }),
            (match lookup(r.headers@, "Authorization"@) {
                Some(h) => config::pem_parses(config::pem_of(public_key@)) && (exists|c: Seq<u8>|
                    h == "Bearer "@ + config::b64_of(c)),
                None => true,
            }),
            !config::pem_parses(config::pem_of(public_key@)) ==> lookup(
                r.headers@,
                "Authorization"@,
            ) is None,
            r.parameters@.len() == 0,
    {
        let mut configuration = config::Configuration::new();
        let ghost c0 = configuration;
        configuration.set_api_key(api_key.clone());
        let ghost c1 = configuration;
        configuration.set_public_key(public_key.clone());
        let ghost c2 = configuration;
        let token = configuration.get_token();
        let ghost c3 = configuration;
        proof {
            assert(c1.auth is None);
            assert(c1.access_token is None);
            if config::pem_parses(config::pem_of(public_key@)) {
                assert(c2.auth is None || config::rsa_output(c2));
                assert(c3.auth is None || config::rsa_output(c3));
            } else {
                assert(!config::rsa_path_open(c2));
                assert(c2.auth is None);
                assert(c3.auth is None);
            }
            reveal_strlit("User-Agent");
            reveal_strlit("Content-Type");
            reveal_strlit("Authorization");
            assert("User-Agent"@.len() == 10);
            assert("Content-Type"@.len() == 12);
            assert("Authorization"@.len() == 13);
        }
        let mut headers: Vec<(String, String)> = Vec::new();
        insert_pair(&mut headers, String::from_str("User-Agent"), configuration.get_user_agent());
        insert_pair(
            &mut headers,
            String::from_str("Content-Type"),
            String::from_str("application/json"),
        );
        match token {
            Some(t) => {
                let bearer = String::from_str("Bearer ").concat(t.as_str());
                insert_pair(&mut headers, String::from_str("Authorization"), bearer);
            },
            None => {},
        }
        let parameters: Vec<(String, String)> = Vec::new();
        MPesaClient {
            configuration,
            api_key,
            public_key,
            base_url: String::from_str("https://api.sandbox.vm.co.mz"),
            path: String::from_str("/ipg/v1x/b2cPayment/"),
            headers,
            parameters,
        }
    }

    /// Puts a header, replacing any standing value under the same name.
    pub fn add_header(&mut self, key: &str, value: &str)
        ensures
            lookup(final(self).headers@, key@) == Some(value@),
            forall|k: Seq<char>| k != key@ ==> lookup(final(self).headers@, k) == lookup(
                old(self).headers@,
                k,
            ),
            final(self).parameters == old(self).parameters,
            final(self).configuration == old(self).configuration,
            final(self).api_key == old(self).api_key,
            final(self).public_key == old(self).public_key,
            final(self).base_url == old(self).base_url,
            final(self).path == old(self).path,
    {
        insert_pair(&mut self.headers, key.to_owned(), value.to_owned());
    }

    /// Puts a request parameter, replacing any standing value under the
    /// same name.
    pub fn add_parameter(&mut self, key: &str, value: &str)
        ensures
            lookup(final(self).parameters@, key@) == Some(value@),
            forall|k: Seq<char>| k != key@ ==> lookup(final(self).parameters@, k) == lookup(
                old(self).parameters@,
                k,
            ),
            final(self).headers == old(self).headers,
            final(self).configuration == old(self).configuration,
            final(self).api_key == old(self).api_key,
            final(self).public_key == old(self).public_key,
            final(self).base_url == old(self).base_url,
            final(self).path == old(self).path,
    {
        insert_pair(&mut self.parameters, key.to_owned(), value.to_owned());
    }

    /// The full endpoint URL the payment is posted to.
    pub fn request_url(&self) -> (r: String)
        ensures
            r@ == self.base_url@ + self.path@,
    {
        self.base_url.clone().concat(self.path.as_str())
    }
}

/// Routes a response whose body parsed. Business success is strictly a
/// transport-success status together with the vendor's `INS-0` sentinel;
/// a transport-success response carrying any other vendor code is a
/// classified failure built from that response's description.
pub fn interpret_response(status: u16, response: MPesaPaymentResponse) -> (r: Result<
    MPesaPaymentResponse,
    err::MPesaError,
>)
    ensures
        is_http_success(status) && response.output_response_code@ == "INS-0"@ ==> (r matches Ok(
            resp,
        ) && resp == response),
        !(is_http_success(status) && response.output_response_code@ == "INS-0"@) ==> (r matches Err(
            e,
        ) && err::is_classification_of(status, response.output_response_desc@, e)),
{
    if 200 <= status && status <= 299 {
        if err::str_eq(response.output_response_code.as_str(), "INS-0") {
            Ok(response)
        } else {
            Err(err::MPesaError::from_code(status, response.output_response_desc.as_str()))
        }
    } else {
        Err(err::MPesaError::from_code(status, response.output_response_desc.as_str()))
    }
}

} // verus!
