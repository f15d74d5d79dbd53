//! The message envelope exchanged with the server: a type tag, metadata and
//! an opaque body.

use vstd::prelude::*;
use vstd::string::*;

verus! {

/// One message unit. The type tag selects how the body is read; the
/// client's address and the headers are its metadata; the body is opaque to
/// this crate. The headers are a map from name to value, kept as a list in
/// which no name occurs twice.
#[derive(Debug, PartialEq, Eq)]
pub struct Payload {
    type_tag: String,
    client_ip: String,
    headers: Vec<(String, String)>,
    body: Vec<u8>,
}

/// Mathematical value of a [`Payload`].
pub struct PayloadView {
    pub type_tag: Seq<char>,
    pub client_ip: Seq<char>,
    pub headers: Seq<(Seq<char>, Seq<char>)>,
    pub body: Seq<u8>,
}

/// A header list as a sequence of pairs of texts.
pub open spec fn headers_view(headers: Seq<(String, String)>) -> Seq<(Seq<char>, Seq<char>)> {
    Seq::new(headers.len(), |i: int| (headers[i].0@, headers[i].1@))
}

/// A list of envelopes as a sequence of their values.
pub open spec fn payloads_view(items: Seq<Payload>) -> Seq<PayloadView> {
    Seq::new(items.len(), |i: int| items[i]@)
}

/// UTF-8 bytes of a text.
pub open spec fn text_bytes(text: Seq<char>) -> Seq<u8> {
    vstd::utf8::encode_utf8(text)
}

/// No name occurs twice in the list, so that it stands for a map from name
/// to value.
pub open spec fn distinct_names(pairs: Seq<(Seq<char>, Seq<char>)>) -> bool {
    forall|i: int, j: int|
        0 <= i < j < pairs.len() ==> (#[trigger] pairs[i]).0 != (#[trigger] pairs[j]).0
}

impl View for Payload {
    type V = PayloadView;

    closed spec fn view(&self) -> PayloadView {
        PayloadView {
            type_tag: self.type_tag@,
            client_ip: self.client_ip@,
            headers: headers_view(self.headers@),
            body: self.body@,
        }
    }
}

/// Copy of a list of text pairs.
pub fn clone_pairs(pairs: &Vec<(String, String)>) -> (copy: Vec<(String, String)>)
    ensures
        headers_view(copy@) == headers_view(pairs@),
{
    let mut copy: Vec<(String, String)> = Vec::new();
    let mut i: usize = 0;
    while i < pairs.len()
        invariant
            0 <= i <= pairs.len(),
            copy.len() == i,
            forall|j: int| 0 <= j < i ==> copy[j].0@ == pairs[j].0@ && copy[j].1@ == pairs[j].1@,
        decreases pairs.len() - i,
    {
        copy.push((pairs[i].0.clone(), pairs[i].1.clone()));
        i += 1;
    }
    assert(headers_view(copy@) =~= headers_view(pairs@));
    copy
}

impl Clone for Payload {
    fn clone(&self) -> (copy: Payload)
        ensures
            copy@ == self@,
    {
        proof {
            use_type_invariant(self);
        }
        Payload {
            type_tag: self.type_tag.clone(),
            client_ip: self.client_ip.clone(),
            headers: clone_pairs(&self.headers),
            body: self.body.clone(),
        }
    }
}

impl Payload {
    #[verifier::type_invariant]
    spec fn names_occur_once(&self) -> bool {
        distinct_names(headers_view(self.headers@))
    }

    /// Envelope made of the four parts as given, where no header name occurs
    /// twice; `None` where one does.
    pub fn from_parts(
        type_tag: String,
        client_ip: String,
        headers: Vec<(String, String)>,
        body: Vec<u8>,
    ) -> (r: Option<Payload>)
        ensures
            r.is_some() == distinct_names(headers_view(headers@)),
            r matches Some(p) ==> p@ == (PayloadView {
                type_tag: type_tag@,
                client_ip: client_ip@,
                headers: headers_view(headers@),
                body: body@,
            }),
    {
        if PayloadUtils::has_distinct_names(&headers) {
            Some(Payload { type_tag, client_ip, headers, body })
        } else {
            None
        }
    }

    /// The type tag.
    pub fn type_tag(&self) -> (tag: &String)
        ensures
            tag@ == self@.type_tag,
    {
        &self.type_tag
    }

    /// The client's address; empty where the envelope carries none.
    pub fn client_ip(&self) -> (ip: &String)
        ensures
            ip@ == self@.client_ip,
    {
        &self.client_ip
    }

    /// The headers, in which no name occurs twice.
    pub fn headers(&self) -> (headers: &Vec<(String, String)>)
        ensures
            headers_view(headers@) == self@.headers,
            distinct_names(self@.headers),
    {
        proof {
            use_type_invariant(self);
        }
        &self.headers
    }

    /// The body bytes.
    pub fn body(&self) -> (body: &Vec<u8>)
        ensures
            body@ == self@.body,
    {
        &self.body
    }

    /// The envelope taken apart: type tag, client address, headers, body.
    pub fn into_parts(self) -> (parts: (String, String, Vec<(String, String)>, Vec<u8>))
        ensures
            parts.0@ == self@.type_tag,
            parts.1@ == self@.client_ip,
            headers_view(parts.2@) == self@.headers,
            distinct_names(self@.headers),
            parts.3@ == self@.body,
    {
        proof {
            use_type_invariant(&self);
        }
        (self.type_tag, self.client_ip, self.headers, self.body)
    }
}

/// Builders and readers of envelopes.
pub struct PayloadUtils;

impl PayloadUtils {
    /// Whether no name occurs twice in the list.
    pub fn has_distinct_names(pairs: &Vec<(String, String)>) -> (distinct: bool)
        ensures
            distinct == distinct_names(headers_view(pairs@)),
    {
        let ghost names = headers_view(pairs@);
        let mut j: usize = 0;
        while j < pairs.len()
            invariant
                0 <= j <= pairs.len(),
                names == headers_view(pairs@),
                forall|a: int, b: int| 0 <= a < b < j ==> (#[trigger] names[a]).0 != (
                #[trigger] names[b]).0,
            decreases pairs.len() - j,
        {
            let mut i: usize = 0;
            while i < j
                invariant
                    0 <= i <= j < pairs.len(),
                    names == headers_view(pairs@),
                    forall|a: int| 0 <= a < i ==> (#[trigger] names[a]).0 != names[j as int].0,
                decreases j - i,
            {
                if pairs[i].0 == pairs[j].0 {
                    assert(names[i as int].0 == names[j as int].0);
                    return false;
                }
                i += 1;
            }
            j += 1;
        }
        true
    }

    /// Envelope that carries everything: type tag, text body, the client's
    /// address and the headers, each exactly as given. No header name may
    /// occur twice.
    pub fn build_full_payload(
        url: &str,
        val: String,
        client_ip: &str,
        headers: Vec<(String, String)>,
    ) -> (p: Payload)
        requires
            distinct_names(headers_view(headers@)),
        ensures
            p@ == (PayloadView {
                type_tag: url@,
                client_ip: client_ip@,
                headers: headers_view(headers@),
                body: text_bytes(val@),
            }),
    {
        Payload {
            type_tag: url.to_owned(),
            client_ip: client_ip.to_owned(),
            headers,
            body: val.as_str().as_bytes_vec(),
        }
    }

    /// Envelope with the given type tag and text body, without a client
    /// address and without headers.
    pub fn build_payload(url: &str, val: String) -> (p: Payload)
        ensures
            p@ == (PayloadView {
                type_tag: url@,
                client_ip: Seq::<char>::empty(),
                headers: Seq::<(Seq<char>, Seq<char>)>::empty(),
                body: text_bytes(val@),
            }),
    {
        let headers: Vec<(String, String)> = Vec::new();
        assert(headers_view(headers@) =~= Seq::<(Seq<char>, Seq<char>)>::empty());
        Payload {
            type_tag: url.to_owned(),
            client_ip: String::new(),
            headers,
            body: val.as_str().as_bytes_vec(),
        }
    }

    /// The envelope's type tag.
    pub fn get_payload_type(payload: &Payload) -> (tag: &str)
        ensures
            tag@ == payload@.type_tag,
    {
        payload.type_tag.as_str()
    }

    /// The envelope's body bytes.
    pub fn get_payload_body(payload: &Payload) -> (body: &Vec<u8>)
        ensures
            body@ == payload@.body,
    {
        &payload.body
    }

    /// The value that the envelope's headers give to `key`: the value of the
    /// one header of that name, or `None` where no header has it.
    pub fn get_payload_header(payload: &Payload, key: &str) -> (value: Option<String>)
        ensures
            match value {
                Some(v) => {
                    &&& exists|k: int|
                        0 <= k < payload@.headers.len() && #[trigger] payload@.headers[k] == (
                            key@,
                            v@,
                        )
                    &&& forall|k: int|
                        0 <= k < payload@.headers.len() && (#[trigger] payload@.headers[k]).0
                            == key@ ==> payload@.headers[k].1 == v@
                },
                None => forall|k: int|
                    0 <= k < payload@.headers.len() ==> (#[trigger] payload@.headers[k]).0
                        != key@,
            },
    {
        proof {
            use_type_invariant(payload);
        }
        let wanted = key.to_owned();
        let mut i: usize = 0;
        while i < payload.headers.len()
            invariant
                0 <= i <= payload.headers.len(),
                wanted@ == key@,
                distinct_names(payload@.headers),
                forall|k: int| 0 <= k < i ==> (#[trigger] payload@.headers[k]).0 != key@,
            decreases payload.headers.len() - i,
        {
            if payload.headers[i].0 == wanted {
                let found = payload.headers[i].1.clone();
                assert(payload@.headers[i as int] == (key@, found@));
                assert forall|k: int|
                    0 <= k < payload@.headers.len() && (#[trigger] payload@.headers[k]).0
                        == key@ implies payload@.headers[k].1 == found@ by {
                    if k != i {
                        assert(payload@.headers[k].0 != payload@.headers[i as int].0);
                    }
                }
                return Some(found);
            }
            i += 1;
        }
        None
    }
}

} // verus!
