//! The request that every resource operation builds, and the transport that
//! carries it.

use vstd::prelude::*;
use vstd::string::*;

use crate::error::TransportError;

verus! {

/// HTTP method of a request.
#[derive(Clone, Copy, Debug, PartialEq, Eq, Structural)]
pub enum MethodType {
    Get,
    Post,
    Put,
    Delete,
}

/// The headers that a request can carry: a closed set, so that no request can
/// hold a misspelt header name.
#[derive(Clone, Copy, Debug, PartialEq, Eq, Hash, Structural)]
pub enum HeaderType {
    /// The authentication token of the caller.
    UserToken,
    /// An explicit content length, for a request without a body.
    ContentLength,
}

impl HeaderType {
    /// The name under which a header goes over the wire.
    pub open spec fn wire_name_spec(self) -> Seq<char> {
        match self {
            HeaderType::UserToken => "X-USER-TOKEN"@,
            HeaderType::ContentLength => "CONTENT-LENGTH"@,
        }
    }

    /// The name under which this header goes over the wire.
    pub fn wire_name(self) -> (name: &'static str)
        ensures
            name@ == self.wire_name_spec(),
    {
        match self {
            HeaderType::UserToken => "X-USER-TOKEN",
            HeaderType::ContentLength => "CONTENT-LENGTH",
        }
    }
}

/// No two headers share a wire name.
pub proof fn wire_names_differ(left: HeaderType, right: HeaderType)
    ensures
        left.wire_name_spec() == right.wire_name_spec() <==> left == right,
{
    reveal_strlit("X-USER-TOKEN");
    reveal_strlit("CONTENT-LENGTH");
    assert("X-USER-TOKEN"@.len() != "CONTENT-LENGTH"@.len());
}

/// What a request holds, as a mathematical value.
pub struct RequestModel {
    pub uri: Seq<char>,
    pub method: MethodType,
    pub body: Option<Seq<char>>,
    pub headers: Map<HeaderType, Seq<char>>,
}

/// The map that a list of headers stands for; of two entries of one kind the
/// later one counts.
pub open spec fn header_map(entries: Seq<(HeaderType, String)>) -> Map<HeaderType, Seq<char>>
    decreases entries.len(),
{
    if entries.len() == 0 {
        Map::empty()
    } else {
        header_map(entries.drop_last()).insert(entries.last().0, entries.last().1@)
    }
}

/// No header kind occurs twice.
pub open spec fn distinct_kinds(entries: Seq<(HeaderType, String)>) -> bool {
    forall|i: int, j: int|
        0 <= i < j < entries.len() ==> (#[trigger] entries[i]).0 != (#[trigger] entries[j]).0
}

/// Whether `pairs` holds, for each of `kinds` in turn, its wire name and the
/// value that `headers` gives it.
pub open spec fn names_each(
    pairs: Seq<(&'static str, &str)>,
    kinds: Seq<HeaderType>,
    headers: Map<HeaderType, Seq<char>>,
) -> bool {
    &&& pairs.len() == kinds.len()
    &&& forall|i: int|
        0 <= i < kinds.len() ==> (#[trigger] pairs[i]).0@ == kinds[i].wire_name_spec()
            && pairs[i].1@ == headers[kinds[i]]
}

/// One pending HTTP call: where it goes, how, with what body and headers.
#[derive(Debug)]
pub struct RequestContext {
    uri: String,
    method: MethodType,
    body: Option<String>,
    headers: Vec<(HeaderType, String)>,
}

/// A map does not hold `kind` when none of the entries behind it does.
proof fn lemma_absent(entries: Seq<(HeaderType, String)>, kind: HeaderType)
    requires
        forall|i: int| 0 <= i < entries.len() ==> (#[trigger] entries[i]).0 != kind,
    ensures
        !header_map(entries).contains_key(kind),
    decreases entries.len(),
{
    if entries.len() > 0 {
        lemma_absent(entries.drop_last(), kind);
    }
}

/// A list without its last entry repeats no kind either.
proof fn lemma_front(entries: Seq<(HeaderType, String)>)
    requires
        distinct_kinds(entries),
        entries.len() > 0,
    ensures
        distinct_kinds(entries.drop_last()),
{
    let front = entries.drop_last();
    assert forall|i: int, j: int| 0 <= i < j < front.len() implies (#[trigger] front[i]).0 != (
    #[trigger] front[j]).0 by {
        assert(front[i] == entries[i] && front[j] == entries[j]);
    }
}

/// The map holds the value of the one entry of a kind.
proof fn lemma_present(entries: Seq<(HeaderType, String)>, at: int)
    requires
        distinct_kinds(entries),
        0 <= at < entries.len(),
    ensures
        header_map(entries).contains_key(entries[at].0),
        header_map(entries)[entries[at].0] == entries[at].1@,
    decreases entries.len(),
{
    if at < entries.len() - 1 {
        let front = entries.drop_last();
        lemma_front(entries);
        lemma_present(front, at);
        assert(entries[at].0 != entries[entries.len() - 1].0);
    }
}

/// Replacing the one entry of a kind is an insertion into the map.
proof fn lemma_replace(entries: Seq<(HeaderType, String)>, at: int, value: String)
    requires
        distinct_kinds(entries),
        0 <= at < entries.len(),
    ensures
        header_map(entries.update(at, (entries[at].0, value))) == header_map(entries).insert(
            entries[at].0,
            value@,
        ),
    decreases entries.len(),
{
    let kind = entries[at].0;
    let updated = entries.update(at, (kind, value));
    if at == entries.len() - 1 {
        assert(updated.drop_last() == entries.drop_last());
        assert(header_map(updated) =~= header_map(entries).insert(kind, value@));
    } else {
        let front = entries.drop_last();
        lemma_front(entries);
        lemma_replace(front, at, value);
        assert(updated.drop_last() == front.update(at, (kind, value)));
        assert(updated.last() == entries.last());
        assert(entries.last().0 != kind) by {
            assert(entries[at].0 != entries[entries.len() - 1].0);
        }
        assert(header_map(updated) =~= header_map(entries).insert(kind, value@));
    }
}

impl View for RequestContext {
    type V = RequestModel;

    closed spec fn view(&self) -> RequestModel {
        RequestModel {
            uri: self.uri@,
            method: self.method,
            body: match self.body {
                Some(text) => Some(text@),
                None => None,
            },
            headers: header_map(self.headers@),
        }
    }
}

impl RequestContext {
    /// What every request keeps: no header kind occurs twice in its list.
    #[verifier::type_invariant]
    spec fn well_formed(self) -> bool {
        distinct_kinds(self.headers@)
    }

    /// A request to `uri`. It carries the token header exactly when a token
    /// is given, and no other header.
    pub fn new(uri: &str, method: MethodType, body: Option<&str>, token: Option<&str>) -> (context:
        Self)
        ensures
            context@ == (RequestModel {
                uri: uri@,
                method,
                body: match body {
                    Some(text) => Some(text@),
                    None => None,
                },
                headers: match token {
                    Some(text) => Map::empty().insert(HeaderType::UserToken, text@),
                    None => Map::empty(),
                },
            }),
    {
        let mut headers: Vec<(HeaderType, String)> = Vec::new();
        if let Some(text) = token {
            headers.push((HeaderType::UserToken, String::from_str(text)));
        }
        let body = match body {
            Some(text) => Some(String::from_str(text)),
            None => None,
        };
        proof {
            reveal_with_fuel(header_map, 2);
        }
        Self { uri: String::from_str(uri), method, body, headers }
    }

    /// Where the request goes.
    pub fn uri(&self) -> (uri: &str)
        ensures
            uri@ == self@.uri,
    {
        self.uri.as_str()
    }

    /// How the request is made.
    pub fn method(&self) -> (method: MethodType)
        ensures
            method == self@.method,
    {
        self.method
    }

    /// The body of the request, if it has one.
    pub fn body(&self) -> (body: Option<&str>)
        ensures
            match body {
                Some(text) => self@.body == Some(text@),
                None => self@.body is None,
            },
    {
        match &self.body {
            Some(text) => Some(text.as_str()),
            None => None,
        }
    }

    /// The value of the header `kind`, if the request carries it.
    pub fn header(&self, kind: HeaderType) -> (value: Option<&str>)
        ensures
            match value {
                Some(text) => self@.headers.contains_key(kind) && self@.headers[kind] == text@,
                None => !self@.headers.contains_key(kind),
            },
    {
        proof {
            use_type_invariant(self);
        }
        match self.position(kind) {
            Some(i) => {
                proof {
                    lemma_present(self.headers@, i as int);
                }
                Some(self.headers[i].1.as_str())
            },
            None => {
                proof {
                    lemma_absent(self.headers@, kind);
                }
                None
            },
        }
    }

    /// Every header of the request, each kind once, with its value.
    pub fn headers(&self) -> (entries: &Vec<(HeaderType, String)>)
        ensures
            distinct_kinds(entries@),
            header_map(entries@) == self@.headers,
    {
        proof {
            use_type_invariant(self);
        }
        &self.headers
    }

    /// The headers as they go over the wire: for each header of the request,
    /// and for nothing else, one pair of its wire name and its value.
    pub fn wire_headers(&self) -> (pairs: Vec<(&'static str, &str)>)
        ensures
            exists|kinds: Seq<HeaderType>|
                kinds.no_duplicates() && kinds.to_set() == self@.headers.dom() && #[trigger] names_each(
                    pairs@,
                    kinds,
                    self@.headers,
                ),
    {
        proof {
            use_type_invariant(self);
        }
        let mut pairs: Vec<(&'static str, &str)> = Vec::new();
        let mut i: usize = 0;
        while i < self.headers.len()
            invariant
                i <= self.headers.len(),
                pairs@.len() == i,
                distinct_kinds(self.headers@),
                forall|k: int|
                    0 <= k < i ==> (#[trigger] pairs@[k]).0@ == self.headers@[k].0.wire_name_spec()
                        && pairs@[k].1@ == self.headers@[k].1@,
            decreases self.headers.len() - i,
        {
            pairs.push((self.headers[i].0.wire_name(), self.headers[i].1.as_str()));
            i += 1;
        }
        proof {
            let entries = self.headers@;
            let kinds = Seq::new(entries.len(), |k: int| entries[k].0);
            assert(kinds.no_duplicates());
            assert forall|kind: HeaderType|
                kinds.to_set().contains(kind) <==> self@.headers.dom().contains(kind) by {
                if kinds.contains(kind) {
                    let at = choose|k: int| 0 <= k < kinds.len() && kinds[k] == kind;
                    lemma_present(entries, at);
                } else {
                    assert forall|k: int| 0 <= k < entries.len() implies (#[trigger] entries[k]).0
                        != kind by {
                        assert(kinds[k] == entries[k].0);
                    }
                    lemma_absent(entries, kind);
                }
            }
            assert(kinds.to_set() =~= self@.headers.dom());
            assert forall|k: int| 0 <= k < kinds.len() implies (#[trigger] pairs@[k]).0@
                == kinds[k].wire_name_spec() && pairs@[k].1@ == self@.headers[kinds[k]] by {
                lemma_present(entries, k);
            }
            assert(names_each(pairs@, kinds, self@.headers));
        }
        pairs
    }

    /// Where the header `kind` stands in the list, if it is there.
    fn position(&self, kind: HeaderType) -> (at: Option<usize>)
        ensures
            match at {
                Some(i) => i < self.headers@.len() && self.headers@[i as int].0 == kind,
                None => forall|k: int|
                    0 <= k < self.headers@.len() ==> (#[trigger] self.headers@[k]).0 != kind,
            },
    {
        let mut i: usize = 0;
        while i < self.headers.len()
            invariant
                i <= self.headers.len(),
                forall|k: int| 0 <= k < i ==> (#[trigger] self.headers@[k]).0 != kind,
            decreases self.headers.len() - i,
        {
            if self.headers[i].0 == kind {
                return Some(i);
            }
            i += 1;
        }
        None
    }

    /// Sets the header `header_type` to `value`, in place of any value it
    /// had. Nothing else changes.
    pub fn insert_header(&mut self, header_type: HeaderType, value: &str)
        ensures
            final(self)@ == (RequestModel {
                headers: old(self)@.headers.insert(header_type, value@),
                ..old(self)@
            }),
    {
        proof {
            use_type_invariant(&*self);
        }
        let text = String::from_str(value);
        let at = self.position(header_type);
        let mut headers: Vec<(HeaderType, String)> = Vec::new();
        let mut i: usize = 0;
        while i < self.headers.len()
            invariant
                i <= self.headers.len(),
                headers@.len() == i,
                *self == *old(self),
                forall|k: int|
                    0 <= k < i ==> #[trigger] headers@[k] == (if at == Some(k as usize) {
                        (header_type, text)
                    } else {
                        self.headers@[k]
                    }),
            decreases self.headers.len() - i,
        {
            let replace = match at {
                Some(j) => j == i,
                None => false,
            };
            if replace {
                headers.push((header_type, text.clone()));
            } else {
                headers.push((self.headers[i].0, self.headers[i].1.clone()));
            }
            i += 1;
        }
        match at {
            Some(j) => {
                proof {
                    lemma_replace(self.headers@, j as int, text);
                    assert(headers@ =~= self.headers@.update(j as int, (header_type, text)));
                }
            },
            None => {
                headers.push((header_type, text));
                proof {
                    lemma_absent(self.headers@, header_type);
                    assert(headers@.drop_last() =~= self.headers@);
                }
            },
        }
        self.headers = headers;
    }
}

/// What a transport hands back, as a mathematical value: the text of the
/// response body, or the text of its own failure.
pub open spec fn response_model(response: Result<String, TransportError>) -> Result<
    Seq<char>,
    Seq<char>,
> {
    match response {
        Ok(body) => Ok(body@),
        Err(error) => Err(error.message@),
    }
}

/// The transport: whatever performs the network exchange for a request.
///
/// An implementation honours the method, attaches the body where there is
/// one, sets every header of the request under its wire name, and hands back
/// the whole response body whatever the HTTP status was. It fails only where
/// the exchange itself fails.
pub trait HttpClient {
    /// Whether this transport may hand back `response` for `request`. The
    /// library asks nothing of this relation, and a transport that says
    /// nothing of itself leaves every response possible: the relation only
    /// records, in the contract of each operation, which request the
    /// response belongs to.
    open spec fn answers(
        &self,
        request: RequestModel,
        response: Result<Seq<char>, Seq<char>>,
    ) -> bool {
        true
    }

    /// Performs the exchange for `context`.
    fn do_request(&self, context: &RequestContext) -> (response: Result<String, TransportError>)
        ensures
            self.answers(context@, response_model(response)),
    ;
}

} // verus!
