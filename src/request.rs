use vstd::prelude::*;

verus! {

/// The two request methods that a request can carry.
#[derive(Debug, Clone, Copy, PartialEq, Eq, Structural)]
pub enum Method {
    GET,
    POST,
}

impl Default for Method {
    /// A method that has not been chosen explicitly reads as GET.
    fn default() -> (r: Method)
        ensures
            r == Method::GET,
    {
        Method::GET
    }
}

/// The mathematical value of a finished request.
pub ghost struct RequestView {
    pub url: Seq<char>,
    pub method: Method,
    pub headers: Seq<(Seq<char>, Seq<char>)>,
    pub body: Option<Seq<char>>,
}

/// The view of a list of header pairs: each pair as two character sequences.
pub open spec fn pairs_view(h: Seq<(String, String)>) -> Seq<(Seq<char>, Seq<char>)> {
    h.map_values(|p: (String, String)| (p.0@, p.1@))
}

/// A finished, immutable request.
#[derive(Debug)]
pub struct Request {
    url: String,
    method: Method,
    headers: Vec<(String, String)>,
    body: Option<String>,
}

impl View for Request {
    type V = RequestView;

    closed spec fn view(&self) -> RequestView {
        RequestView {
            url: self.url@,
            method: self.method,
            headers: pairs_view(self.headers@),
            body: match self.body {
                Some(b) => Some(b@),
                None => None,
            },
        }
    }
}

impl Request {
    /// A request made of the given parts.
    pub(crate) fn from_parts(
        url: String,
        method: Method,
        headers: Vec<(String, String)>,
        body: Option<String>,
    ) -> (r: Request)
        ensures
            r@.url == url@,
            r@.method == method,
            r@.headers == pairs_view(headers@),
            r@.body == (match body {
                Some(b) => Some(b@),
                None => None::<Seq<char>>,
            }),
    {
        Request { url, method, headers, body }
    }

    /// The request's URL.
    pub fn url(&self) -> (r: &String)
        ensures
            r@ == self@.url,
    {
        &self.url
    }

    /// The request's method.
    pub fn method(&self) -> (r: Method)
        ensures
            r == self@.method,
    {
        self.method
    }

    /// The request's headers, in the order in which they were added.
    pub fn headers(&self) -> (r: &Vec<(String, String)>)
        ensures
            pairs_view(r@) == self@.headers,
    {
        &self.headers
    }

    /// The request's body, if one was attached.
    pub fn body(&self) -> (r: &Option<String>)
        ensures
            r.is_some() == self@.body.is_some(),
            r.is_some() ==> r.unwrap()@ == self@.body.unwrap(),
    {
        &self.body
    }
}

} // verus!
