use vstd::prelude::*;

verus! {

/// One header line a preset adds to a relayed call.
#[derive(Debug)]
pub struct Header {
    pub name: String,
    pub value: String,
}

/// The mathematical value of a header: its name and its value as text.
pub type HeaderView = (Seq<char>, Seq<char>);

impl View for Header {
    type V = HeaderView;

    open spec fn view(&self) -> HeaderView {
        (self.name@, self.value@)
    }
}

/// The text of each header, in order.
pub open spec fn headers_view(hs: Seq<Header>) -> Seq<HeaderView> {
    hs.map_values(|h: Header| h@)
}

/// A reusable request template, addressed by its key.
#[derive(Debug)]
pub struct Preset {
    pub key: String,
    pub url: String,
    pub method: String,
    pub headers: Vec<Header>,
    pub body: String,
}

/// The mathematical value of a preset.
pub struct PresetView {
    pub key: Seq<char>,
    pub url: Seq<char>,
    pub method: Seq<char>,
    pub headers: Seq<HeaderView>,
    pub body: Seq<char>,
}

impl View for Preset {
    type V = PresetView;

    open spec fn view(&self) -> PresetView {
        PresetView {
            key: self.key@,
            url: self.url@,
            method: self.method@,
            headers: headers_view(self.headers@),
            body: self.body@,
        }
    }
}

impl Header {
    pub fn new(name: &str, value: &str) -> (r: Header)
        ensures
            r@ == (name@, value@),
    {
        Header { name: name.to_owned(), value: value.to_owned() }
    }

    /// A copy that shares nothing with `self`.
    pub fn copied(&self) -> (r: Header)
        ensures
            r@ == self@,
    {
        Header { name: self.name.clone(), value: self.value.clone() }
    }
}

/// A copy of a list of headers.
pub fn copy_headers(hs: &Vec<Header>) -> (r: Vec<Header>)
    ensures
        headers_view(r@) == headers_view(hs@),
{
    let mut r: Vec<Header> = Vec::new();
    let mut i: usize = 0;
    while i < hs.len()
        invariant
            i <= hs.len(),
            r@.len() == i,
            forall|j: int| 0 <= j < i ==> #[trigger] r@[j]@ == hs@[j]@,
        decreases hs.len() - i,
    {
        r.push(hs[i].copied());
        i = i + 1;
    }
    assert(headers_view(r@) =~= headers_view(hs@));
    r
}

impl Preset {
    pub fn new(key: &str, url: &str, method: &str, headers: Vec<Header>, body: &str) -> (r: Preset)
        ensures
            r@ == (PresetView {
                key: key@,
                url: url@,
                method: method@,
                headers: headers_view(headers@),
                body: body@,
            }),
    {
        Preset {
            key: key.to_owned(),
            url: url.to_owned(),
            method: method.to_owned(),
            headers,
            body: body.to_owned(),
        }
    }

    /// A defensive copy: changing it never changes `self`.
    pub fn copied(&self) -> (r: Preset)
        ensures
            r@ == self@,
    {
        Preset {
            key: self.key.clone(),
            url: self.url.clone(),
            method: self.method.clone(),
            headers: copy_headers(&self.headers),
            body: self.body.clone(),
        }
    }
}

/// The methods a preset may name.
#[derive(Clone, Copy, Debug, PartialEq, Eq, Structural)]
pub enum Method {
    Get,
    Post,
    Put,
    Patch,
    Delete,
}

/// The method an upper-case name stands for; any other name stands for GET.
pub open spec fn method_named(upper: Seq<char>) -> Method {
    if upper == "POST"@ {
        Method::Post
    } else if upper == "PUT"@ {
        Method::Put
    } else if upper == "PATCH"@ {
        Method::Patch
    } else if upper == "DELETE"@ {
        Method::Delete
    } else {
        Method::Get
    }
}

/// The canonical name of a method.
pub open spec fn method_text(m: Method) -> Seq<char> {
    match m {
        Method::Get => "GET"@,
        Method::Post => "POST"@,
        Method::Put => "PUT"@,
        Method::Patch => "PATCH"@,
        Method::Delete => "DELETE"@,
    }
}

/// The upper-case form of a text.
pub uninterp spec fn upper_of(s: Seq<char>) -> Seq<char>;

/// Relies on `str::to_uppercase`: the upper-case form depends on the
/// characters alone.
#[verifier::external_body]
fn to_upper(s: &str) -> (r: String)
    ensures
        r@ == upper_of(s@),
{
    s.to_uppercase()
}

impl Method {
    /// The method an already upper-case name stands for, GET where it names
    /// none of the others.
    pub fn from_upper(upper: &str) -> (r: Method)
        ensures
            r == method_named(upper@),
    {
        let u = upper.to_owned();
        if u == "POST".to_owned() {
            Method::Post
        } else if u == "PUT".to_owned() {
            Method::Put
        } else if u == "PATCH".to_owned() {
            Method::Patch
        } else if u == "DELETE".to_owned() {
            Method::Delete
        } else {
            Method::Get
        }
    }

    /// The method a name stands for, in any case; GET where it names none
    /// of the others.
    pub fn parse(name: &str) -> (r: Method)
        ensures
            r == method_named(upper_of(name@)),
    {
        let upper = to_upper(name);
        Method::from_upper(upper.as_str())
    }

    /// The canonical name of the method.
    pub fn as_str(&self) -> (r: &'static str)
        ensures
            r@ == method_text(*self),
    {
        match self {
            Method::Get => "GET",
            Method::Post => "POST",
            Method::Put => "PUT",
            Method::Patch => "PATCH",
            Method::Delete => "DELETE",
        }
    }
}

impl Preset {
    /// The method the preset names, read as `Method::parse` reads it.
    pub fn method_kind(&self) -> (r: Method)
        ensures
            r == method_named(upper_of(self.method@)),
    {
        Method::parse(self.method.as_str())
    }
}

} // verus!
