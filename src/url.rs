use vstd::prelude::*;

verus! {

/// An identifier of the data model: a string that names an issuer, a
/// verification method, a schema, a credential or a verifier. Two
/// identifiers are the same when their strings are; they are ordered by
/// the bytes of their strings.
#[derive(Clone, Debug, PartialEq, Eq, PartialOrd, Ord, Hash)]
pub struct URL {
    value: String,
}

/// The reason a string was not taken as an identifier.
#[derive(PartialEq, Eq, Structural, Debug)]
pub enum UrlError {
    Malformed,
}

impl View for URL {
    type V = Seq<char>;

    closed spec fn view(&self) -> Seq<char> {
        self.value@
    }
}

impl URL {
    /// Every string is accepted as an identifier.
    pub fn new(url: &str) -> (r: Result<URL, UrlError>)
        ensures
            r matches Ok(u) && u@ == url@,
    {
        Ok(URL { value: url.to_string() })
    }

    /// The identifier's string.
    pub fn get_str(&self) -> (r: &str)
        ensures
            r@ == self@,
    {
        self.value.as_str()
    }

    /// The identifier's string, owned; it stands where a display form is
    /// asked for.
    pub fn to_string(&self) -> (r: String)
        ensures
            r@ == self@,
    {
        self.value.clone()
    }

    /// A second identifier with the same string.
    pub fn duplicate(&self) -> (r: URL)
        ensures
            r@ == self@,
    {
        URL { value: self.value.clone() }
    }

    /// Whether two identifiers have the same string.
    pub fn same_as(&self, other: &URL) -> (r: bool)
        ensures
            r == (self@ == other@),
    {
        self.value == other.value
    }
}

} // verus!
