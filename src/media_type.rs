//! Media types, reduced to the `type/subtype` essence that lookups compare.
use vstd::prelude::*;

verus! {

/// The lower-cased `type/subtype` essence of a media type as `mime` parses it,
/// or none where the text is not a media type.
pub uninterp spec fn mime_essence(text: Seq<char>) -> Option<Seq<char>>;

/// Relies on `mime::Mime`'s `FromStr` and `essence_str`: the essence of the parsed
/// media type, parameters left out.
#[verifier::external_body]
fn parse_mime_essence(text: &str) -> (r: Option<String>)
    ensures
        r matches Some(e) ==> mime_essence(text@) == Some(e@),
        r is None ==> mime_essence(text@) is None,
{
    text.parse::<mime::Mime>().ok().map(|m| m.essence_str().to_string())
}

/// A media type, identified by its `type/subtype` essence.
#[derive(Clone, Debug, PartialEq, Eq, Hash)]
pub struct MediaType {
    essence: String,
}

impl MediaType {
    /// The media type whose essence is the given lower-case text.
    pub fn from_static(essence: &str) -> (r: MediaType)
        ensures
            r@ == essence@,
    {
        MediaType { essence: essence.to_string() }
    }

    /// Parses a media type, with optional parameters, into its essence.
    pub fn parse(text: &str) -> (r: Option<MediaType>)
        ensures
            r matches Some(m) ==> mime_essence(text@) == Some(m@),
            r is None ==> mime_essence(text@) is None,
    {
        match parse_mime_essence(text) {
            Some(e) => Some(MediaType { essence: e }),
            None => None,
        }
    }

    /// A copy of the media type.
    pub fn duplicate(&self) -> (r: MediaType)
        ensures
            r == *self,
    {
        MediaType { essence: self.essence.clone() }
    }

    /// The `type/subtype` essence.
    pub fn essence(&self) -> (r: &str)
        ensures
            r@ == self@,
    {
        self.essence.as_str()
    }

}

impl View for MediaType {
    type V = Seq<char>;

    closed spec fn view(&self) -> Seq<char> {
        self.essence@
    }
}

} // verus!
