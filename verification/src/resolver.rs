//! From the answer of the metadata endpoint to the address of the picture.

use crate::text::text_of;
use vstd::prelude::*;
use vstd::string::StringExecFns;

verus! {

/// The address that is asked for the picture of the day.
pub const METADATA_ENDPOINT: &'static str = "https://bing.biturl.top";

/// The field of the answer that holds the picture's address.
pub const URL_FIELD: &'static str = "url";

/// What a sequence of key and value pairs maps each key to, a later pair
/// taking the place of an earlier one with the same key.
spec fn fields_of(entries: Seq<(String, String)>) -> Map<Seq<char>, Seq<char>>
    decreases entries.len(),
{
    if entries.len() == 0 {
        Map::empty()
    } else {
        fields_of(entries.drop_last()).insert(entries.last().0@, entries.last().1@)
    }
}

/// A decoded JSON object whose values are all strings: a map from field names
/// to texts.
#[derive(Debug, Clone)]
pub struct Fields {
    entries: Vec<(String, String)>,
}

impl View for Fields {
    type V = Map<Seq<char>, Seq<char>>;

    closed spec fn view(&self) -> Map<Seq<char>, Seq<char>> {
        fields_of(self.entries@)
    }
}

impl Fields {
    /// The object without fields.
    pub fn new() -> (fields: Fields)
        ensures
            fields@ == Map::<Seq<char>, Seq<char>>::empty(),
    {
        Fields { entries: Vec::new() }
    }

    /// Sets the field `key` to `value`, whether or not it was set before.
    pub fn insert(&mut self, key: String, value: String)
        ensures
            final(self)@ == old(self)@.insert(key@, value@),
    {
        proof {
            assert(self.entries@.push((key, value)).drop_last() =~= self.entries@);
        }
        self.entries.push((key, value));
    }

    /// The value of the field `key`, if the object has that field.
    pub fn get(&self, key: &str) -> (value: Option<&String>)
        ensures
            value is Some <==> self@.contains_key(key@),
            value is Some ==> value->Some_0@ == self@[key@],
    {
        let wanted = String::from_str(key);
        let mut i: usize = self.entries.len();
        proof {
            assert(self.entries@.take(i as int) =~= self.entries@);
        }
        while i > 0
            invariant
                i <= self.entries.len(),
                wanted@ == key@,
                fields_of(self.entries@).contains_key(key@) == fields_of(
                    self.entries@.take(i as int),
                ).contains_key(key@),
                fields_of(self.entries@).contains_key(key@) ==> fields_of(self.entries@)[key@]
                    == fields_of(self.entries@.take(i as int))[key@],
            decreases i,
        {
            proof {
                assert(self.entries@.take(i as int).drop_last() =~= self.entries@.take(i - 1));
            }
            i -= 1;
            if self.entries[i].0 == wanted {
                return Some(&self.entries[i].1);
            }
        }
        proof {
            assert(self.entries@.take(0).len() == 0);
        }
        None
    }
}

/// How the request to the metadata endpoint ended.
#[derive(Debug, Clone)]
pub enum MetadataResponse {
    /// The request could not be completed.
    Unreachable,
    /// The body is not a JSON object whose values are all strings.
    Undecodable,
    /// The decoded body.
    Object(Fields),
}

/// Why no address was found for the picture.
#[derive(Debug, Clone, Copy, PartialEq, Eq, Structural)]
pub enum ResolverError {
    /// The request could not be completed.
    Request,
    /// The body could not be decoded.
    Decode,
    /// The decoded body has no `url` field.
    MissingField,
}

/// A [`MetadataResponse`] as plain values, the decoded body as a map.
pub enum MetadataResponseView {
    Unreachable,
    Undecodable,
    Object(Map<Seq<char>, Seq<char>>),
}

impl View for MetadataResponse {
    type V = MetadataResponseView;

    open spec fn view(&self) -> MetadataResponseView {
        match *self {
            MetadataResponse::Unreachable => MetadataResponseView::Unreachable,
            MetadataResponse::Undecodable => MetadataResponseView::Undecodable,
            MetadataResponse::Object(fields) => MetadataResponseView::Object(fields@),
        }
    }
}

/// The address that an answer of the metadata endpoint stands for.
pub open spec fn picture_url_of(response: MetadataResponseView) -> Result<
    Seq<char>,
    ResolverError,
> {
    match response {
        MetadataResponseView::Unreachable => Err(ResolverError::Request),
        MetadataResponseView::Undecodable => Err(ResolverError::Decode),
        MetadataResponseView::Object(fields) => if fields.contains_key(URL_FIELD@) {
            Ok(fields[URL_FIELD@])
        } else {
            Err(ResolverError::MissingField)
        },
    }
}

/// Reads the address of the picture off the answer of the metadata endpoint:
/// the value of its `url` field, as it stands.
pub fn resolve_picture_url(response: &MetadataResponse) -> (result: Result<String, ResolverError>)
    ensures
        text_of(result) == picture_url_of(response@),
{
    match response {
        MetadataResponse::Unreachable => Err(ResolverError::Request),
        MetadataResponse::Undecodable => Err(ResolverError::Decode),
        MetadataResponse::Object(fields) => match fields.get(URL_FIELD) {
            Some(url) => Ok(url.clone()),
            None => Err(ResolverError::MissingField),
        },
    }
}

/// The sentence that tells of a failed resolution; it names the endpoint
/// unless the answer arrived and only lacks the field.
pub open spec fn resolver_message(error: ResolverError, endpoint: Seq<char>) -> Seq<char> {
    match error {
        ResolverError::Request => "Could not get response from "@ + endpoint,
        ResolverError::Decode => "Could not get json from "@ + endpoint,
        ResolverError::MissingField => "No url found"@,
    }
}

impl ResolverError {
    /// A sentence for the person who runs the program, naming the endpoint
    /// that was asked.
    pub fn message(&self, endpoint: &str) -> (text: String)
        ensures
            text@ == resolver_message(*self, endpoint@),
    {
        match self {
            ResolverError::Request => String::from_str("Could not get response from ").concat(
                endpoint,
            ),
            ResolverError::Decode => String::from_str("Could not get json from ").concat(endpoint),
            ResolverError::MissingField => String::from_str("No url found"),
        }
    }
}

} // verus!
