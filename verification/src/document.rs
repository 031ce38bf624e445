//! What a JSON text holds, as far as a schedule is read from it.
//!
//! The text is parsed by `serde_json`. Of the value that comes back the
//! library keeps the members of the top-level object, each with its name and,
//! where its value is a string, that string.

use vstd::prelude::*;

verus! {

/// One member of a JSON object.
#[derive(Debug, PartialEq, Eq)]
pub struct Member {
    /// The member's name, in UTF-8.
    pub name: Vec<u8>,
    /// The member's value in UTF-8 where it is a string, `None` where it is anything else.
    pub text: Option<Vec<u8>>,
}

/// A JSON text that was parsed.
#[derive(Debug, PartialEq, Eq)]
pub enum Document {
    /// An object, with its members in the order in which the parser hands them out.
    Object(Vec<Member>),
    /// Any other value.
    Other,
}

/// What a [`Member`] holds.
pub struct MemberView {
    pub name: Seq<u8>,
    pub text: Option<Seq<u8>>,
}

/// What a [`Document`] holds.
pub enum DocumentView {
    Object(Seq<MemberView>),
    Other,
}

impl View for Member {
    type V = MemberView;

    open spec fn view(&self) -> MemberView {
        MemberView {
            name: self.name@,
            text: match self.text {
                Some(text) => Some(text@),
                None => None,
            },
        }
    }
}

/// What a list of members holds.
pub open spec fn member_views(members: Seq<Member>) -> Seq<MemberView> {
    Seq::new(members.len(), |i: int| members[i]@)
}

impl View for Document {
    type V = DocumentView;

    open spec fn view(&self) -> DocumentView {
        match self {
            Document::Object(members) => DocumentView::Object(member_views(members@)),
            Document::Other => DocumentView::Other,
        }
    }
}

/// Whether `index` is the place of the first member called `name`.
pub open spec fn is_first_named(members: Seq<MemberView>, name: Seq<u8>, index: int) -> bool {
    &&& 0 <= index < members.len()
    &&& members[index].name == name
    &&& forall|earlier: int| 0 <= earlier < index ==> (#[trigger] members[earlier]).name != name
}

impl DocumentView {
    /// The first member of the object that is called `name`. A document that
    /// is no object has no members.
    pub open spec fn member(self, name: Seq<u8>) -> Option<MemberView> {
        match self {
            DocumentView::Object(members) => {
                if exists|index: int| is_first_named(members, name, index) {
                    Some(members[choose|index: int| is_first_named(members, name, index)])
                } else {
                    None
                }
            },
            DocumentView::Other => None,
        }
    }
}

/// There is one first member of a name at most.
pub proof fn lemma_first_named_is_unique(members: Seq<MemberView>, name: Seq<u8>, a: int, b: int)
    requires
        is_first_named(members, name, a),
        is_first_named(members, name, b),
    ensures
        a == b,
{
    if a < b {
        assert(members[a].name != name);
    }
    if b < a {
        assert(members[b].name != name);
    }
}

#[verifier::external_type_specification]
#[verifier::external_body]
pub struct ExJsonError(serde_json::Error);

/// What `serde_json` makes of a text: `None` where it reports an error,
/// else the value that it returns.
pub uninterp spec fn json_document(raw: Seq<u8>) -> Option<DocumentView>;

/// Parses `raw` with `serde_json::from_slice` into a `serde_json::Value`.
///
/// Trusted: the outcome depends on the bytes of `raw` alone, which
/// [`json_document`] names; nothing is claimed of what it is on any given
/// text. An error of the parser is handed on. Of a value that is an object
/// the members are handed out in the order of `Map::iter`, each name in
/// UTF-8 and each string value, found with `Value::as_str`, in UTF-8.
#[verifier::external_body]
fn parse_json(raw: &[u8]) -> (r: Result<Document, serde_json::Error>)
    ensures
        match r {
            Ok(document) => json_document(raw@) == Some(document@),
            Err(_) => json_document(raw@) is None,
        },
{
    let value: serde_json::Value = serde_json::from_slice(raw)?;
    Ok(match value.as_object() {
        Some(map) => Document::Object(map.iter().map(|(name, value)| Member {
            name: name.as_bytes().to_vec(),
            text: value.as_str().map(|text| text.as_bytes().to_vec()),
        }).collect()),
        None => Document::Other,
    })
}

impl Document {
    /// Parses a JSON text. `None` where the text is not well-formed JSON.
    pub fn parse(raw: &[u8]) -> (r: Option<Document>)
        ensures
            match r {
                Some(document) => json_document(raw@) == Some(document@),
                None => json_document(raw@) is None,
            },
    {
        match parse_json(raw) {
            Ok(document) => Some(document),
            Err(_) => None,
        }
    }

    /// The first member called `name`.
    pub fn member(&self, name: &[u8]) -> (r: Option<&Member>)
        ensures
            match r {
                Some(member) => self@.member(name@) == Some(member@),
                None => self@.member(name@) is None,
            },
    {
        match self {
            Document::Other => None,
            Document::Object(members) => {
                let ghost views = member_views(members@);
                let mut i: usize = 0;
                while i < members.len()
                    invariant
                        i <= members@.len(),
                        views == member_views(members@),
                        self@ == DocumentView::Object(views),
                        forall|earlier: int|
                            0 <= earlier < i ==> (#[trigger] views[earlier]).name != name@,
                    decreases members@.len() - i,
                {
                    if crate::bytes::same_bytes(members[i].name.as_slice(), name) {
                        proof {
                            assert(views[i as int] == members@[i as int]@);
                            assert(is_first_named(views, name@, i as int));
                            let found = choose|index: int| is_first_named(views, name@, index);
                            lemma_first_named_is_unique(views, name@, found, i as int);
                            assert(self@.member(name@) == Some(views[found]));
                        }
                        return Some(&members[i]);
                    }
                    assert(views[i as int] == members@[i as int]@);
                    i += 1;
                }
                proof {
                    assert forall|index: int| !is_first_named(views, name@, index) by {
                        if is_first_named(views, name@, index) {
                            assert(views[index].name != name@);
                        }
                    }
                }
                None
            },
        }
    }
}

} // verus!
