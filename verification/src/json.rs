//! The members of a JSON frame.
//!
//! Frames arrive as JSON text. Reading the text is left to `serde_json`; what
//! this module works with is the list of the members of the frame's top-level
//! object, each with its name and, where its value is a string, that string.

use vstd::prelude::*;

verus! {

/// The error with which `serde_json` refuses a text.
#[verifier::external_type_specification]
#[verifier::external_body]
pub struct ExJsonError(serde_json::Error);

/// One member of a JSON object: its name, and its value where that is a
/// string.
#[derive(Debug)]
pub struct JsonMember {
    /// The name of the member.
    pub name: String,
    /// The value of the member if it is a string, nothing for a value of
    /// any other kind.
    pub text: Option<String>,
}

/// A member, as plain values.
pub ghost struct MemberView {
    pub name: Seq<char>,
    pub text: Option<Seq<char>>,
}

impl View for JsonMember {
    type V = MemberView;

    open spec fn view(&self) -> MemberView {
        MemberView {
            name: self.name@,
            text: match self.text {
                Some(text) => Some(text@),
                None => None,
            },
        }
    }
}

/// The views of a run of members, in the same order.
pub open spec fn member_views(members: Seq<JsonMember>) -> Seq<MemberView> {
    Seq::new(members.len(), |i: int| members[i]@)
}

/// What `serde_json` reads in `text`: nothing where the text is not JSON,
/// else the members of its top-level object, or no members where the text is
/// a JSON value of another kind. The members come in the order in which
/// `serde_json` keeps them, which nothing here depends on.
pub uninterp spec fn json_members(text: Seq<char>) -> Option<Seq<MemberView>>;

/// Reads `text` with `serde_json::from_str`, as a `serde_json::Value`, and
/// lists the members of the object it finds.
///
/// The contract gives the outcome a name, `json_members`, and claims that
/// the outcome is determined by the text: an error exactly where the name is
/// `None`, else the members that the name lists. A value that is not an
/// object comes back as an empty list.
#[verifier::external_body]
fn parse_members(text: &str) -> (parsed: Result<Vec<JsonMember>, serde_json::Error>)
    ensures
        match parsed {
            Ok(members) => json_members(text@) == Some(member_views(members@)),
            Err(_) => json_members(text@) is None,
        },
{
    let value: serde_json::Value = serde_json::from_str(text)?;
    Ok(match value {
        serde_json::Value::Object(members) => members.into_iter().map(|(name, value)| JsonMember {
            name,
            text: match value {
                serde_json::Value::String(text) => Some(text),
                _ => None,
            },
        }).collect(),
        _ => Vec::new(),
    })
}

/// The first member of `members` with the name `name`, if there is one.
pub open spec fn find_member(members: Seq<MemberView>, name: Seq<char>) -> Option<MemberView>
    decreases members.len(),
{
    if members.len() == 0 {
        None
    } else if members[0].name == name {
        Some(members[0])
    } else {
        find_member(members.drop_first(), name)
    }
}

/// The string that the member `name` holds, if there is such a member and
/// its value is a string.
pub open spec fn member_text(members: Seq<MemberView>, name: Seq<char>) -> Option<Seq<char>> {
    match find_member(members, name) {
        Some(member) => member.text,
        None => None,
    }
}

/// Whether there is a member with the name `name`.
pub open spec fn has_member(members: Seq<MemberView>, name: Seq<char>) -> bool {
    find_member(members, name) is Some
}

/// The members of the frame `text`, or nothing where the text is not JSON.
pub fn read_members(text: &str) -> (members: Option<Vec<JsonMember>>)
    ensures
        match members {
            Some(list) => json_members(text@) == Some(member_views(list@)),
            None => json_members(text@) is None,
        },
{
    match parse_members(text) {
        Ok(list) => Some(list),
        Err(_) => None,
    }
}

/// Where the first member with the name `name` stands in `members`.
pub fn position_of(members: &Vec<JsonMember>, name: &str) -> (found: Option<usize>)
    ensures
        match found {
            Some(i) => i < members@.len() && find_member(member_views(members@), name@) == Some(
                members@[i as int]@,
            ),
            None => find_member(member_views(members@), name@) is None,
        },
{
    let key = name.to_owned();
    let ghost views = member_views(members@);
    let mut i: usize = 0;
    assert(views.skip(0) == views);
    while i < members.len()
        invariant
            i <= members@.len(),
            views == member_views(members@),
            key@ == name@,
            find_member(views, name@) == find_member(views.skip(i as int), name@),
        decreases members@.len() - i,
    {
        let ghost rest = views.skip(i as int);
        assert(rest[0] == members@[i as int]@);
        assert(rest.drop_first() == views.skip(i + 1));
        if members[i].name == key {
            return Some(i);
        }
        i = i + 1;
    }
    assert(views.skip(i as int).len() == 0);
    None
}

/// A copy of the string that the member `name` holds, if there is such a
/// member and its value is a string.
pub fn text_of(members: &Vec<JsonMember>, name: &str) -> (text: Option<String>)
    ensures
        match text {
            Some(t) => member_text(member_views(members@), name@) == Some(t@),
            None => member_text(member_views(members@), name@) is None,
        },
{
    match position_of(members, name) {
        Some(i) => match &members[i].text {
            Some(text) => Some(text.clone()),
            None => None,
        },
        None => None,
    }
}

/// Whether `members` has a member with the name `name`.
pub fn contains_member(members: &Vec<JsonMember>, name: &str) -> (found: bool)
    ensures
        found == has_member(member_views(members@), name@),
{
    position_of(members, name).is_some()
}

} // verus!
