use vstd::prelude::*;

verus! {

/// A member site of the ring, as the site list gives it.
#[derive(Debug, Clone)]
pub struct Website {
    pub slug: String,
    pub name: Option<String>,
    pub about: Option<String>,
    pub url: String,
    pub rss: Option<String>,
    pub owner: Option<String>,
}

/// The text of an optional field, empty where the field is absent.
pub open spec fn text_or_empty(field: Option<String>) -> Seq<char> {
    match field {
        Some(s) => s@,
        None => Seq::empty(),
    }
}

/// The text of an optional field, or the empty string.
pub fn field_text(field: &Option<String>) -> (r: String)
    ensures
        r@ == text_or_empty(*field),
{
    match field {
        Some(s) => s.clone(),
        None => String::new(),
    }
}

} // verus!
