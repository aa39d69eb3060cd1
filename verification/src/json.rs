//! Compact JSON text: string literals, arrays, and the payloads that can be
//! written as JSON.

use vstd::prelude::*;
use vstd::string::*;

verus! {

#[verifier::external_type_specification]
#[verifier::external_body]
pub struct ExJsonError(serde_json::Error);

/// The JSON string literal that `serde_json` writes for `text`: the text
/// between double quotes, with the characters that JSON reserves escaped.
pub uninterp spec fn json_string(text: Seq<char>) -> Seq<char>;

/// `serde_json::to_string` on a string slice. Trusted: the call succeeds
/// and gives the string literal of `text`. `serde_json` documents two
/// causes of an error, a `Serialize` impl that fails and a map whose keys
/// are no strings; a `str` has neither, and writing into memory reports no
/// I/O error.
#[verifier::external_body]
fn quote(text: &str) -> (written: Result<String, serde_json::Error>)
    ensures
        match written {
            Ok(literal) => literal@ == json_string(text@),
            Err(_) => false,
        },
{
    serde_json::to_string(text)
}

/// A value with a JSON form.
pub trait JsonPayload {
    /// The JSON text of the value.
    spec fn json(&self) -> Seq<char>;

    /// Writes the value as JSON.
    fn to_json(&self) -> (text: String)
        ensures
            text@ == self.json(),
    ;
}

/// Writes `text` as a JSON string literal.
pub fn string_literal(text: &str) -> (literal: String)
    ensures
        literal@ == json_string(text@),
{
    match quote(text) {
        Ok(literal) => literal,
        Err(_) => vstd::pervasive::unreached(),
    }
}

/// The items in order, with a comma between neighbours.
pub open spec fn separated(items: Seq<Seq<char>>) -> Seq<char>
    decreases items.len(),
{
    if items.len() == 0 {
        Seq::empty()
    } else if items.len() == 1 {
        items[0]
    } else {
        separated(items.drop_last()) + ","@ + items.last()
    }
}

/// The JSON array whose elements are the texts `items`.
pub open spec fn array_text(items: Seq<Seq<char>>) -> Seq<char> {
    "["@ + separated(items) + "]"@
}

/// Frames already written elements as a JSON array.
pub fn array(items: &Vec<String>) -> (text: String)
    ensures
        text@ == array_text(items.deep_view()),
{
    let ghost all = items.deep_view();
    let mut text = "[".to_owned();
    let mut i: usize = 0;
    while i < items.len()
        invariant
            i <= items.len(),
            all == items.deep_view(),
            text@ == "["@ + separated(all.take(i as int)),
        decreases items.len() - i,
    {
        proof {
            let before = all.take(i as int);
            let after = all.take(i + 1);
            assert(after.drop_last() == before);
            assert(after.last() == items[i as int]@);
            if i == 0 {
                assert(before.len() == 0);
            } else {
                assert(after.len() > 1);
            }
        }
        if i > 0 {
            text.append(",");
        }
        text.append(items[i].as_str());
        i += 1;
    }
    assert(all.take(i as int) == all);
    text.append("]");
    text
}

/// A vector of values is written as the array of their JSON texts.
impl<T: JsonPayload> JsonPayload for Vec<T> {
    /// The array of the elements' texts, in order.
    open spec fn json(&self) -> Seq<char> {
        array_text(Seq::new(self@.len(), |i: int| self@[i].json()))
    }

    fn to_json(&self) -> (text: String)
        ensures
            text@ == self.json(),
    {
        let mut items: Vec<String> = Vec::new();
        let mut i: usize = 0;
        while i < self.len()
            invariant
                i <= self.len(),
                items.len() == i,
                forall|k: int| 0 <= k < i ==> (#[trigger] items[k])@ == self@[k].json(),
            decreases self.len() - i,
        {
            items.push(self[i].to_json());
            i += 1;
        }
        assert(items.deep_view() == Seq::new(self@.len(), |i: int| self@[i].json()));
        array(&items)
    }
}

} // verus!
