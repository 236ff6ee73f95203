use vstd::prelude::*;
use vstd::string::*;

verus! {

/// The settings key under which the enabled list identifiers are stored.
pub const ENABLED_LISTS_KEY: &'static str = "remindersLists";

/// The items of the array stored under `key` in the JSON document `text`,
/// each as its text where it is a JSON string; `None` where `text` is no JSON
/// document or holds no array under `key`.
pub uninterp spec fn json_array_items(text: Seq<char>, key: Seq<char>) -> Option<
    Seq<Option<Seq<char>>>,
>;

/// Relies on serde_json::from_str into a `Value`, indexing it by `key`, and
/// `Value::as_array` / `Value::as_str`: the result depends on the text and
/// the key alone.
#[verifier::external_body]
fn array_items(text: &str, key: &str) -> (r: Option<Vec<Option<String>>>)
    ensures
        r.deep_view() == json_array_items(text@, key@),
{
    let document: serde_json::Value = serde_json::from_str(text).ok()?;
    document[key].as_array().map(
        |items| items.iter().map(|item| item.as_str().map(String::from)).collect(),
    )
}

/// The strings among `items`, in order.
pub open spec fn strings_among(items: Seq<Option<Seq<char>>>) -> Seq<Seq<char>>
    decreases items.len(),
{
    if items.len() == 0 {
        Seq::empty()
    } else {
        let prev = strings_among(items.drop_last());
        match items.last() {
            Some(s) => prev.push(s),
            None => prev,
        }
    }
}

/// The enabled selection that a stored array gives: its string items, or
/// nothing where no array is stored.
pub open spec fn selection_of(items: Option<Seq<Option<Seq<char>>>>) -> Option<Seq<Seq<char>>> {
    match items {
        Some(v) => Some(strings_among(v)),
        None => None,
    }
}

/// Keeps the string items of a stored array, in order; items of other JSON
/// kinds are skipped.
pub fn enabled_selection(items: Option<Vec<Option<String>>>) -> (r: Option<Vec<String>>)
    ensures
        r.deep_view() == selection_of(items.deep_view()),
{
    match items {
        None => None,
        Some(v) => {
            let mut r: Vec<String> = Vec::new();
            let mut i: usize = 0;
            while i < v.len()
                invariant
                    i <= v.len(),
                    r.deep_view() == strings_among(v.deep_view().subrange(0, i as int)),
                decreases v.len() - i,
            {
                proof {
                    assert(v.deep_view().subrange(0, i + 1).drop_last() =~= v.deep_view().subrange(
                        0,
                        i as int,
                    ));
                }
                match &v[i] {
                    Some(s) => {
                        r.push(s.clone());
                        proof {
                            assert(r.deep_view() =~= strings_among(
                                v.deep_view().subrange(0, i + 1),
                            ));
                        }
                    },
                    None => {},
                }
                i += 1;
            }
            proof {
                assert(v.deep_view().subrange(0, v.len() as int) =~= v.deep_view());
            }
            Some(r)
        },
    }
}

/// The enabled selection stored in a settings document, `None` where there
/// is no document or it stores no array of enabled lists.
pub fn read_enabled_selection(settings: Option<String>) -> (r: Option<Vec<String>>)
    ensures
        r.deep_view() == match settings {
            Some(text) => selection_of(json_array_items(text@, ENABLED_LISTS_KEY@)),
            None => None,
        },
{
    match settings {
        None => None,
        Some(text) => enabled_selection(array_items(text.as_str(), ENABLED_LISTS_KEY)),
    }
}

} // verus!
