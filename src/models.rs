//! Reading the list of model identifiers out of a provider's reply.
use vstd::prelude::*;
use vstd::string::StringExecFns;
use crate::chat::copy_text;
use crate::json::{
    error_text, json_array_member_strings, opt_text,
    parse_array_member_strings,
};

verus! {

/// The present texts of `s`, in order.
pub open spec fn present_texts(s: Seq<Option<Seq<char>>>) -> Seq<Seq<char>>
    decreases s.len(),
{
    if s.len() == 0 {
        Seq::empty()
    } else {
        let rest = present_texts(s.drop_last());
        match s.last() {
            Some(t) => rest.push(t),
            None => rest,
        }
    }
}

/// The identifiers listed in a model-listing reply `body`: the `id` of each
/// element of its `data` array that has a string `id`, in order. Fails with
/// the parse error's text when `body` is not JSON, and with "No models found"
/// when it has no `data` array.
pub fn model_ids(body: &str) -> (r: Result<Vec<String>, String>)
    ensures
        match json_array_member_strings(body@, "data"@, "id"@) {
            None => r is Err,
            Some(None) => r matches Err(m) && m@ == "No models found"@,
            Some(Some(items)) => r matches Ok(ids) && ids@.map_values(|s: String| s@)
                == present_texts(items),
        },
{
    match parse_array_member_strings(body, "data", "id") {
        Err(e) => Err(error_text(&e)),
        Ok(None) => Err(String::from_str("No models found")),
        Ok(Some(items)) => {
            let ghost texts = items@.map_values(|o: Option<String>| opt_text(o));
            let mut ids: Vec<String> = Vec::new();
            let mut i: usize = 0;
            while i < items.len()
                invariant
                    i <= items@.len(),
                    texts == items@.map_values(|o: Option<String>| opt_text(o)),
                    ids@.map_values(|s: String| s@) == present_texts(texts.take(i as int)),
                decreases items@.len() - i,
            {
                assert(texts.take(i as int + 1).drop_last() =~= texts.take(i as int));
                match &items[i] {
                    Some(t) => {
                        ids.push(copy_text(t));
                        assert(ids@.map_values(|s: String| s@) =~= present_texts(
                            texts.take(i as int),
                        ).push(t@));
                    },
                    None => {},
                }
                i = i + 1;
            }
            assert(texts.take(items@.len() as int) =~= texts);
            Ok(ids)
        },
    }
}

} // verus!
