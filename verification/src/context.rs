use vstd::prelude::*;

use crate::http_status::INTERNAL_SERVER_ERROR;
use crate::json::{Json, JsonValue};

verus! {

/// An error response that lists its errors as plain messages.
#[derive(Debug)]
pub struct JsonErrorStruct {
    pub status_code: u16,
    pub error_code: String,
    pub errors: Vec<String>,
}

/// The texts of a list of strings.
pub open spec fn texts(list: Seq<String>) -> Seq<Seq<char>> {
    list.map_values(|s: String| s@)
}

/// The JSON body: `error_code` and the `errors` array.
pub open spec fn plain_error_json(e: JsonErrorStruct) -> Json {
    Json::Object(
        seq![
            ("error_code"@, Json::Text(e.error_code@)),
            ("errors"@, Json::Array(e.errors@.map_values(|s: String| Json::Text(s@)))),
        ],
    )
}

impl JsonErrorStruct {
    pub fn new(status_code: u16, error_code: &str, errors: Vec<&str>) -> (r: Self)
        ensures
            r.status_code == status_code,
            r.error_code@ == error_code@,
            texts(r.errors@) == errors@.map_values(|s: &str| s@),
    {
        let mut out: Vec<String> = Vec::new();
        let mut i: usize = 0;
        while i < errors.len()
            invariant
                i <= errors.len(),
                out.len() == i,
                forall|k: int| 0 <= k < i ==> #[trigger] out[k]@ == errors[k]@,
            decreases errors.len() - i,
        {
            out.push(String::from_str(errors[i]));
            i = i + 1;
        }
        let r = JsonErrorStruct { status_code, error_code: String::from_str(error_code), errors: out };
        assert(texts(r.errors@) =~= errors@.map_values(|s: &str| s@));
        r
    }

    pub fn to_json(&self) -> (r: JsonValue)
        ensures
            r.model() == plain_error_json(*self),
    {
        let mut items: Vec<JsonValue> = Vec::new();
        let mut i: usize = 0;
        while i < self.errors.len()
            invariant
                i <= self.errors.len(),
                items.len() == i,
                forall|k: int| 0 <= k < i ==> #[trigger] items[k].model() == Json::Text(self.errors[k]@),
            decreases self.errors.len() - i,
        {
            let item = JsonValue::String(self.errors[i].clone());
            assert(item.model() == Json::Text(self.errors[i as int]@));
            items.push(item);
            i = i + 1;
        }
        let array = JsonValue::Array(items);
        assert(array.model()->Array_0 =~= self.errors@.map_values(|s: String| Json::Text(s@))) by {
            assert forall|k: int| 0 <= k < self.errors.len() implies #[trigger] array.model()->Array_0[k]
                == self.errors@.map_values(|s: String| Json::Text(s@))[k] by {
                assert(items[k].model() == Json::Text(self.errors[k]@));
            }
        }
        let code = JsonValue::String(self.error_code.clone());
        assert(code.model() == Json::Text(self.error_code@));
        let mut members: Vec<(String, JsonValue)> = Vec::new();
        members.push((String::from_str("error_code"), code));
        members.push((String::from_str("errors"), array));
        let r = JsonValue::Object(members);
        assert(r.model()->Object_0 =~= plain_error_json(*self)->Object_0);
        r
    }
}

/// The response given when the service panics while serving a request.
pub fn panic_response() -> (r: JsonErrorStruct)
    ensures
        r.status_code == INTERNAL_SERVER_ERROR,
        r.error_code@ == "internal_server_error"@,
        texts(r.errors@) == seq!["Service panicked"@],
{
    let mut errors: Vec<&str> = Vec::new();
    errors.push("Service panicked");
    let r = JsonErrorStruct::new(INTERNAL_SERVER_ERROR, "internal_server_error", errors);
    assert(texts(r.errors@) =~= seq!["Service panicked"@]);
    r
}

} // verus!
