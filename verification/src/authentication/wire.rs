//! How the values of `authentication` are written as JSON and read from it.
use crate::authentication::ValidateResponse;
use crate::json::{
    entry, field_or, group_member_lookup, members_view, no_members, put, read_or, FromJson, Json,
    JsonValue, RoundTrip, ToJson,
};
use vstd::prelude::*;

verus! {

impl FromJson for ValidateResponse {
    open spec fn decoded(value: Json) -> Option<ValidateResponse> {
        match value {
            Json::Object(members) => {
                let valid = field_or::<bool>(members, "valid"@, false);
                if valid is Some {
                    Some(
                        ValidateResponse {
                            valid: valid->0,
                        },
                    )
                } else {
                    None
                }
            },
            _ => None,
        }
    }

    fn from_json(value: &JsonValue) -> (r: Option<ValidateResponse>) {
        match value {
            JsonValue::Object(members) => {
                let valid = read_or::<bool>(members, "valid", false)?;
                Some(ValidateResponse { valid })
            },
            _ => None,
        }
    }
}

impl ToJson for ValidateResponse {
    open spec fn encoded(model: ValidateResponse) -> Json {
        Json::Object(entry::<bool>("valid"@, model.valid))
    }

    fn to_json(&self) -> (r: JsonValue) {
        let mut members = no_members();
        put::<bool>(&mut members, "valid", &self.valid);
        proof {
            assert(members_view(members@) =~= Self::encoded(self@)->Object_0);
        }
        JsonValue::Object(members)
    }
}

impl RoundTrip for ValidateResponse {
    proof fn lemma_round_trip(model: ValidateResponse) {
        let members = Self::encoded(model)->Object_0;
        assert(field_or::<bool>(members, "valid"@, false) == Some(model.valid)) by {
            broadcast use group_member_lookup;
        }
    }
}

} // verus!
