//! The endpoint that describes the current user.

use vstd::prelude::*;
use crate::api::dto::user::UserResponse;
use crate::state::App;
use crate::text::same_text;

verus! {

/// The cookie at `i` is named `session_id`, and none before it is.
pub open spec fn first_session_cookie(cookies: Seq<(String, String)>, i: int) -> bool {
    &&& 0 <= i < cookies.len()
    &&& cookies[i].0@ == "session_id"@
    &&& forall|j: int| 0 <= j < i ==> (#[trigger] cookies[j]).0@ != "session_id"@
}

/// The value of the first cookie named `session_id` among `cookies`, which
/// are pairs of a name and a value. `None` if no cookie has that name.
pub fn extract_session_id(cookies: &Vec<(String, String)>) -> (found: Option<String>)
    ensures
        match found {
            Some(value) => exists|i: int|
                first_session_cookie(cookies@, i) && value == (#[trigger] cookies[i]).1,
            None => forall|j: int|
                0 <= j < cookies.len() ==> (#[trigger] cookies[j]).0@ != "session_id"@,
        },
{
    let mut i: usize = 0;
    while i < cookies.len()
        invariant
            i <= cookies.len(),
            forall|j: int| 0 <= j < i ==> (#[trigger] cookies[j]).0@ != "session_id"@,
        decreases cookies.len() - i,
    {
        if same_text(cookies[i].0.as_str(), "session_id") {
            assert(first_session_cookie(cookies@, i as int));
            return Some(cookies[i].1.clone());
        }
        i = i + 1;
    }
    None
}

/// The user that the cookie value `session_id` authenticates. No cookie
/// and a cookie that names no live session both give `None`: the request
/// is not authenticated.
pub fn me_handler(app: &App, session_id: Option<&str>) -> (me: Option<UserResponse>)
    ensures
        match me {
            Some(response) => session_id matches Some(id) && app.auth.store()@.lookup(id@)
                matches Some(user) && response.email@ == user.email && response.username@
                == user.username && response.role@ == user.role,
            None => session_id matches Some(id) ==> app.auth.store()@.lookup(id@) is None,
        },
{
    match session_id {
        Some(id) => match app.auth.sessions().get_user(id) {
            Some(user) => Some(UserResponse::from(&user)),
            None => None,
        },
        None => None,
    }
}

} // verus!
