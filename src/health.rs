use vstd::prelude::*;

verus! {

/// The reply of the health endpoint: an HTTP status and a JSON body.
#[derive(Clone, Debug)]
pub struct HealthReply {
    pub status: u16,
    pub body: String,
}

/// The body sent while the database answers.
pub open spec fn up_body() -> Seq<char> {
    "{\"status\":\"ok\",\"database\":\"up\"}"@
}

/// The body sent while the database does not answer.
pub open spec fn down_body() -> Seq<char> {
    "{{\"status\":\"error\",\"database\":\"down\",\"message\":\"Database connection failed\"}}"@
}

/// The health endpoint's reply, given whether the database answered a
/// trivial query: 200 when it did, 503 when it did not.
pub fn health_reply(database_up: bool) -> (r: HealthReply)
    ensures
        database_up ==> r.status == 200 && r.body@ == up_body(),
        !database_up ==> r.status == 503 && r.body@ == down_body(),
{
    if database_up {
        HealthReply { status: 200, body: String::from_str("{\"status\":\"ok\",\"database\":\"up\"}") }
    } else {
        HealthReply {
            status: 503,
            body: String::from_str(
                "{{\"status\":\"error\",\"database\":\"down\",\"message\":\"Database connection failed\"}}",
            ),
        }
    }
}

} // verus!
