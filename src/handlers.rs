use vstd::prelude::*;

use crate::errors::{AppError, STATUS_OK};
use crate::models::Status;

verus! {

/// The liveness probe: status 200 and `{ "status": "UP" }`. It reads no state,
/// so the store's availability cannot change it.
pub fn status() -> (r: (u16, Status))
    ensures
        r.0 == STATUS_OK,
        r.1.status@ == "UP"@,
{
    proof {
        reveal_strlit("UP");
    }
    (STATUS_OK, Status { status: "UP".to_owned() })
}

/// The HTTP status an endpoint answers with: 200 on success, else the
/// error's own status.
pub fn reply_status<T>(outcome: &Result<T, AppError>) -> (r: u16)
    ensures
        r == match outcome {
            Ok(_) => STATUS_OK,
            Err(e) => e@.status_code(),
        },
{
    match outcome {
        Ok(_) => STATUS_OK,
        Err(e) => e.status_code(),
    }
}

} // verus!
