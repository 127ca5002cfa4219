use vstd::prelude::*;

verus! {

/// An error as the desktop client's command surface reports it.
#[derive(Debug)]
pub struct ApiError {
    pub code: i32,
    pub message: String,
}

impl ApiError {
    pub fn new(code: i32, message: &str) -> (r: ApiError)
        ensures
            r.code == code,
            r.message@ == message@,
    {
        ApiError { code, message: message.to_owned() }
    }

    pub fn invalid_credentials() -> (r: ApiError)
        ensures
            r.code == 401,
            r.message@ == "Invalid username or password"@,
    {
        ApiError::new(401, "Invalid username or password")
    }

    pub fn server_error(msg: &str) -> (r: ApiError)
        ensures
            r.code == 500,
            r.message@ == msg@,
    {
        ApiError::new(500, msg)
    }

    pub fn not_found(msg: &str) -> (r: ApiError)
        ensures
            r.code == 404,
            r.message@ == msg@,
    {
        ApiError::new(404, msg)
    }

    pub fn bad_request(msg: &str) -> (r: ApiError)
        ensures
            r.code == 400,
            r.message@ == msg@,
    {
        ApiError::new(400, msg)
    }
}

} // verus!
