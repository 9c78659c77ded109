use vstd::prelude::*;

verus! {

/// HTTP status for a request whose handling ran past the deadline.
pub const STATUS_REQUEST_TIMEOUT: u16 = 408;

/// HTTP status for a failure of the server's own machinery.
pub const STATUS_INTERNAL_SERVER_ERROR: u16 = 500;

/// The settings that the server runs with.
pub struct Config {
    /// The TCP port listened on, on all interfaces.
    pub port: u16,
    /// How long one request may take before it is answered with 408.
    pub timeout_seconds: u64,
    /// The directory that static files are served from.
    pub static_root: String,
}

impl Config {
    /// The standard settings: port 80, a 10 second deadline and the
    /// directory `./web_src`.
    pub fn new() -> (r: Config)
        ensures
            r.port == 80,
            r.timeout_seconds == 10,
            r.static_root@ == "./web_src"@,
    {
        Config { port: 80, timeout_seconds: 10, static_root: String::from_str("./web_src") }
    }

    /// The file served at `/`.
    pub fn index_file(&self) -> (r: String)
        ensures
            r@ == self.static_root@ + "/index.html"@,
    {
        self.static_root.clone().concat("/index.html")
    }

    /// The file served at `/suggestion`.
    pub fn suggestion_file(&self) -> (r: String)
        ensures
            r@ == self.static_root@ + "/suggestion.html"@,
    {
        self.static_root.clone().concat("/suggestion.html")
    }
}

/// A reply made from a failure: a status and a text body.
pub struct Reply {
    pub status: u16,
    pub body: String,
}

/// Turns a failure of a static file read into a reply: status 500, with the
/// failure's description in the body.
pub fn file_error(detail: &str) -> (r: Reply)
    ensures
        r.status == 500,
        r.body@ == "Unhandled internal error:"@ + detail@,
{
    Reply {
        status: STATUS_INTERNAL_SERVER_ERROR,
        body: String::from_str("Unhandled internal error:").concat(detail),
    }
}

/// Turns a failure that reached the request pipeline into a reply.
///
/// A request that ran past its deadline gets status 408 and no body; any
/// other failure gets status 500 with its description in the body.
pub fn pipeline_error(timed_out: bool, detail: &str) -> (r: Result<u16, Reply>)
    ensures
        timed_out <==> r is Ok,
        timed_out ==> r == Ok::<u16, Reply>(408),
        !timed_out ==> r->Err_0.status == 500
            && r->Err_0.body@ == "Unhandled internal error: "@ + detail@,
{
    if timed_out {
        Ok(STATUS_REQUEST_TIMEOUT)
    } else {
        Err(
            Reply {
                status: STATUS_INTERNAL_SERVER_ERROR,
                body: String::from_str("Unhandled internal error: ").concat(detail),
            },
        )
    }
}

} // verus!
