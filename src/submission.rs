use vstd::prelude::*;

verus! {

/// HTTP status sent back for an accepted submission.
pub const STATUS_CREATED: u16 = 201;

/// A submitted text and e-mail address; either may be absent.
pub struct UserText {
    pub usertext: Option<String>,
    pub useremail: Option<String>,
}

/// The data part of a submission reply.
pub struct Data {
    pub id: i64,
}

/// The envelope of a submission reply.
pub struct Return {
    pub status: i64,
    pub msg: String,
    pub data: Data,
}

impl Return {
    /// The fixed success reply: status 0, message "save success", id 1.
    pub open spec fn is_saved(&self) -> bool {
        &&& self.status == 0
        &&& self.msg@ == "save success"@
        &&& self.data.id == 1
    }
}

/// The diagnostic line for an optional field: a fixed line when it is
/// absent, else `prefix` followed by its value.
pub open spec fn note_of(prefix: Seq<char>, field: Option<String>) -> Seq<char> {
    match field {
        None => "recieve empty text"@,
        Some(s) => prefix + s@,
    }
}

fn note(prefix: &str, field: &Option<String>) -> (r: String)
    ensures
        r@ == note_of(prefix@, *field),
{
    match field {
        None => String::from_str("recieve empty text"),
        Some(s) => String::from_str(prefix).concat(s.as_str()),
    }
}

impl UserText {
    /// The diagnostic line that tells whether a text was sent, and which.
    pub fn text_note(&self) -> (r: String)
        ensures
            r@ == note_of("the text is : "@, self.usertext),
    {
        note("the text is : ", &self.usertext)
    }

    /// The diagnostic line that tells whether an e-mail address was sent,
    /// and which.
    pub fn email_note(&self) -> (r: String)
        ensures
            r@ == note_of("the email is : "@, self.useremail),
    {
        note("the email is : ", &self.useremail)
    }
}

/// Answers a submission: nothing is stored, and whatever the fields hold,
/// present or absent, the reply is status 201 with the fixed success
/// envelope.
pub fn get_text(input: &UserText) -> (r: (u16, Return))
    ensures
        r.0 == 201,
        r.1.is_saved(),
{
    let return_text = Return { status: 0, msg: String::from_str("save success"), data: Data { id: 1 } };
    (STATUS_CREATED, return_text)
}

} // verus!
