use vstd::prelude::*;
use vstd::string::StringExecFns;

verus! {

/// The body of a send-message request to the owner.
#[derive(Clone, Debug)]
pub struct SendMessageParameters {
    chat_id: i64,
    text: String,
    parse_mode: String,
}

impl SendMessageParameters {
    /// Parameters that send `text` to `chat_id`, formatted as markdown.
    pub fn new(chat_id: i64, text: String) -> (r: SendMessageParameters)
        ensures
            r.chat_id() == chat_id,
            r.text()@ == text@,
            r.parse_mode()@ == "markdown"@,
    {
        let mut parse_mode = String::new();
        parse_mode.append("markdown");
        SendMessageParameters { chat_id, text, parse_mode }
    }

    #[verifier::when_used_as_spec(spec_chat_id)]
    pub fn chat_id(&self) -> (r: i64)
        ensures
            r == self.spec_chat_id(),
    {
        self.chat_id
    }

    pub closed spec fn spec_chat_id(&self) -> i64 {
        self.chat_id
    }

    #[verifier::when_used_as_spec(spec_text)]
    pub fn text(&self) -> (r: &String)
        ensures
            r == self.spec_text(),
    {
        &self.text
    }

    pub closed spec fn spec_text(&self) -> &String {
        &self.text
    }

    #[verifier::when_used_as_spec(spec_parse_mode)]
    pub fn parse_mode(&self) -> (r: &String)
        ensures
            r == self.spec_parse_mode(),
    {
        &self.parse_mode
    }

    pub closed spec fn spec_parse_mode(&self) -> &String {
        &self.parse_mode
    }
}

/// The send-message endpoint of a bot API server.
pub open spec fn send_message_endpoint(api_base: Seq<char>, token: Seq<char>) -> Seq<char> {
    api_base + "/bot"@ + token + "/sendMessage"@
}

/// The address that notifications are posted to.
pub fn send_message_url(api_base: &str, token: &str) -> (r: String)
    ensures
        r@ == send_message_endpoint(api_base@, token@),
{
    let mut s = String::new();
    s.append(api_base);
    s.append("/bot");
    s.append(token);
    s.append("/sendMessage");
    assert(s@ =~= send_message_endpoint(api_base@, token@));
    s
}

} // verus!
