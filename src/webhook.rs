use vstd::prelude::*;

verus! {

/// A webhook that plain text messages are posted to.
#[derive(Debug, Clone)]
pub struct Webhook {
    url: String,
}

impl Webhook {
    pub closed spec fn spec_url(&self) -> String {
        self.url
    }

    /// A webhook posting to `url`.
    pub fn new(url: String) -> (r: Self)
        ensures
            r.spec_url() == url,
    {
        Webhook { url }
    }

    /// Where messages are posted.
    pub fn url(&self) -> (r: &String)
        ensures
            *r == self.spec_url(),
    {
        &self.url
    }
}

} // verus!
