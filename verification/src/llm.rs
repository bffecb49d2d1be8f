//! The rules of the exchange with the text-completion service: where it is
//! reached, what is asked of it and what is taken from its answer.

use vstd::prelude::*;
use vstd::string::*;

verus! {

/// Seconds after which a request to the service is given up.
pub const REQUEST_TIMEOUT_SECS: u64 = 300;

/// The most tokens that one completion may hold.
pub const MAX_TOKENS: u32 = 4096;

/// Why no completion was had.
#[derive(Debug)]
pub enum LlmError {
    /// The service answered with a status that is no success; the status
    /// and the body of the answer.
    RequestFailed(String, String),
    /// The answer held no choice.
    NoChoices,
}

/// Mathematical model of an [`LlmError`].
pub enum LlmErrorView {
    RequestFailed(Seq<char>, Seq<char>),
    NoChoices,
}

impl View for LlmError {
    type V = LlmErrorView;

    open spec fn view(&self) -> LlmErrorView {
        match *self {
            LlmError::RequestFailed(status, body) => LlmErrorView::RequestFailed(status@, body@),
            LlmError::NoChoices => LlmErrorView::NoChoices,
        }
    }
}

impl LlmError {
    /// The message a user is shown for this error.
    pub fn message(&self) -> (s: String)
        ensures
            s@ == match self@ {
                LlmErrorView::RequestFailed(status, body) => "LLM request failed: "@ + status
                    + " - "@ + body,
                LlmErrorView::NoChoices => "No choices in LLM response"@,
            },
    {
        match self {
            LlmError::RequestFailed(status, body) => {
                let mut s = String::from_str("LLM request failed: ");
                s.append(status.as_str());
                s.append(" - ");
                s.append(body.as_str());
                s
            },
            LlmError::NoChoices => String::from_str("No choices in LLM response"),
        }
    }
}

/// The completion that an answer stands for: the content of its first
/// choice.
pub fn first_choice(choices: &Vec<String>) -> (r: Result<String, LlmError>)
    ensures
        choices@.len() == 0 ==> r matches Err(LlmError::NoChoices),
        choices@.len() > 0 ==> (r matches Ok(content) && content@ == choices@[0]@),
{
    if choices.len() == 0 {
        Err(LlmError::NoChoices)
    } else {
        Ok(choices[0].clone())
    }
}

/// Whether `s` ends with `suffix`.
pub open spec fn ends_with(s: Seq<char>, suffix: Seq<char>) -> bool {
    s.len() >= suffix.len() && s.subrange(s.len() - suffix.len(), s.len() as int) == suffix
}

/// `s` without the copies of `suffix` that it ends with, however many.
pub open spec fn trim_end(s: Seq<char>, suffix: Seq<char>) -> Seq<char>
    decreases s.len(),
{
    if suffix.len() > 0 && ends_with(s, suffix) {
        trim_end(s.subrange(0, s.len() - suffix.len()), suffix)
    } else {
        s
    }
}

/// Removes from the end of `s` every copy of `suffix`.
pub fn trim_end_matches(s: &str, suffix: &str) -> (r: String)
    ensures
        r@ == trim_end(s@, suffix@),
{
    let m = suffix.unicode_len();
    if m == 0 {
        return String::from_str(s);
    }
    let pattern = String::from_str(suffix);
    let mut len = s.unicode_len();
    let mut more = len >= m;
    proof {
        assert(s@.subrange(0, len as int) =~= s@);
    }
    while more
        invariant
            0 < m == suffix@.len(),
            len <= s@.len(),
            pattern@ == suffix@,
            more ==> len >= m,
            !more ==> !ends_with(s@.subrange(0, len as int), suffix@),
            trim_end(s@, suffix@) == trim_end(s@.subrange(0, len as int), suffix@),
        decreases len, (if more { 1int } else { 0int }),
    {
        let tail = String::from_str(s.substring_char(len - m, len));
        let ghost cur = s@.subrange(0, len as int);
        proof {
            assert(cur.subrange(cur.len() - m, cur.len() as int) =~= s@.subrange(len - m, len as int));
            assert(cur.subrange(0, cur.len() - m) =~= s@.subrange(0, len - m));
        }
        if tail == pattern {
            len = len - m;
            more = len >= m;
        } else {
            more = false;
        }
    }
    String::from_str(s.substring_char(0, len))
}

/// The address under which the service lists its models: that of the
/// chat completions with the path of the completions taken off its end.
pub open spec fn models_address(base_url: Seq<char>) -> Seq<char> {
    trim_end(base_url, "/v1/chat/completions"@) + "/models"@
}

/// The address that is asked whether the service is there.
pub fn models_url(base_url: &str) -> (r: String)
    ensures
        r@ == models_address(base_url@),
{
    let mut r = trim_end_matches(base_url, "/v1/chat/completions");
    r.append("/models");
    r
}

} // verus!
