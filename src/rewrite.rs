//! The computing side of the rewriting service's client: whether a request
//! can be made, how it is framed and bounded, how failures are worded, and
//! which part of the answer becomes the rewritten text.
use vstd::prelude::*;
use crate::chars::{append_str, from_chars, to_chars};
use crate::text::{stripped, strip_preambles, trim, trim_chars};

verus! {

/// Message when no API key is configured.
pub const NO_API_KEY_MESSAGE: &'static str =
    "No API key configured. Please add your OpenRouter API key in settings.";

/// Upper bound on tokens requested for a rewrite.
pub const MAX_REWRITE_TOKENS: usize = 4000;

/// Rules placed before the user's rewriting instructions.
pub const PROMPT_HEAD: &'static str =
    "You are a transcription rewriter. Your ONLY job is to rewrite the transcribed speech provided to you.\n\nCRITICAL RULES:\n1. Output ONLY the rewritten transcription\n2. DO NOT add any preambles, introductions, or explanations\n3. DO NOT add phrases like \"Here's the rewritten version:\" or \"Here is:\"\n4. DO NOT ask questions or seek clarification\n5. If the transcription is unclear, do your best to improve it anyway\n6. Output should START with the first word of the rewritten content\n7. Output should END with the last word of the rewritten content\n\n<rewriting_instructions>\n";

/// Closing part of the system prompt.
pub const PROMPT_TAIL: &'static str =
    "\n</rewriting_instructions>\n\nNow rewrite the transcription found in the <transcription> tags below. Remember: output ONLY the rewritten text, nothing else.";

/// The configured key, if it is present and non-empty; otherwise the
/// message asking for one.
pub fn api_key_to_use(api_key: &Option<String>) -> (r: Result<String, String>)
    ensures
        match api_key {
            Some(k) if k@.len() > 0 => r matches Ok(u) && u@ == k@,
            _ => r matches Err(e) && e@ == NO_API_KEY_MESSAGE@,
        },
{
    match api_key {
        Some(k) => if !k.as_str().is_empty() {
            Ok(k.clone())
        } else {
            Err(from_chars(to_chars(NO_API_KEY_MESSAGE).as_slice()))
        },
        None => Err(from_chars(to_chars(NO_API_KEY_MESSAGE).as_slice())),
    }
}

/// Tokens to allow for rewriting a text of `text_bytes` bytes: twice its
/// length and a hundred more, at most `MAX_REWRITE_TOKENS`.
pub fn max_tokens_for(text_bytes: usize) -> (r: usize)
    ensures
        r == (if 2 * text_bytes + 100 < MAX_REWRITE_TOKENS {
            2 * text_bytes + 100
        } else {
            MAX_REWRITE_TOKENS as int
        }),
{
    if text_bytes < 1950 {
        text_bytes * 2 + 100
    } else {
        MAX_REWRITE_TOKENS
    }
}

/// The system prompt around the user's rewriting instructions.
pub fn system_prompt(custom_instructions: &str) -> (r: String)
    ensures
        r@ == PROMPT_HEAD@ + custom_instructions@ + PROMPT_TAIL@,
{
    let mut out: Vec<char> = Vec::new();
    append_str(&mut out, PROMPT_HEAD);
    append_str(&mut out, custom_instructions);
    append_str(&mut out, PROMPT_TAIL);
    from_chars(out.as_slice())
}

/// The transcript wrapped in `<transcription>` tags.
pub fn user_message(original_text: &str) -> (r: String)
    ensures
        r@ == "<transcription>\n"@ + original_text@ + "\n</transcription>"@,
{
    let mut out: Vec<char> = Vec::new();
    append_str(&mut out, "<transcription>\n");
    append_str(&mut out, original_text);
    append_str(&mut out, "\n</transcription>");
    from_chars(out.as_slice())
}

/// The message shown for an HTTP error status, for the statuses that have
/// one of their own.
pub open spec fn status_text(code: u16, model: Seq<char>) -> Option<Seq<char>> {
    if code == 401 {
        Some("Invalid API key. Please check your OpenRouter API key in settings."@)
    } else if code == 402 {
        Some("Insufficient credits. Please add credits to your OpenRouter account."@)
    } else if code == 403 {
        Some("Access forbidden. Please check your API key permissions."@)
    } else if code == 404 {
        Some("Model '"@ + model + "' not found. Please select a valid model in settings."@)
    } else if code == 429 {
        Some("Rate limit exceeded. Please try again in a moment."@)
    } else if 500 <= code <= 599 {
        Some("OpenRouter server error. Please try again later."@)
    } else {
        None
    }
}

fn owned(s: &str) -> (r: String)
    ensures
        r@ == s@,
{
    from_chars(to_chars(s).as_slice())
}

/// The user-facing message for an error status (see `status_text`); `None`
/// for the others, which are reported with the status itself.
pub fn status_message(code: u16, model: &str) -> (r: Option<String>)
    ensures
        match status_text(code, model@) {
            Some(t) => r matches Some(m) && m@ == t,
            None => r is None,
        },
{
    if code == 401 {
        Some(owned("Invalid API key. Please check your OpenRouter API key in settings."))
    } else if code == 402 {
        Some(owned("Insufficient credits. Please add credits to your OpenRouter account."))
    } else if code == 403 {
        Some(owned("Access forbidden. Please check your API key permissions."))
    } else if code == 404 {
        let mut out: Vec<char> = Vec::new();
        append_str(&mut out, "Model '");
        append_str(&mut out, model);
        append_str(&mut out, "' not found. Please select a valid model in settings.");
        Some(from_chars(out.as_slice()))
    } else if code == 429 {
        Some(owned("Rate limit exceeded. Please try again in a moment."))
    } else if 500 <= code && code <= 599 {
        Some(owned("OpenRouter server error. Please try again later."))
    } else {
        None
    }
}

/// The part of an answer that holds the rewrite: the trimmed content, or,
/// when that is empty, the trimmed reasoning if there is any.
pub open spec fn answer_text(content: Seq<char>, reasoning: Option<Seq<char>>) -> Seq<char> {
    if trim(content).len() > 0 {
        trim(content)
    } else {
        match reasoning {
            Some(x) => trim(x),
            None => trim(content),
        }
    }
}

/// The rewritten text from an answer's content and reasoning, with any
/// preamble removed.
pub fn rewritten_text(content: &str, reasoning: Option<&str>) -> (r: String)
    ensures
        r@ == stripped(answer_text(content@, match reasoning {
            Some(x) => Some(x@),
            None => None,
        })),
{
    let c = trim_chars(&to_chars(content));
    let picked = if c.len() > 0 {
        c
    } else {
        match reasoning {
            Some(x) => trim_chars(&to_chars(x)),
            None => c,
        }
    };
    let s = from_chars(picked.as_slice());
    strip_preambles(s.as_str())
}

} // verus!
