//! What is sent to the claim classifier and what comes back.

use vstd::prelude::*;
use vstd::string::StringExecFns;
use crate::text::{replace_char, replaced};

verus! {

/// A text to classify, with the domain it is judged in.
#[derive(Debug, Clone)]
pub struct GeminiRequest {
    pub text: String,
    pub domain: String,
}

/// The classifier's answer: a label and the references that support it.
#[derive(Debug, Clone)]
pub struct GeminiResponse {
    pub classification: String,
    pub evidence_refs: Vec<String>,
}

/// The instructions that open every prompt, up to the place of the domain.
pub const PROMPT_HEAD: &'static str =
    "You are a factuality and content classifier for social posts. Classify the following post into exactly one of: accurate, inaccurate, contested, neutral.\n\nRules:\n- If the post makes a factual claim and you can infer it is likely correct, output \"accurate\".\n- If it makes a factual claim that is likely false, output \"inaccurate\".\n- If it is a factual claim but contested/uncertain, output \"contested\".\n- If it is not a factual claim, output \"neutral\".\nReturn a single-line JSON: {\"classification\":\"...\", \"evidenceRefs\":[\"url\", ...]}. Provide 0-2 reputable URLs when available; otherwise an empty list.\n\nPost (domain=";

/// What stands between the domain and the quoted text.
pub const PROMPT_MID: &'static str = "):\n\"";

/// What closes the quoted text.
pub const PROMPT_TAIL: &'static str = "\"";

/// The prompt for a request: the instructions, the domain, and the text in
/// double quotes, with each double quote inside the text turned into a
/// single one.
pub open spec fn prompt_of(text: Seq<char>, domain: Seq<char>) -> Seq<char> {
    PROMPT_HEAD@ + domain + PROMPT_MID@ + replaced(text, '"', "'"@) + PROMPT_TAIL@
}

impl GeminiRequest {
    /// Writes the prompt that puts the request to the classifier.
    pub fn prompt(&self) -> (prompt: String)
        ensures
            prompt@ == prompt_of(self.text@, self.domain@),
    {
        let safe_text = replace_char(self.text.as_str(), '"', "'");
        String::from_str(PROMPT_HEAD).concat(self.domain.as_str()).concat(PROMPT_MID).concat(
            safe_text.as_str(),
        ).concat(PROMPT_TAIL)
    }
}

/// The four things a classifier can say of a text.
#[derive(Clone, Copy, Debug, PartialEq, Eq, Structural)]
pub enum Verdict {
    Accurate,
    Inaccurate,
    Contested,
    Neutral,
}

/// The verdict that a label stands for. Any label other than the three
/// that carry evidence is neutral.
pub open spec fn verdict_of(label: Seq<char>) -> Verdict {
    if label == "accurate"@ {
        Verdict::Accurate
    } else if label == "inaccurate"@ {
        Verdict::Inaccurate
    } else if label == "contested"@ {
        Verdict::Contested
    } else {
        Verdict::Neutral
    }
}

/// The views of the strings of a list, in order.
pub open spec fn texts_of(list: Seq<String>) -> Seq<Seq<char>> {
    list.map_values(|s: String| s@)
}

impl GeminiResponse {
    /// The answer that stands in for a classifier that failed: neutral,
    /// with no references.
    pub fn neutral() -> (r: Self)
        ensures
            r.classification@ == "neutral"@,
            r.evidence_refs@.len() == 0,
            verdict_of(r.classification@) == Verdict::Neutral,
    {
        proof {
            reveal_strlit("neutral");
            reveal_strlit("accurate");
            reveal_strlit("inaccurate");
            reveal_strlit("contested");
            assert("neutral"@.len() == 7);
            assert("accurate"@.len() == 8);
            assert("inaccurate"@.len() == 10);
            assert("contested"@.len() == 9);
        }
        GeminiResponse { classification: String::from_str("neutral"), evidence_refs: Vec::new() }
    }

    /// Reads the label.
    pub fn verdict(&self) -> (v: Verdict)
        ensures
            v == verdict_of(self.classification@),
    {
        if self.classification == String::from_str("accurate") {
            Verdict::Accurate
        } else if self.classification == String::from_str("inaccurate") {
            Verdict::Inaccurate
        } else if self.classification == String::from_str("contested") {
            Verdict::Contested
        } else {
            Verdict::Neutral
        }
    }
}

} // verus!
