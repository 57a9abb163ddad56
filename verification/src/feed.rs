//! Posts as the feed hands them over.

use vstd::prelude::*;

verus! {

/// Who wrote a post.
#[derive(Debug, Clone)]
pub struct Author {
    pub did: String,
}

/// The body of a post; the text may be missing.
#[derive(Debug, Clone)]
pub struct PostRecord {
    pub text: Option<String>,
}

/// One post of an author's feed.
#[derive(Debug, Clone)]
pub struct FeedPost {
    pub cid: String,
    pub uri: String,
    pub author: Author,
    pub record: Option<PostRecord>,
}

impl FeedPost {
    /// The text of the post; empty where the post has no record or the
    /// record has no text.
    pub open spec fn text_view(&self) -> Seq<char> {
        match self.record {
            Some(record) => match record.text {
                Some(text) => text@,
                None => Seq::empty(),
            },
            None => Seq::empty(),
        }
    }

    /// The text of the post, or the empty text where it has none.
    pub fn text(&self) -> (text: &str)
        ensures
            text@ == self.text_view(),
    {
        proof {
            reveal_strlit("");
        }
        match &self.record {
            Some(record) => match &record.text {
                Some(text) => text.as_str(),
                None => "",
            },
            None => "",
        }
    }
}

} // verus!
