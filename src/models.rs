//! Content records served next to the user data: blog posts and resource
//! texts in several languages.

use vstd::prelude::*;
use crate::text::str_eq;

verus! {

/// Why content could not be built.
#[derive(Debug, Clone, PartialEq, Eq)]
pub enum ApiError {
    /// The input could not be read.
    Parse(String),
}

/// The summary of a blog post, as listed.
#[derive(Debug)]
pub struct BlogPostSummary {
    pub title: String,
    pub summary: String,
    pub tags: Vec<String>,
    pub image: Option<String>,
}

impl BlogPostSummary {
    /// A summary without an image.
    pub fn new(title: String, summary: String, tags: Vec<String>) -> (r: BlogPostSummary)
        ensures
            r.title == title,
            r.summary == summary,
            r.tags == tags,
            r.image is None,
    {
        BlogPostSummary { title, summary, tags, image: None }
    }
}

/// A full blog post.
#[derive(Debug)]
pub struct BlogPost {
    pub title: String,
    pub content: String,
    pub tags: Vec<String>,
    pub image: Option<String>,
}

/// A resource text under a key, in English and Polish.
#[derive(Debug)]
pub struct ResourceData {
    pub key: String,
    pub en: Option<String>,
    pub pl: Option<String>,
}

impl ResourceData {
    /// A resource with its text in one language, `"en"` or `"pl"`; any other
    /// language is refused.
    pub fn new_from_lang(key: String, lang: &str, value: String) -> (r: Result<ResourceData, ApiError>)
        ensures
            lang@ == "en"@ ==> r is Ok && r->Ok_0.key == key && r->Ok_0.en == Some(value) && r->Ok_0.pl is None,
            lang@ == "pl"@ ==> r is Ok && r->Ok_0.key == key && r->Ok_0.pl == Some(value) && r->Ok_0.en is None,
            lang@ != "en"@ && lang@ != "pl"@ ==> r is Err && r->Err_0 is Parse,
    {
        proof {
            reveal_strlit("en");
            reveal_strlit("pl");
            assert("en"@[0] != "pl"@[0]);
        }
        if str_eq(lang, "en") {
            Ok(ResourceData { key, en: Some(value), pl: None })
        } else if str_eq(lang, "pl") {
            Ok(ResourceData { key, en: None, pl: Some(value) })
        } else {
            Err(ApiError::Parse(String::from_str("Invalid language")))
        }
    }
}

} // verus!
