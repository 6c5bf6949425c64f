//! The tools that read from X and post to Bluesky, as far as they compute:
//! how they are declared, how their arguments are read, and how what the
//! networks answer is handed to the turn.

use crate::json_schema::{
    create_object_schema, empty_entries, insert_entry, json_view, no_entries, object_schema,
    text_member, text_of_member, typed_schema, JsonSchema, JsonView,
};
use crate::text::{chars_of, text_of};
use crate::tools::{ToolError, ToolOutput, ToolOutputView};
use crate::toolset::{Param, ToolArgs, ToolsetArgs};
use vstd::prelude::*;

verus! {

/// The arguments of the tool that posts to Bluesky.
#[derive(Debug)]
pub struct PostTweetArgs {
    pub text: String,
}

impl Clone for PostTweetArgs {
    fn clone(&self) -> (copy: Self)
        ensures
            copy == *self,
    {
        PostTweetArgs { text: self.text.clone() }
    }
}

impl JsonSchema for PostTweetArgs {
    open spec fn schema() -> JsonView {
        object_schema(no_entries().insert("text"@, typed_schema("string"@)))
    }

    fn json_schema() -> (schema: serde_json::Value) {
        let mut properties = empty_entries();
        insert_entry(&mut properties, "text", String::json_schema());
        create_object_schema(properties)
    }
}

impl PostTweetArgs {
    /// Reads the arguments from a JSON value: an object whose member `text`
    /// is a string.
    pub fn from_json(value: &serde_json::Value) -> (args: Result<PostTweetArgs, ToolError>)
        ensures
            match text_member(json_view(*value), "text"@) {
                Some(text) => args matches Ok(read) && read.text@ == text,
                None => args matches Err(ToolError::WrongArguments(report)) && report@
                    == "missing field `text`"@,
            },
    {
        match text_of_member(value, "text") {
            Some(text) => Ok(PostTweetArgs { text }),
            None => Err(ToolError::WrongArguments(String::from_str("missing field `text`"))),
        }
    }
}

/// The arguments of the tool that reads from X.
#[derive(Debug)]
pub struct ReadTweetArgs {
    /// The address of the tweet.
    pub url: String,
}

impl ReadTweetArgs {
    /// Reads the arguments from a JSON value: an object whose member `url`
    /// is a string.
    pub fn from_json(value: &serde_json::Value) -> (args: Result<ReadTweetArgs, ToolError>)
        ensures
            match text_member(json_view(*value), "url"@) {
                Some(url) => args matches Ok(read) && read.url@ == url,
                None => args matches Err(ToolError::WrongArguments(report)) && report@
                    == "missing field `url`"@,
            },
    {
        match text_of_member(value, "url") {
            Some(url) => Ok(ReadTweetArgs { url }),
            None => Err(ToolError::WrongArguments(String::from_str("missing field `url`"))),
        }
    }
}

/// The declaration of the capability that posts to Bluesky.
pub fn bluesky_declaration() -> (declared: ToolsetArgs)
    ensures
        declared.name@ == "BskyToolset"@,
        declared.tools@.len() == 1,
        declared.tools@[0].name@ == "Post Tweet"@,
        declared.tools@[0].fn_name@ == Seq::<char>::empty(),
        declared.tools@[0].description@
            == "Post a tweet to Bluesky (bsky.app) given the content."@,
        declared.tools@[0].parameters() == PostTweetArgs::schema(),
{
    let tool = ToolArgs {
        name: String::from_str("Post Tweet"),
        fn_name: String::new(),
        description: String::from_str("Post a tweet to Bluesky (bsky.app) given the content."),
        params: Vec::new(),
        schema: Some(PostTweetArgs::json_schema()),
    };
    let mut tools: Vec<ToolArgs> = Vec::new();
    tools.push(tool);
    ToolsetArgs { name: String::from_str("BskyToolset"), description: String::new(), tools }
}

/// The declaration of the capability that reads from X.
pub fn x_declaration() -> (declared: ToolsetArgs)
    ensures
        declared.name@ == "X Tool"@,
        declared.tools@.len() == 1,
        declared.tools@[0].name@ == "read_tweet"@,
        declared.tools@[0].fn_name@ == Seq::<char>::empty(),
        declared.tools@[0].schema is None,
        declared.tools@[0].params@.len() == 1,
        declared.tools@[0].params@[0].name@ == "url"@,
        declared.tools@[0].params@[0].kind@ == "string"@,
        declared.tools@[0].params@[0].required,
{
    let description = "Read a tweet from X (x.com / twitter.com) given the URL.";
    let mut params: Vec<Param> = Vec::new();
    params.push(
        Param {
            name: String::from_str("url"),
            description: String::from_str("The URL of the tweet to read"),
            kind: String::from_str("string"),
            required: true,
        },
    );
    let tool = ToolArgs {
        name: String::from_str("read_tweet"),
        fn_name: String::new(),
        description: String::from_str(description),
        params,
        schema: None,
    };
    let mut tools: Vec<ToolArgs> = Vec::new();
    tools.push(tool);
    ToolsetArgs {
        name: String::from_str("X Tool"),
        description: String::from_str(description),
        tools,
    }
}

/// What stands behind the last `/` of a text; the whole text where it has
/// none.
pub open spec fn last_segment(text: Seq<char>) -> Seq<char>
    decreases text.len(),
{
    if text.len() == 0 {
        Seq::empty()
    } else if text.last() == '/' {
        Seq::empty()
    } else {
        last_segment(text.drop_last()).push(text.last())
    }
}

proof fn lemma_last_segment(text: Seq<char>, from: int)
    requires
        0 <= from <= text.len(),
        from == 0 || text[from - 1] == '/',
        forall|k: int| from <= k < text.len() ==> text[k] != '/',
    ensures
        last_segment(text) == text.subrange(from, text.len() as int),
    decreases text.len() - from,
{
    if from == text.len() {
        assert(text.subrange(from, text.len() as int) =~= Seq::<char>::empty());
    } else {
        let shorter = text.drop_last();
        assert(from == 0 || shorter[from - 1] == '/');
        lemma_last_segment(shorter, from);
        assert(text.subrange(from, text.len() as int) =~= shorter.subrange(
            from,
            shorter.len() as int,
        ).push(text.last()));
    }
}

/// Takes the identifier of a tweet from its address: what stands behind the
/// last `/`.
pub fn extract_tweet_id(url: &str) -> (id: Result<String, ToolError>)
    ensures
        id matches Ok(text) && text@ == last_segment(url@),
{
    let chars = chars_of(url);
    let mut from: usize = chars.len();
    while from > 0 && chars[from - 1] != '/'
        invariant
            from <= chars.len(),
            forall|k: int| from <= k < chars.len() ==> chars@[k] != '/',
        decreases from,
    {
        from -= 1;
    }
    proof {
        lemma_last_segment(chars@, from as int);
    }
    Ok(text_of(&chars, from, chars.len()))
}

/// What the tool that reads a tweet answers: the text of the tweet, or
/// nothing where the tweet has no text.
pub fn tweet_read(text: Option<String>) -> (output: ToolOutput)
    ensures
        output@ == ToolOutputView::Text(
            match text {
                Some(text) => text@,
                None => Seq::empty(),
            },
        ),
{
    match text {
        Some(text) => ToolOutput::Text(text),
        None => ToolOutput::Text(String::new()),
    }
}

/// How the tool that reads a tweet fails when X does not give the tweet.
pub fn tweet_not_read(report: &str) -> (error: ToolError)
    ensures
        error matches ToolError::Unknown(text) && text@ == "Failed to read tweet: "@ + report@,
{
    ToolError::Unknown(String::from_str("Failed to read tweet: ").concat(report))
}

/// What the tool that posts answers: where the post now stands.
pub fn tweet_posted(uri: &str) -> (output: ToolOutput)
    ensures
        output@ == ToolOutputView::Text("Tweet posted successfully: "@ + uri@),
{
    ToolOutput::Text(String::from_str("Tweet posted successfully: ").concat(uri))
}

/// How the tool that posts fails when Bluesky does not take the post.
pub fn tweet_not_posted(report: &str) -> (error: ToolError)
    ensures
        error matches ToolError::Unknown(text) && text@ == "Failed to post tweet: "@ + report@,
{
    ToolError::Unknown(String::from_str("Failed to post tweet: ").concat(report))
}

} // verus!
