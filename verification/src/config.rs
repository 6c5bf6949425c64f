//! Configuration: the accounts of the program, read from a text in which
//! `${NAME}` and `${NAME|default}` stand for variables of the environment.

use crate::text::{chars_of, push_char, text_of};
use vstd::prelude::*;

verus! {

/// Why the configuration could not be loaded.
#[derive(Debug)]
pub enum ConfigError {
    /// The file could not be read; the payload is the report.
    Io(String),
    /// The text is not the configuration that was asked for.
    Yaml(String),
    /// The pattern for placeholders could not be prepared.
    RegexError(String),
    /// A variable of the environment could not be read.
    EnvVar(String),
}

impl ConfigError {
    /// The text that describes this error.
    pub open spec fn message(&self) -> Seq<char> {
        match self {
            ConfigError::Io(report) => "IO error: "@ + report@,
            ConfigError::Yaml(report) => "YAML parsing error: "@ + report@,
            ConfigError::RegexError(report) => "Regex error: "@ + report@,
            ConfigError::EnvVar(report) => "Environment variable error: "@ + report@,
        }
    }

    pub fn to_string(&self) -> (text: String)
        ensures
            text@ == self.message(),
    {
        match self {
            ConfigError::Io(report) => String::from_str("IO error: ").concat(report.as_str()),
            ConfigError::Yaml(report) => {
                String::from_str("YAML parsing error: ").concat(report.as_str())
            },
            ConfigError::RegexError(report) => {
                String::from_str("Regex error: ").concat(report.as_str())
            },
            ConfigError::EnvVar(report) => {
                String::from_str("Environment variable error: ").concat(report.as_str())
            },
        }
    }
}

/// The account on X.
#[derive(Debug)]
pub struct XConfig {
    /// The cookie text that signs the program in.
    pub cookie: String,
}

impl Clone for XConfig {
    fn clone(&self) -> (copy: Self)
        ensures
            copy == *self,
    {
        XConfig { cookie: self.cookie.clone() }
    }
}

/// The account on Bluesky.
#[derive(Debug)]
pub struct BlueskyConfig {
    /// The name of the account.
    pub identifier: String,
    pub password: String,
}

impl Clone for BlueskyConfig {
    fn clone(&self) -> (copy: Self)
        ensures
            copy == *self,
    {
        BlueskyConfig { identifier: self.identifier.clone(), password: self.password.clone() }
    }
}

/// The configuration of the program.
#[derive(Debug)]
pub struct Config {
    pub x: XConfig,
    pub bluesky: BlueskyConfig,
}

impl Clone for Config {
    fn clone(&self) -> (copy: Self)
        ensures
            copy == *self,
    {
        Config { x: self.x.clone(), bluesky: self.bluesky.clone() }
    }
}

/// An environment by what it holds: names and values, in order.
pub open spec fn env_view(env: Seq<(String, String)>) -> Seq<(Seq<char>, Seq<char>)> {
    env.map_values(|entry: (String, String)| (entry.0@, entry.1@))
}

/// The value of a variable: that of the first entry of that name.
pub open spec fn lookup(env: Seq<(Seq<char>, Seq<char>)>, name: Seq<char>) -> Option<Seq<char>>
    decreases env.len(),
{
    if env.len() == 0 {
        None
    } else if env[0].0 == name {
        Some(env[0].1)
    } else {
        lookup(env.drop_first(), name)
    }
}

/// The index of the first `c` at or behind `from`, or the length of the text
/// where there is none.
pub open spec fn first_at(text: Seq<char>, c: char, from: int) -> int
    decreases text.len() - from,
{
    if from >= text.len() {
        text.len() as int
    } else if text[from] == c {
        from
    } else {
        first_at(text, c, from + 1)
    }
}

/// Where a placeholder begins at `at`, the index of the brace that closes
/// it. A placeholder is `${`, one or more characters other than `}`, and `}`.
pub open spec fn placeholder_end(content: Seq<char>, at: int) -> Option<int> {
    let close = first_at(content, '}', at + 2);
    if 0 <= at && at + 2 < close < content.len() && content[at] == '$' && content[at + 1]
        == '{' {
        Some(close)
    } else {
        None
    }
}

/// What stands for a placeholder with the given inside. `NAME|default` is
/// the value of `NAME`, or `default` where the environment has no `NAME`;
/// `NAME` alone is its value, or nothing where the environment has none.
pub open spec fn placeholder_value(inside: Seq<char>, env: Seq<(Seq<char>, Seq<char>)>) -> Seq<
    char,
> {
    let bar = first_at(inside, '|', 0);
    if bar < inside.len() {
        match lookup(env, inside.take(bar)) {
            Some(value) => value,
            None => inside.skip(bar + 1),
        }
    } else {
        match lookup(env, inside) {
            Some(value) => value,
            None => Seq::empty(),
        }
    }
}

/// The text from `at` on with every placeholder replaced, read from left to
/// right; what is no placeholder stays as it is.
pub open spec fn expand_from(content: Seq<char>, env: Seq<(Seq<char>, Seq<char>)>, at: int) -> Seq<
    char,
>
    decreases content.len() - at,
{
    if at < 0 || at >= content.len() {
        Seq::empty()
    } else {
        match placeholder_end(content, at) {
            Some(close) => placeholder_value(content.subrange(at + 2, close), env) + expand_from(
                content,
                env,
                close + 1,
            ),
            None => seq![content[at]] + expand_from(content, env, at + 1),
        }
    }
}

/// The text with every placeholder replaced.
pub open spec fn expand(content: Seq<char>, env: Seq<(Seq<char>, Seq<char>)>) -> Seq<char> {
    expand_from(content, env, 0)
}

/// Finds the first `c` at or behind `from`.
fn find_char(text: &Vec<char>, c: char, from: usize) -> (at: usize)
    ensures
        at == first_at(text@, c, from as int),
        at <= text.len(),
        from <= text.len() ==> from <= at,
    decreases text.len() - from,
{
    if from >= text.len() {
        text.len()
    } else if text[from] == c {
        from
    } else {
        find_char(text, c, from + 1)
    }
}

/// Looks a variable up in the environment.
pub fn lookup_var(env: &Vec<(String, String)>, name: &str) -> (value: Option<String>)
    ensures
        match value {
            Some(text) => lookup(env_view(env@), name@) == Some(text@),
            None => lookup(env_view(env@), name@).is_none(),
        },
{
    let ghost all = env_view(env@);
    let wanted = String::from_str(name);
    let mut i: usize = 0;
    assert(all.skip(0) =~= all);
    while i < env.len()
        invariant
            i <= env.len(),
            all == env_view(env@),
            wanted@ == name@,
            lookup(all, name@) == lookup(all.skip(i as int), name@),
        decreases env.len() - i,
    {
        let ghost rest = all.skip(i as int);
        assert(rest.len() > 0);
        assert(rest[0] == (env@[i as int].0@, env@[i as int].1@));
        assert(rest.drop_first() =~= all.skip(i + 1));
        if env[i].0 == wanted {
            let value = env[i].1.clone();
            assert(lookup(rest, name@) == Some(value@));
            return Some(value);
        }
        i += 1;
    }
    None
}

/// Replaces every placeholder of `content` by what the environment gives
/// for it. Never fails.
pub fn expand_env_vars(content: &str, env: &Vec<(String, String)>) -> (expanded: Result<
    String,
    ConfigError,
>)
    ensures
        expanded is Ok,
        expanded->Ok_0@ == expand(content@, env_view(env@)),
{
    let chars = chars_of(content);
    let ghost e = env_view(env@);
    let mut text = String::new();
    let mut at: usize = 0;
    while at < chars.len()
        invariant
            at <= chars.len(),
            chars@ == content@,
            e == env_view(env@),
            text@ + expand_from(chars@, e, at as int) == expand(chars@, e),
        decreases chars.len() - at,
    {
        let ghost before = text@;
        let mut replaced = false;
        if chars[at] == '$' && chars.len() - at > 2 && chars[at + 1] == '{' {
            let close = find_char(&chars, '}', at + 2);
            if at + 2 < close && close < chars.len() {
                let inside = text_of(&chars, at + 2, close);
                let value = placeholder(inside.as_str(), env);
                text.append(value.as_str());
                assert(text@ + expand_from(chars@, e, close + 1) =~= before + (value@
                    + expand_from(chars@, e, close + 1)));
                at = close + 1;
                replaced = true;
            }
        }
        if !replaced {
            assert(placeholder_end(chars@, at as int).is_none());
            push_char(&mut text, chars[at]);
            assert(text@ + expand_from(chars@, e, at + 1) =~= before + (seq![chars@[at as int]]
                + expand_from(chars@, e, at + 1)));
            at += 1;
        }
    }
    assert(text@ + Seq::<char>::empty() =~= text@);
    Ok(text)
}

/// Whether a placeholder with the given inside names a variable that the
/// environment lacks and gives no default for it.
pub open spec fn placeholder_unset(inside: Seq<char>, env: Seq<(Seq<char>, Seq<char>)>) -> bool {
    first_at(inside, '|', 0) >= inside.len() && lookup(env, inside).is_none()
}

/// The names from `at` on that stand in a placeholder without a default and
/// that the environment lacks, in the order of the placeholders.
pub open spec fn unset_from(content: Seq<char>, env: Seq<(Seq<char>, Seq<char>)>, at: int) -> Seq<
    Seq<char>,
>
    decreases content.len() - at,
{
    if at < 0 || at >= content.len() {
        Seq::empty()
    } else {
        match placeholder_end(content, at) {
            Some(close) => {
                let inside = content.subrange(at + 2, close);
                if placeholder_unset(inside, env) {
                    seq![inside] + unset_from(content, env, close + 1)
                } else {
                    unset_from(content, env, close + 1)
                }
            },
            None => unset_from(content, env, at + 1),
        }
    }
}

/// The names of a list of texts.
pub open spec fn names_view(names: Seq<String>) -> Seq<Seq<char>> {
    names.map_values(|name: String| name@)
}

/// Lists the variables that `content` asks for without a default and that
/// the environment lacks: each stands for nothing in the expanded text.
pub fn unset_variables(content: &str, env: &Vec<(String, String)>) -> (names: Vec<String>)
    ensures
        names_view(names@) == unset_from(content@, env_view(env@), 0),
{
    let chars = chars_of(content);
    let ghost e = env_view(env@);
    let mut names: Vec<String> = Vec::new();
    let mut at: usize = 0;
    assert(names_view(names@) =~= Seq::<Seq<char>>::empty());
    while at < chars.len()
        invariant
            at <= chars.len(),
            chars@ == content@,
            e == env_view(env@),
            names_view(names@) + unset_from(chars@, e, at as int) == unset_from(chars@, e, 0),
        decreases chars.len() - at,
    {
        let ghost before = names@;
        let mut skipped = false;
        if chars[at] == '$' && chars.len() - at > 2 && chars[at + 1] == '{' {
            let close = find_char(&chars, '}', at + 2);
            if at + 2 < close && close < chars.len() {
                let inside = text_of(&chars, at + 2, close);
                let inner = chars_of(inside.as_str());
                let bar = find_char(&inner, '|', 0);
                let mut unset = false;
                if bar >= inner.len() {
                    unset = lookup_var(env, inside.as_str()).is_none();
                }
                assert(unset == placeholder_unset(inside@, e));
                if unset {
                    names.push(inside);
                    assert(names_view(names@) =~= names_view(before).push(inside@));
                    assert(names_view(names@) + unset_from(chars@, e, close + 1) =~= names_view(
                        before,
                    ) + (seq![inside@] + unset_from(chars@, e, close + 1)));
                }
                at = close + 1;
                skipped = true;
            }
        }
        if !skipped {
            assert(placeholder_end(chars@, at as int).is_none());
            at += 1;
        }
    }
    assert(names_view(names@) + Seq::<Seq<char>>::empty() =~= names_view(names@));
    names
}

/// Computes what stands for a placeholder with the given inside.
pub fn placeholder(inside: &str, env: &Vec<(String, String)>) -> (value: String)
    ensures
        value@ == placeholder_value(inside@, env_view(env@)),
{
    let chars = chars_of(inside);
    let bar = find_char(&chars, '|', 0);
    if bar < chars.len() {
        let name = text_of(&chars, 0, bar);
        assert(chars@.subrange(0, bar as int) =~= chars@.take(bar as int));
        match lookup_var(env, name.as_str()) {
            Some(value) => value,
            None => {
                assert(chars@.subrange(bar + 1, chars@.len() as int) =~= chars@.skip(bar + 1));
                text_of(&chars, bar + 1, chars.len())
            },
        }
    } else {
        match lookup_var(env, inside) {
            Some(value) => value,
            None => String::new(),
        }
    }
}

/// Loads a configuration from the text of its file: the placeholders are
/// replaced from the environment, and `parse` reads the result. What `parse`
/// rejects comes back as [`ConfigError::Yaml`] with its report.
pub fn load_config<T, F: Fn(&str) -> Result<T, String>>(
    content: &str,
    env: &Vec<(String, String)>,
    parse: F,
) -> (loaded: Result<T, ConfigError>)
    requires
        forall|text: &str| parse.requires((text,)),
    ensures
        exists|text: &str, parsed: Result<T, String>|
            {
                &&& text@ == expand(content@, env_view(env@))
                &&& #[trigger] parse.ensures((text,), parsed)
                &&& match parsed {
                    Ok(value) => loaded == Ok::<T, ConfigError>(value),
                    Err(report) => loaded == Err::<T, ConfigError>(ConfigError::Yaml(report)),
                }
            },
{
    match expand_env_vars(content, env) {
        Ok(expanded) => {
            match parse(expanded.as_str()) {
                Ok(value) => Ok(value),
                Err(report) => Err(ConfigError::Yaml(report)),
            }
        },
        Err(error) => Err(error),
    }
}

} // verus!
