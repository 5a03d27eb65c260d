//! A search engine: a URL template and the rule that normalises a term
//! before it goes into the template.
use vstd::prelude::*;

use crate::error::SearchError;
use crate::text::{
    compile, escape, escaped, literal_replaced, regex_compiles, regex_replaced,
    replace_expanding, replace_literally,
};

verus! {

/// One configured search provider.
#[derive(Debug)]
pub struct Engine {
    /// Identifier given once at creation, as the 128-bit value of a UUID.
    pub uuid: u128,
    /// Label the engine is looked up by.
    pub name: String,
    /// Template in which each occurrence of `pattern` receives the term.
    pub url_pattern: String,
    /// Placeholder, taken literally, inside `url_pattern`.
    pub pattern: String,
    /// Regular expression searched for in the term.
    pub regex: String,
    /// What each match of `regex` in the term becomes.
    pub replacement: String,
}

impl Clone for Engine {
    fn clone(&self) -> (r: Self)
        ensures
            r == *self,
    {
        Engine {
            uuid: self.uuid,
            name: self.name.clone(),
            url_pattern: self.url_pattern.clone(),
            pattern: self.pattern.clone(),
            regex: self.regex.clone(),
            replacement: self.replacement.clone(),
        }
    }
}

/// Relies on `uuid::Uuid::new_v4`: a random identifier, as its 128-bit value.
#[verifier::external_body]
fn fresh_uuid() -> (r: u128) {
    uuid::Uuid::new_v4().as_u128()
}

/// The term after normalisation: each match of the engine's regex replaced.
pub open spec fn treated(e: Engine, term: Seq<char>) -> Seq<char> {
    regex_replaced(e.regex@, term, e.replacement@)
}

/// The URL for an already treated term: the template with each literal
/// occurrence of the placeholder replaced by it.
pub open spec fn fill_spec(e: Engine, treated_term: Seq<char>) -> Result<Seq<char>, SearchError> {
    if regex_compiles(escaped(e.pattern@)) {
        Ok(literal_replaced(e.url_pattern@, e.pattern@, treated_term))
    } else {
        Err(SearchError::Pattern)
    }
}

/// The URL that an engine gives for a raw term.
pub open spec fn resolve(e: Engine, term: Seq<char>) -> Result<Seq<char>, SearchError> {
    if regex_compiles(e.regex@) {
        fill_spec(e, treated(e, term))
    } else {
        Err(SearchError::Pattern)
    }
}

impl Engine {
    /// Both of the engine's regular expressions compile.
    pub open spec fn valid(&self) -> bool {
        regex_compiles(self.regex@) && regex_compiles(escaped(self.pattern@))
    }

    /// A new engine with a fresh random identifier.
    pub fn new(name: &str, url_pattern: &str, pattern: &str, regex: &str, replacement: &str) -> (r:
        Engine)
        ensures
            r.name@ == name@,
            r.url_pattern@ == url_pattern@,
            r.pattern@ == pattern@,
            r.regex@ == regex@,
            r.replacement@ == replacement@,
    {
        Engine {
            uuid: fresh_uuid(),
            name: name.to_owned(),
            url_pattern: url_pattern.to_owned(),
            pattern: pattern.to_owned(),
            regex: regex.to_owned(),
            replacement: replacement.to_owned(),
        }
    }

    /// The URL for a term that has already been normalised.
    pub fn url_with_treated(&self, treated_term: &str) -> (r: Result<String, SearchError>)
        ensures
            match r {
                Ok(u) => fill_spec(*self, treated_term@) == Ok::<Seq<char>, SearchError>(u@),
                Err(e) => fill_spec(*self, treated_term@) == Err::<Seq<char>, SearchError>(e),
            },
    {
        let literal = escape(self.pattern.as_str());
        match compile(literal.as_str()) {
            Ok(placeholder) => {
                let url = replace_literally(&placeholder, self.url_pattern.as_str(), treated_term);
                assert(placeholder@ == escaped(self.pattern@));
                Ok(url)
            },
            Err(_) => Err(SearchError::Pattern),
        }
    }

    /// The URL for a raw term: the term is normalised by the engine's regex,
    /// then put in place of each occurrence of the placeholder.
    pub fn url(&self, term: &str) -> (r: Result<String, SearchError>)
        ensures
            match r {
                Ok(u) => resolve(*self, term@) == Ok::<Seq<char>, SearchError>(u@),
                Err(e) => resolve(*self, term@) == Err::<Seq<char>, SearchError>(e),
            },
    {
        match compile(self.regex.as_str()) {
            Ok(normaliser) => {
                let treated_term = replace_expanding(&normaliser, term, self.replacement.as_str());
                self.url_with_treated(treated_term.as_str())
            },
            Err(_) => Err(SearchError::Pattern),
        }
    }
}

/// Resolving is a function of the engine's texts and the term: equal inputs
/// give equal results, whichever engine value carries them.
pub proof fn lemma_resolve_deterministic(e1: Engine, e2: Engine, t1: Seq<char>, t2: Seq<char>)
    requires
        e1.url_pattern@ == e2.url_pattern@,
        e1.pattern@ == e2.pattern@,
        e1.regex@ == e2.regex@,
        e1.replacement@ == e2.replacement@,
        t1 == t2,
    ensures
        resolve(e1, t1) == resolve(e2, t2),
{
}

/// Where the placeholder does not occur in the template, a valid engine
/// gives back the template itself, whatever the term.
pub proof fn lemma_absent_placeholder_gives_template(e: Engine, term: Seq<char>)
    requires
        e.valid(),
        !crate::text::occurs_in(e.url_pattern@, e.pattern@),
    ensures
        resolve(e, term) == Ok::<Seq<char>, SearchError>(e.url_pattern@),
{
    crate::text::lemma_absent_pattern_keeps_text(
        e.url_pattern@,
        e.pattern@,
        treated(e, term),
    );
}

/// The placeholder is matched literally: a valid engine's URL is the template
/// with each literal occurrence of the placeholder replaced by the treated
/// term, so no character of the term or the placeholder acts as a regular
/// expression against the template.
pub proof fn lemma_placeholder_is_literal(e: Engine, term: Seq<char>)
    requires
        e.valid(),
    ensures
        resolve(e, term) == Ok::<Seq<char>, SearchError>(
            literal_replaced(e.url_pattern@, e.pattern@, treated(e, term)),
        ),
{
}

} // verus!
