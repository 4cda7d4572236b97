//! Query construction: engine-native queries on fields given by their ids.

use crate::analyzer::texts_of;
use crate::descriptor::IndexDetail;
use crate::schema::engine_record;
use crate::schema::record_of;
use tantivy::query::FuzzyTermQuery;
use tantivy::query::PhrasePrefixQuery;
use tantivy::query::PhraseQuery;
use tantivy::query::RegexQuery;
use tantivy::query::TermQuery;
use tantivy::schema::Field;
use tantivy::Term;
use vstd::prelude::*;

verus! {

/// What a query asks for. Fields are given by their ids.
pub enum QueryModel {
    /// Documents whose field holds the term.
    Term { field: u32, text: Seq<char>, detail: IndexDetail },
    /// Documents whose field holds the terms one behind the other.
    Phrase { field: u32, terms: Seq<Seq<char>> },
    /// Documents whose field holds the terms one behind the other, the last
    /// as the beginning of a term.
    PhrasePrefix { field: u32, terms: Seq<Seq<char>> },
    /// Documents whose field holds a term within the edit distance of the
    /// given one, or, with `prefix`, a term that begins with such a term.
    Fuzzy { field: u32, text: Seq<char>, distance: u8, transposition_cost_one: bool, prefix: bool },
    /// Documents whose field holds a term that the pattern matches.
    Regex { field: u32, pattern: Seq<char> },
}

#[verifier::external_type_specification]
#[verifier::external_body]
pub struct ExTermQuery(TermQuery);

#[verifier::external_type_specification]
#[verifier::external_body]
pub struct ExPhraseQuery(PhraseQuery);

#[verifier::external_type_specification]
#[verifier::external_body]
pub struct ExPhrasePrefixQuery(PhrasePrefixQuery);

#[verifier::external_type_specification]
#[verifier::external_body]
pub struct ExFuzzyTermQuery(FuzzyTermQuery);

#[verifier::external_type_specification]
#[verifier::external_body]
pub struct ExRegexQuery(RegexQuery);

/// What a term query of the engine asks for.
pub uninterp spec fn term_query_model(query: TermQuery) -> QueryModel;

/// What a phrase query of the engine asks for.
pub uninterp spec fn phrase_query_model(query: PhraseQuery) -> QueryModel;

/// What a phrase-prefix query of the engine asks for.
pub uninterp spec fn phrase_prefix_query_model(query: PhrasePrefixQuery) -> QueryModel;

/// What a fuzzy query of the engine asks for.
pub uninterp spec fn fuzzy_query_model(query: FuzzyTermQuery) -> QueryModel;

/// What a regex query of the engine asks for.
pub uninterp spec fn regex_query_model(query: RegexQuery) -> QueryModel;

/// The message with which the engine refuses a pattern; `None` for a pattern
/// that it accepts.
pub uninterp spec fn pattern_refusal(pattern: Seq<char>) -> Option<Seq<char>>;

/// `TermQuery::new` of tantivy on the term that `Term::from_field_text` gives
/// for the field and text: the query for that term, with the given detail.
#[verifier::external_body]
fn term_query(field: u32, text: &str, detail: tantivy::schema::IndexRecordOption) -> (r: TermQuery)
    ensures
        term_query_model(r) == (QueryModel::Term { field, text: text@, detail: record_of(detail) }),
{
    TermQuery::new(Term::from_field_text(Field::from_field_id(field), text), detail)
}

/// `PhraseQuery::new` of tantivy on the terms that `Term::from_field_text`
/// gives for the field and each text: the query for those terms in the given
/// order. It panics on fewer than two terms, which `requires` rules out.
#[verifier::external_body]
fn phrase_query(field: u32, terms: &Vec<String>) -> (r: PhraseQuery)
    requires
        terms@.len() > 1,
    ensures
        phrase_query_model(r) == (QueryModel::Phrase { field, terms: texts_of(terms@) }),
{
    let field = Field::from_field_id(field);
    PhraseQuery::new(terms.iter().map(|text| Term::from_field_text(field, text)).collect())
}

/// `PhrasePrefixQuery::new` of tantivy on the terms that
/// `Term::from_field_text` gives for the field and each text: the query for
/// those terms in the given order, the last as a prefix. It panics on an
/// empty list, which `requires` rules out.
#[verifier::external_body]
fn phrase_prefix_query(field: u32, terms: &Vec<String>) -> (r: PhrasePrefixQuery)
    requires
        terms@.len() > 0,
    ensures
        phrase_prefix_query_model(r) == (QueryModel::PhrasePrefix {
            field,
            terms: texts_of(terms@),
        }),
{
    let field = Field::from_field_id(field);
    PhrasePrefixQuery::new(terms.iter().map(|text| Term::from_field_text(field, text)).collect())
}

/// `FuzzyTermQuery::new` of tantivy on the term that `Term::from_field_text`
/// gives for the field and text: the fuzzy query for whole terms.
#[verifier::external_body]
fn fuzzy_query(field: u32, text: &str, distance: u8, transposition_cost_one: bool) -> (r:
    FuzzyTermQuery)
    ensures
        fuzzy_query_model(r) == (QueryModel::Fuzzy {
            field,
            text: text@,
            distance,
            transposition_cost_one,
            prefix: false,
        }),
{
    let term = Term::from_field_text(Field::from_field_id(field), text);
    FuzzyTermQuery::new(term, distance, transposition_cost_one)
}

/// `FuzzyTermQuery::new_prefix` of tantivy on the term that
/// `Term::from_field_text` gives for the field and text: the fuzzy query for
/// beginnings of terms.
#[verifier::external_body]
fn fuzzy_prefix_query(field: u32, text: &str, distance: u8, transposition_cost_one: bool) -> (r:
    FuzzyTermQuery)
    ensures
        fuzzy_query_model(r) == (QueryModel::Fuzzy {
            field,
            text: text@,
            distance,
            transposition_cost_one,
            prefix: true,
        }),
{
    let term = Term::from_field_text(Field::from_field_id(field), text);
    FuzzyTermQuery::new_prefix(term, distance, transposition_cost_one)
}

/// `RegexQuery::from_pattern` of tantivy, with the error handed out as its
/// message: the query for the pattern, or the reason why the pattern is none.
/// Whether a pattern is accepted, and with which message it is refused,
/// depends on the pattern alone.
#[verifier::external_body]
fn regex_from_pattern(pattern: &str, field: u32) -> (r: Result<RegexQuery, String>)
    ensures
        match r {
            Ok(query) => pattern_refusal(pattern@) is None && regex_query_model(query) == (
                QueryModel::Regex { field, pattern: pattern@ }
            ),
            Err(message) => pattern_refusal(pattern@) == Some(message@),
        },
{
    RegexQuery::from_pattern(pattern, Field::from_field_id(field)).map_err(
        |error| error.to_string(),
    )
}

/// A query built by this library.
pub enum BuiltQuery {
    Term(TermQuery),
    Phrase(PhraseQuery),
    PhrasePrefix(PhrasePrefixQuery),
    Fuzzy(FuzzyTermQuery),
    Regex(RegexQuery),
}

impl View for BuiltQuery {
    type V = QueryModel;

    open spec fn view(&self) -> QueryModel {
        match *self {
            BuiltQuery::Term(query) => term_query_model(query),
            BuiltQuery::Phrase(query) => phrase_query_model(query),
            BuiltQuery::PhrasePrefix(query) => phrase_prefix_query_model(query),
            BuiltQuery::Fuzzy(query) => fuzzy_query_model(query),
            BuiltQuery::Regex(query) => regex_query_model(query),
        }
    }
}

/// Why a query could not be built.
#[derive(Debug)]
pub enum QueryError {
    /// The query needs at least `needed` terms, and `given` were given.
    TooFewTerms { needed: usize, given: usize },
    /// The engine refused the pattern, with this message.
    InvalidPattern(String),
}

/// A query for the documents whose field holds `term`.
pub fn new_term_query(term: &str, field: u32, options: IndexDetail) -> (r: BuiltQuery)
    ensures
        r@ == (QueryModel::Term { field, text: term@, detail: options }),
{
    BuiltQuery::Term(term_query(field, term, engine_record(options)))
}

/// A query for the documents whose field holds the terms one behind the
/// other. A phrase takes at least two terms.
pub fn new_phrase_query(terms: &Vec<String>, field: u32) -> (r: Result<BuiltQuery, QueryError>)
    ensures
        match r {
            Ok(query) => terms@.len() >= 2 && query@ == (QueryModel::Phrase {
                field,
                terms: texts_of(terms@),
            }),
            Err(error) => terms@.len() < 2 && error == (QueryError::TooFewTerms {
                needed: 2,
                given: terms.len(),
            }),
        },
{
    if terms.len() < 2 {
        return Err(QueryError::TooFewTerms { needed: 2, given: terms.len() });
    }
    Ok(BuiltQuery::Phrase(phrase_query(field, terms)))
}

/// A query for the documents whose field holds the terms one behind the
/// other, the last as the beginning of a term. It takes at least one term.
pub fn new_phrase_prefix_query(terms: &Vec<String>, field: u32) -> (r: Result<
    BuiltQuery,
    QueryError,
>)
    ensures
        match r {
            Ok(query) => terms@.len() >= 1 && query@ == (QueryModel::PhrasePrefix {
                field,
                terms: texts_of(terms@),
            }),
            Err(error) => terms@.len() < 1 && error == (QueryError::TooFewTerms {
                needed: 1,
                given: terms.len(),
            }),
        },
{
    if terms.len() < 1 {
        return Err(QueryError::TooFewTerms { needed: 1, given: terms.len() });
    }
    Ok(BuiltQuery::PhrasePrefix(phrase_prefix_query(field, terms)))
}

/// A query for the documents whose field holds a term within `max_distance`
/// edits of `term`, or, with `is_prefix`, a term that begins with such a
/// term.
pub fn new_fuzzy_term_query(
    term: &str,
    field: u32,
    max_distance: u8,
    transposition_costs_one: bool,
    is_prefix: bool,
) -> (r: BuiltQuery)
    ensures
        r@ == (QueryModel::Fuzzy {
            field,
            text: term@,
            distance: max_distance,
            transposition_cost_one: transposition_costs_one,
            prefix: is_prefix,
        }),
{
    let query = if is_prefix {
        fuzzy_prefix_query(field, term, max_distance, transposition_costs_one)
    } else {
        fuzzy_query(field, term, max_distance, transposition_costs_one)
    };
    BuiltQuery::Fuzzy(query)
}

/// Whether `r` is what the engine's answer to a pattern becomes: the query,
/// or the engine's message as an invalid pattern.
pub open spec fn regex_outcome(
    answer: Result<RegexQuery, String>,
    r: Result<BuiltQuery, QueryError>,
) -> bool {
    match answer {
        Ok(query) => r matches Ok(built) && built == BuiltQuery::Regex(query),
        Err(message) => r matches Err(error) && error == QueryError::InvalidPattern(message),
    }
}

/// Turns the engine's answer to a pattern into the library's.
pub fn regex_query_from(answer: Result<RegexQuery, String>) -> (r: Result<BuiltQuery, QueryError>)
    ensures
        regex_outcome(answer, r),
{
    match answer {
        Ok(query) => Ok(BuiltQuery::Regex(query)),
        Err(message) => Err(QueryError::InvalidPattern(message)),
    }
}

/// A query for the documents whose field holds a term that `pattern`
/// matches; the engine decides whether `pattern` is one.
pub fn new_regex_query(pattern: &str, field: u32) -> (r: Result<BuiltQuery, QueryError>)
    ensures
        match r {
            Ok(query) => pattern_refusal(pattern@) is None && query@ == (QueryModel::Regex {
                field,
                pattern: pattern@,
            }),
            Err(error) => error matches QueryError::InvalidPattern(message) && pattern_refusal(
                pattern@,
            ) == Some(message@),
        },
{
    regex_query_from(regex_from_pattern(pattern, field))
}

} // verus!
