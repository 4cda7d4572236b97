//! The engine's handles as the bridge uses them: typed errors, documents
//! checked against a schema, result limits, term patterns and reload
//! policies.

use crate::analyzer::texts_of;
use crate::descriptor::ReloadOnPolicy;
use crate::num::refusal_text;
use crate::num::u53;
use crate::num::HostNumber;
use crate::num::Narrowed;
use crate::num::Project;
use crate::num::ProjectionError;
use crate::num::U53_MAX;
use crate::schema::parse_json;
use crate::schema::parsed_document;
use crate::schema::CompiledSchema;
use tantivy::collector::TopDocs;
use tantivy::ReloadPolicy;
use tantivy::TantivyDocument;
use vstd::prelude::*;

verus! {

/// What can go wrong on the way through the bridge. Each kind tells the
/// caller whether trying again can help.
#[derive(Debug)]
pub enum BridgeError {
    /// An argument was malformed or out of range; the engine was not asked.
    InvalidArgument(String),
    /// A document does not fit its schema.
    DocumentParseError(String),
    /// An earlier holder of a lock failed while it held the lock.
    LockPoisoned,
    /// The storage of an index could not be opened or created.
    StorageError(String),
    /// The engine could not commit.
    CommitError(String),
    /// The engine could not build a query.
    QueryBuildError(String),
    /// The engine could not run a search.
    SearchError(String),
}

#[verifier::external_type_specification]
pub struct ExReloadPolicy(ReloadPolicy);

#[verifier::external_type_specification]
#[verifier::external_body]
pub struct ExTantivyDocument(TantivyDocument);

#[verifier::external_type_specification]
#[verifier::external_body]
pub struct ExTopDocs(TopDocs);

#[verifier::external_type_specification]
#[verifier::external_body]
pub struct ExRegex(tantivy_fst::Regex);

/// The library's name for a reload policy of the engine.
pub open spec fn reload_policy_of(policy: ReloadPolicy) -> ReloadOnPolicy {
    match policy {
        ReloadPolicy::Manual => ReloadOnPolicy::Manual,
        ReloadPolicy::OnCommitWithDelay => ReloadOnPolicy::CommitWithDelay,
    }
}

/// The engine's reload policy for a policy name.
pub fn engine_reload_policy(policy: ReloadOnPolicy) -> (r: ReloadPolicy)
    ensures
        reload_policy_of(r) == policy,
{
    match policy {
        ReloadOnPolicy::CommitWithDelay => ReloadPolicy::OnCommitWithDelay,
        ReloadOnPolicy::Manual => ReloadPolicy::Manual,
    }
}

/// Whether `r` is what the engine's answer to a document becomes: the
/// document, or the engine's message as a parse error.
pub open spec fn document_outcome(
    answer: Result<TantivyDocument, String>,
    r: Result<TantivyDocument, BridgeError>,
) -> bool {
    match answer {
        Ok(document) => r == Ok::<TantivyDocument, BridgeError>(document),
        Err(message) => r == Err::<TantivyDocument, BridgeError>(
            BridgeError::DocumentParseError(message),
        ),
    }
}

/// Turns the engine's answer to a document into the library's.
pub fn document_from(answer: Result<TantivyDocument, String>) -> (r: Result<
    TantivyDocument,
    BridgeError,
>)
    ensures
        document_outcome(answer, r),
{
    match answer {
        Ok(document) => Ok(document),
        Err(message) => Err(BridgeError::DocumentParseError(message)),
    }
}

/// Checks a document, given as JSON text, against a schema, before any
/// writer is touched: malformed text and values that do not match their
/// field's type are refused, and what is accepted is the document that the
/// engine makes of the text.
pub fn parse_document(schema: &CompiledSchema, document: &str) -> (r: Result<
    TantivyDocument,
    BridgeError,
>)
    ensures
        match r {
            Ok(parsed) => parsed_document(schema@, document@) == Ok::<TantivyDocument, Seq<char>>(
                parsed,
            ),
            Err(error) => error matches BridgeError::DocumentParseError(message)
                && parsed_document(schema@, document@) == Err::<TantivyDocument, Seq<char>>(
                message@,
            ),
        },
{
    document_from(parse_json(schema, document))
}

/// The number of documents that a collector keeps at most.
pub uninterp spec fn collector_limit(collector: TopDocs) -> usize;

/// `TopDocs::with_limit` of tantivy: a collector of the best `limit`
/// documents. It panics on a limit of zero, which `requires` rules out.
#[verifier::external_body]
fn top_docs_collector(limit: usize) -> (r: TopDocs)
    requires
        limit > 0,
    ensures
        collector_limit(r) == limit,
{
    TopDocs::with_limit(limit)
}

/// The collector for a search that may return up to `limit` documents. A
/// limit of zero asks for nothing: there is no collector then, the engine is
/// not asked, and the result is the empty sequence.
pub fn top_docs_plan(limit: usize) -> (r: Option<TopDocs>)
    ensures
        r is None <==> limit == 0,
        r matches Some(collector) ==> collector_limit(collector) == limit,
{
    if limit == 0 {
        None
    } else {
        Some(top_docs_collector(limit))
    }
}

/// What the term dictionaries' automaton builder makes of a pattern: the
/// automaton, or the message with which it refuses the pattern.
pub uninterp spec fn compiled_pattern(pattern: Seq<char>) -> Result<tantivy_fst::Regex, Seq<char>>;

/// `Regex::new` of tantivy_fst, with the error handed out as its message: the
/// automaton for the pattern, or the reason why there is none. The outcome
/// depends on the pattern alone.
#[verifier::external_body]
fn compile_pattern(pattern: &str) -> (r: Result<tantivy_fst::Regex, String>)
    ensures
        match r {
            Ok(automaton) => compiled_pattern(pattern@) == Ok::<tantivy_fst::Regex, Seq<char>>(
                automaton,
            ),
            Err(message) => compiled_pattern(pattern@) == Err::<tantivy_fst::Regex, Seq<char>>(
                message@,
            ),
        },
{
    tantivy_fst::Regex::new(pattern).map_err(|error| error.to_string())
}

/// Whether `r` is what the automaton builder's answer to a pattern becomes:
/// the automaton, or the builder's message as an invalid argument.
pub open spec fn pattern_outcome(
    answer: Result<tantivy_fst::Regex, String>,
    r: Result<tantivy_fst::Regex, BridgeError>,
) -> bool {
    match answer {
        Ok(automaton) => r == Ok::<tantivy_fst::Regex, BridgeError>(automaton),
        Err(message) => r == Err::<tantivy_fst::Regex, BridgeError>(
            BridgeError::InvalidArgument(message),
        ),
    }
}

/// Turns the automaton builder's answer to a pattern into the library's.
pub fn pattern_from(answer: Result<tantivy_fst::Regex, String>) -> (r: Result<
    tantivy_fst::Regex,
    BridgeError,
>)
    ensures
        pattern_outcome(answer, r),
{
    match answer {
        Ok(automaton) => Ok(automaton),
        Err(message) => Err(BridgeError::InvalidArgument(message)),
    }
}

/// The automaton that finds the terms of a dictionary which `pattern`
/// matches; what is no pattern is refused before any dictionary is read.
pub fn term_pattern(pattern: &str) -> (r: Result<tantivy_fst::Regex, BridgeError>)
    ensures
        match r {
            Ok(automaton) => compiled_pattern(pattern@) == Ok::<tantivy_fst::Regex, Seq<char>>(
                automaton,
            ),
            Err(error) => error matches BridgeError::InvalidArgument(message) && compiled_pattern(
                pattern@,
            ) == Err::<tantivy_fst::Regex, Seq<char>>(message@),
        },
{
    pattern_from(compile_pattern(pattern))
}

/// The texts of `texts`, each once, in the order in which they first occur.
pub open spec fn distinct(texts: Seq<Seq<char>>) -> Seq<Seq<char>>
    decreases texts.len(),
{
    if texts.len() == 0 {
        Seq::empty()
    } else if distinct(texts.drop_last()).contains(texts.last()) {
        distinct(texts.drop_last())
    } else {
        distinct(texts.drop_last()).push(texts.last())
    }
}

/// The terms found in the segments, one segment behind the other.
pub open spec fn found_terms(found: Seq<Vec<String>>) -> Seq<Seq<char>>
    decreases found.len(),
{
    if found.len() == 0 {
        Seq::empty()
    } else {
        found_terms(found.drop_last()) + texts_of(found.last()@)
    }
}

/// `distinct` keeps every text, and none of them twice.
pub proof fn lemma_distinct_is_a_set(texts: Seq<Seq<char>>)
    ensures
        distinct(texts).no_duplicates(),
        forall|text: Seq<char>| distinct(texts).contains(text) <==> texts.contains(text),
    decreases texts.len(),
{
    if texts.len() > 0 {
        let front = texts.drop_last();
        lemma_distinct_is_a_set(front);
        assert(texts == front.push(texts.last()));
        assert forall|text: Seq<char>| distinct(texts).contains(text) <==> texts.contains(
            text,
        ) by {
            vstd::seq_lib::lemma_seq_contains_after_push(front, texts.last(), text);
            vstd::seq_lib::lemma_seq_contains_after_push(distinct(front), texts.last(), text);
        }
        if !distinct(front).contains(texts.last()) {
            let d = distinct(front);
            assert forall|i: int, j: int|
                0 <= i < d.len() + 1 && 0 <= j < d.len() + 1 && i != j implies d.push(
                texts.last(),
            )[i] != d.push(texts.last())[j] by {
                if i < d.len() {
                    assert(d.contains(d[i]));
                }
                if j < d.len() {
                    assert(d.contains(d[j]));
                }
            }
        }
    }
}

fn holds(terms: &Vec<String>, term: &String) -> (r: bool)
    ensures
        r == texts_of(terms@).contains(term@),
{
    let mut i: usize = 0;
    while i < terms.len()
        invariant
            i <= terms.len(),
            forall|k: int| 0 <= k < i ==> texts_of(terms@)[k] != term@,
        decreases terms.len() - i,
    {
        if terms[i] == *term {
            assert(texts_of(terms@)[i as int] == term@);
            return true;
        }
        i += 1;
    }
    false
}

/// Merges the terms found in the segments of an index into the set of terms
/// found: each term once, in the order in which the terms first occur. A term
/// that several segments hold is one term.
pub fn merge_terms(found: &Vec<Vec<String>>) -> (r: Vec<String>)
    ensures
        texts_of(r@) == distinct(found_terms(found@)),
{
    let mut result: Vec<String> = Vec::new();
    let mut i: usize = 0;
    while i < found.len()
        invariant
            i <= found.len(),
            texts_of(result@) == distinct(found_terms(found@.take(i as int))),
        decreases found.len() - i,
    {
        let segment = &found[i];
        let ghost before = found_terms(found@.take(i as int));
        let mut j: usize = 0;
        while j < segment.len()
            invariant
                j <= segment.len(),
                texts_of(result@) == distinct(before + texts_of(segment@).take(j as int)),
            decreases segment.len() - j,
        {
            let ghost seen = before + texts_of(segment@).take(j as int);
            let ghost next = before + texts_of(segment@).take(j + 1);
            proof {
                assert(next.drop_last() =~= seen);
            }
            if !holds(&result, &segment[j]) {
                result.push(segment[j].clone());
            }
            j += 1;
        }
        proof {
            assert(texts_of(segment@).take(j as int) =~= texts_of(segment@));
            assert(found@.take(i + 1).drop_last() =~= found@.take(i as int));
        }
        i += 1;
    }
    assert(found@.take(i as int) =~= found@);
    result
}

/// The size that a host number stands for, where it stands for one: the
/// number is to be an integer from zero up to 53 bits that the machine's size
/// type can hold.
pub open spec fn size_of(number: HostNumber) -> Option<usize> {
    match number.narrowed(U53_MAX) {
        Narrowed::Value(n) => if n <= usize::MAX {
            Some(n as usize)
        } else {
            None
        },
        _ => None,
    }
}

/// Why a host number stands for no size.
pub open spec fn size_refusal(number: HostNumber) -> Seq<char> {
    match number.narrowed(U53_MAX) {
        Narrowed::Value(_) => refusal_text(Narrowed::OutOfRange, "usize"@),
        other => refusal_text(other, "u53"@),
    }
}

/// Takes a host number as a size, such as a heap budget in bytes or a limit
/// on the number of results. Anything but an integer in range is refused as
/// an invalid argument, before the engine sees it.
pub fn size_from(number: HostNumber) -> (r: Result<usize, BridgeError>)
    ensures
        match r {
            Ok(size) => size_of(number) == Some(size),
            Err(error) => size_of(number) is None && (error matches BridgeError::InvalidArgument(
                message,
            ) && message@ == size_refusal(number)),
        },
{
    let projected: Result<u53, ProjectionError> = number.project();
    match projected {
        Ok(value) => {
            let wide: u64 = value.into();
            proof {
                u53::lemma_view_of(number.narrowed(U53_MAX)->Value_0);
            }
            if wide > usize::MAX as u64 {
                let mut message = String::from_str("is out of range for ");
                message.append("usize");
                Err(BridgeError::InvalidArgument(message))
            } else {
                Ok(wide as usize)
            }
        },
        Err(error) => Err(BridgeError::InvalidArgument(error.0)),
    }
}

} // verus!
