//! Tokenizer pipelines: a base tokenizer followed by optional filters in a
//! fixed order, and tokenization with byte and character offsets.

use crate::descriptor::LanguageName;
use tantivy::tokenizer::Language;
use tantivy::tokenizer::TextAnalyzer;
use tantivy::tokenizer::TokenStream;
use tantivy::tokenizer::Tokenizer;
use vstd::prelude::*;
use vstd::string::StringSliceAdditionalSpecFns;
use vstd::utf8::decode_utf8;
use vstd::utf8::is_char_boundary;
use vstd::utf8::length_of_first_scalar;
use vstd::utf8::pop_first_scalar;
use vstd::utf8::valid_utf8;

verus! {

/// The optional filters of a tokenizer pipeline.
#[derive(Clone, Copy, Debug)]
pub struct TextAnalyzerFilters {
    /// Drop the tokens whose text takes this many bytes or more.
    pub remove_long: Option<usize>,
    /// Drop the tokens that hold anything but letters and digits.
    pub alpha_num_only: bool,
    /// Replace letters with diacritics by their plain ASCII counterparts.
    pub ascii_folding: bool,
    /// Put the tokens into lower case.
    pub lower_case: bool,
    /// Reduce the tokens to their stems, by the rules of this language.
    pub stemmer: Option<LanguageName>,
    /// Drop the stop words of this language.
    pub filter_stop_words: Option<LanguageName>,
}

/// One filter of a pipeline.
#[derive(Clone, Copy, Debug, PartialEq, Eq, Structural)]
pub enum FilterStep {
    RemoveLong(usize),
    AlphaNumOnly,
    AsciiFolding,
    LowerCaser,
    Stemmer(LanguageName),
    StopWords(LanguageName),
}

/// Why a pipeline could not be built.
#[derive(Clone, Copy, Debug, PartialEq, Eq, Structural)]
pub enum AnalyzerError {
    /// The engine has no list of stop words for this language.
    NoStopWords(LanguageName),
}

#[verifier::external_type_specification]
pub struct ExLanguage(Language);

#[verifier::external_type_specification]
#[verifier::external_body]
pub struct ExTextAnalyzer(TextAnalyzer);

/// The library's name for a language of the engine.
pub open spec fn language_of(language: Language) -> LanguageName {
    match language {
        Language::Arabic => LanguageName::Arabic,
        Language::Danish => LanguageName::Danish,
        Language::Dutch => LanguageName::Dutch,
        Language::English => LanguageName::English,
        Language::Finnish => LanguageName::Finnish,
        Language::French => LanguageName::French,
        Language::German => LanguageName::German,
        Language::Greek => LanguageName::Greek,
        Language::Hungarian => LanguageName::Hungarian,
        Language::Italian => LanguageName::Italian,
        Language::Norwegian => LanguageName::Norwegian,
        Language::Portuguese => LanguageName::Portuguese,
        Language::Romanian => LanguageName::Romanian,
        Language::Russian => LanguageName::Russian,
        Language::Spanish => LanguageName::Spanish,
        Language::Swedish => LanguageName::Swedish,
        Language::Tamil => LanguageName::Tamil,
        Language::Turkish => LanguageName::Turkish,
    }
}

/// The engine's language for a language name.
pub fn engine_language(value: LanguageName) -> (r: Language)
    ensures
        language_of(r) == value,
{
    match value {
        LanguageName::Arabic => Language::Arabic,
        LanguageName::Danish => Language::Danish,
        LanguageName::Dutch => Language::Dutch,
        LanguageName::English => Language::English,
        LanguageName::Finnish => Language::Finnish,
        LanguageName::French => Language::French,
        LanguageName::German => Language::German,
        LanguageName::Greek => Language::Greek,
        LanguageName::Hungarian => Language::Hungarian,
        LanguageName::Italian => Language::Italian,
        LanguageName::Norwegian => Language::Norwegian,
        LanguageName::Portuguese => Language::Portuguese,
        LanguageName::Romanian => Language::Romanian,
        LanguageName::Russian => Language::Russian,
        LanguageName::Spanish => Language::Spanish,
        LanguageName::Swedish => Language::Swedish,
        LanguageName::Tamil => Language::Tamil,
        LanguageName::Turkish => Language::Turkish,
    }
}

/// Whether the engine has a list of stop words for a language.
pub open spec fn has_stop_words(language: LanguageName) -> bool {
    match language {
        LanguageName::Arabic => false,
        LanguageName::Greek => false,
        LanguageName::Romanian => false,
        LanguageName::Tamil => false,
        LanguageName::Turkish => false,
        _ => true,
    }
}

/// A pipeline under construction: the engine's analyzer builder over its
/// simple tokenizer, with the filters added so far.
#[verifier::external_body]
pub struct PipelineBuilder {
    inner: tantivy::tokenizer::TextAnalyzerBuilder,
}

/// The filters that a pipeline under construction holds, first applied first.
pub uninterp spec fn builder_steps(builder: PipelineBuilder) -> Seq<FilterStep>;

/// The filters of a finished pipeline over the simple tokenizer, first
/// applied first.
pub uninterp spec fn analyzer_steps(analyzer: TextAnalyzer) -> Seq<FilterStep>;

/// A finished pipeline: the engine's simple tokenizer followed by filters.
/// Every one comes from [`new_text_analyzer`] or [`TextAnalyzerFilters::apply`].
pub struct Pipeline {
    analyzer: TextAnalyzer,
}

impl View for Pipeline {
    type V = Seq<FilterStep>;

    /// The filters of the pipeline, first applied first.
    closed spec fn view(&self) -> Seq<FilterStep> {
        analyzer_steps(self.analyzer)
    }
}

impl Pipeline {
    /// Lends the engine's analyzer.
    pub fn as_analyzer(&self) -> (r: &TextAnalyzer)
        ensures
            analyzer_steps(*r) == self@,
    {
        &self.analyzer
    }
}

/// `TextAnalyzer::builder` of tantivy on its `SimpleTokenizer`, made dynamic:
/// a builder without filters.
#[verifier::external_body]
fn pipeline_builder() -> (r: PipelineBuilder)
    ensures
        builder_steps(r) == Seq::<FilterStep>::empty(),
{
    let tokenizer = tantivy::tokenizer::SimpleTokenizer::default();
    PipelineBuilder { inner: TextAnalyzer::builder(tokenizer).dynamic() }
}

/// `TextAnalyzerBuilder::filter_dynamic` of tantivy with
/// `RemoveLongFilter::limit`: the same pipeline, followed by that filter.
#[verifier::external_body]
fn with_remove_long(builder: PipelineBuilder, limit: usize) -> (r: PipelineBuilder)
    ensures
        builder_steps(r) == builder_steps(builder).push(FilterStep::RemoveLong(limit)),
{
    let filter = tantivy::tokenizer::RemoveLongFilter::limit(limit);
    PipelineBuilder { inner: builder.inner.filter_dynamic(filter) }
}

/// `TextAnalyzerBuilder::filter_dynamic` of tantivy with `AlphaNumOnlyFilter`:
/// the same pipeline, followed by that filter.
#[verifier::external_body]
fn with_alpha_num_only(builder: PipelineBuilder) -> (r: PipelineBuilder)
    ensures
        builder_steps(r) == builder_steps(builder).push(FilterStep::AlphaNumOnly),
{
    PipelineBuilder { inner: builder.inner.filter_dynamic(tantivy::tokenizer::AlphaNumOnlyFilter) }
}

/// `TextAnalyzerBuilder::filter_dynamic` of tantivy with `AsciiFoldingFilter`:
/// the same pipeline, followed by that filter.
#[verifier::external_body]
fn with_ascii_folding(builder: PipelineBuilder) -> (r: PipelineBuilder)
    ensures
        builder_steps(r) == builder_steps(builder).push(FilterStep::AsciiFolding),
{
    PipelineBuilder { inner: builder.inner.filter_dynamic(tantivy::tokenizer::AsciiFoldingFilter) }
}

/// `TextAnalyzerBuilder::filter_dynamic` of tantivy with `LowerCaser`: the
/// same pipeline, followed by that filter.
#[verifier::external_body]
fn with_lower_caser(builder: PipelineBuilder) -> (r: PipelineBuilder)
    ensures
        builder_steps(r) == builder_steps(builder).push(FilterStep::LowerCaser),
{
    PipelineBuilder { inner: builder.inner.filter_dynamic(tantivy::tokenizer::LowerCaser) }
}

/// `TextAnalyzerBuilder::filter_dynamic` of tantivy with `Stemmer::new`: the
/// same pipeline, followed by the stemmer of the language.
#[verifier::external_body]
fn with_stemmer(builder: PipelineBuilder, language: Language) -> (r: PipelineBuilder)
    ensures
        builder_steps(r) == builder_steps(builder).push(FilterStep::Stemmer(language_of(language))),
{
    let filter = tantivy::tokenizer::Stemmer::new(language);
    PipelineBuilder { inner: builder.inner.filter_dynamic(filter) }
}

/// `TextAnalyzerBuilder::filter_dynamic` of tantivy with
/// `StopWordFilter::new`: the same pipeline, followed by the stop-word filter
/// of the language; nothing where tantivy has no stop words for it.
#[verifier::external_body]
fn with_stop_words(builder: PipelineBuilder, language: Language) -> (r: Option<PipelineBuilder>)
    ensures
        r is Some <==> has_stop_words(language_of(language)),
        r matches Some(next) ==> builder_steps(next) == builder_steps(builder).push(
            FilterStep::StopWords(language_of(language)),
        ),
{
    let filter = tantivy::tokenizer::StopWordFilter::new(language)?;
    Some(PipelineBuilder { inner: builder.inner.filter_dynamic(filter) })
}

/// `TextAnalyzerBuilder::build` of tantivy: the analyzer with the builder's
/// filters.
#[verifier::external_body]
fn build_pipeline(builder: PipelineBuilder) -> (r: Pipeline)
    ensures
        analyzer_steps(r.analyzer) == builder_steps(builder),
{
    Pipeline { analyzer: builder.inner.build() }
}

/// The sequence of `step` alone where `present`, the empty one otherwise.
pub open spec fn optional_step(present: bool, step: FilterStep) -> Seq<FilterStep> {
    if present {
        seq![step]
    } else {
        Seq::empty()
    }
}

impl TextAnalyzerFilters {
    pub open spec fn remove_long_step(self) -> Seq<FilterStep> {
        optional_step(self.remove_long is Some, FilterStep::RemoveLong(self.remove_long->Some_0))
    }

    pub open spec fn alpha_num_only_step(self) -> Seq<FilterStep> {
        optional_step(self.alpha_num_only, FilterStep::AlphaNumOnly)
    }

    pub open spec fn ascii_folding_step(self) -> Seq<FilterStep> {
        optional_step(self.ascii_folding, FilterStep::AsciiFolding)
    }

    pub open spec fn lower_caser_step(self) -> Seq<FilterStep> {
        optional_step(self.lower_case, FilterStep::LowerCaser)
    }

    pub open spec fn stemmer_step(self) -> Seq<FilterStep> {
        optional_step(self.stemmer is Some, FilterStep::Stemmer(self.stemmer->Some_0))
    }

    pub open spec fn stop_words_step(self) -> Seq<FilterStep> {
        optional_step(
            self.filter_stop_words is Some,
            FilterStep::StopWords(self.filter_stop_words->Some_0),
        )
    }

    /// The configured filters in the order in which a pipeline applies them:
    /// removal of long tokens, letters and digits only, ASCII folding, lower
    /// case, stemming, removal of stop words. A filter that is not
    /// configured is left out, and the others keep their order.
    pub open spec fn steps(self) -> Seq<FilterStep> {
        self.remove_long_step() + self.alpha_num_only_step() + self.ascii_folding_step()
            + self.lower_caser_step() + self.stemmer_step() + self.stop_words_step()
    }

    /// Whether the engine can build every configured filter: it can, unless
    /// stop words are asked for in a language for which it has none.
    pub open spec fn buildable(self) -> bool {
        self.filter_stop_words matches Some(language) ==> has_stop_words(language)
    }

    /// Whether `r` is what building the filters `tail` on top of `builder`
    /// gives.
    pub open spec fn built(
        self,
        builder: PipelineBuilder,
        tail: Seq<FilterStep>,
        r: Result<Pipeline, AnalyzerError>,
    ) -> bool {
        match r {
            Ok(analyzer) => self.buildable() && analyzer@ == builder_steps(builder)
                + tail,
            Err(error) => !self.buildable() && error == AnalyzerError::NoStopWords(
                self.filter_stop_words->Some_0,
            ),
        }
    }

    /// Adds the configured filters to `builder`, in the fixed order, and
    /// finishes the pipeline.
    pub fn apply(self, builder: PipelineBuilder) -> (r: Result<Pipeline, AnalyzerError>)
        ensures
            self.built(builder, self.steps(), r),
    {
        self.apply_remove_long(builder)
    }

    fn apply_remove_long(self, builder: PipelineBuilder) -> (r: Result<
        Pipeline,
        AnalyzerError,
    >)
        ensures
            self.built(builder, self.steps(), r),
    {
        let next = match self.remove_long {
            Some(n) => with_remove_long(builder, n),
            None => builder,
        };
        let r = self.apply_alpha_num_only(next);
        proof {
            if r is Ok {
                assert(r->Ok_0@ =~= builder_steps(builder) + self.steps());
            }
        }
        r
    }

    fn apply_alpha_num_only(self, builder: PipelineBuilder) -> (r: Result<
        Pipeline,
        AnalyzerError,
    >)
        ensures
            self.built(
                builder,
                self.alpha_num_only_step() + self.ascii_folding_step() + self.lower_caser_step()
                    + self.stemmer_step() + self.stop_words_step(),
                r,
            ),
    {
        let next = match self.alpha_num_only {
            true => with_alpha_num_only(builder),
            false => builder,
        };
        let r = self.apply_ascii_folding(next);
        proof {
            if r is Ok {
                assert(r->Ok_0@ =~= builder_steps(builder) + (
                self.alpha_num_only_step() + self.ascii_folding_step() + self.lower_caser_step()
                    + self.stemmer_step() + self.stop_words_step()));
            }
        }
        r
    }

    fn apply_ascii_folding(self, builder: PipelineBuilder) -> (r: Result<
        Pipeline,
        AnalyzerError,
    >)
        ensures
            self.built(
                builder,
                self.ascii_folding_step() + self.lower_caser_step() + self.stemmer_step()
                    + self.stop_words_step(),
                r,
            ),
    {
        let next = match self.ascii_folding {
            true => with_ascii_folding(builder),
            false => builder,
        };
        let r = self.apply_lower_caser(next);
        proof {
            if r is Ok {
                assert(r->Ok_0@ =~= builder_steps(builder) + (
                self.ascii_folding_step() + self.lower_caser_step() + self.stemmer_step()
                    + self.stop_words_step()));
            }
        }
        r
    }

    fn apply_lower_caser(self, builder: PipelineBuilder) -> (r: Result<
        Pipeline,
        AnalyzerError,
    >)
        ensures
            self.built(
                builder,
                self.lower_caser_step() + self.stemmer_step() + self.stop_words_step(),
                r,
            ),
    {
        let next = match self.lower_case {
            true => with_lower_caser(builder),
            false => builder,
        };
        let r = self.apply_stemmer(next);
        proof {
            if r is Ok {
                assert(r->Ok_0@ =~= builder_steps(builder) + (
                self.lower_caser_step() + self.stemmer_step() + self.stop_words_step()));
            }
        }
        r
    }

    fn apply_stemmer(self, builder: PipelineBuilder) -> (r: Result<Pipeline, AnalyzerError>)
        ensures
            self.built(builder, self.stemmer_step() + self.stop_words_step(), r),
    {
        let next = match self.stemmer {
            Some(language) => with_stemmer(builder, engine_language(language)),
            None => builder,
        };
        let r = self.apply_stop_words(next);
        proof {
            if r is Ok {
                assert(r->Ok_0@ =~= builder_steps(builder) + (self.stemmer_step()
                    + self.stop_words_step()));
            }
        }
        r
    }

    fn apply_stop_words(self, builder: PipelineBuilder) -> (r: Result<Pipeline, AnalyzerError>)
        ensures
            self.built(builder, self.stop_words_step(), r),
    {
        match self.filter_stop_words {
            Some(language) => match with_stop_words(builder, engine_language(language)) {
                Some(next) => {
                    assert(builder_steps(next) =~= builder_steps(builder)
                        + self.stop_words_step());
                    Ok(build_pipeline(next))
                },
                None => Err(AnalyzerError::NoStopWords(language)),
            },
            None => {
                Ok(build_pipeline(builder))
            },
        }
    }
}

/// A pipeline over the simple tokenizer with the configured filters in the
/// fixed order.
pub fn new_text_analyzer(filters: TextAnalyzerFilters) -> (r: Result<Pipeline, AnalyzerError>)
    ensures
        match r {
            Ok(analyzer) => filters.buildable() && analyzer@ == filters.steps(),
            Err(error) => !filters.buildable() && error == AnalyzerError::NoStopWords(
                filters.filter_stop_words->Some_0,
            ),
        },
{
    filters.apply(pipeline_builder())
}

/// Whether a character of the text with the UTF-8 encoding `bytes` starts at
/// the byte position `position`, or the text ends there.
pub open spec fn is_boundary(bytes: Seq<u8>, position: int) -> bool {
    valid_utf8(bytes) && is_char_boundary(bytes, position)
}

/// The number of characters that start at a byte position from `from` up to,
/// but not including, `to`.
pub open spec fn chars_starting_in(bytes: Seq<u8>, from: int, to: int) -> nat
    decreases to - from,
{
    if to <= from {
        0
    } else {
        chars_starting_in(bytes, from, to - 1) + if is_boundary(bytes, to - 1) {
            1nat
        } else {
            0nat
        }
    }
}

/// The first character boundary at or after `position`; the length of the
/// text where there is none before it.
pub open spec fn next_boundary(bytes: Seq<u8>, position: int) -> int
    decreases bytes.len() - position,
{
    if position >= bytes.len() {
        bytes.len() as int
    } else if is_boundary(bytes, position) {
        position
    } else {
        next_boundary(bytes, position + 1)
    }
}

/// Where a walk over whole characters ends that starts at the boundary
/// `cursor` and goes on while it is before `target` and before the end of the
/// text: at the first boundary at or after `target`, unless it starts there
/// or beyond, and then it does not move.
pub open spec fn walk_end(bytes: Seq<u8>, cursor: int, target: int) -> int {
    if target <= cursor {
        cursor
    } else {
        next_boundary(bytes, target)
    }
}

/// `next_boundary` is the least boundary at or after the position.
proof fn lemma_next_boundary_is(bytes: Seq<u8>, position: int, boundary: int)
    requires
        0 <= position <= boundary <= bytes.len(),
        boundary == bytes.len() || is_boundary(bytes, boundary),
        forall|b: int| position <= b < boundary ==> !is_boundary(bytes, b),
    ensures
        next_boundary(bytes, position) == boundary,
    decreases boundary - position,
{
    if position < boundary {
        lemma_next_boundary_is(bytes, position + 1, boundary);
    }
}

/// A range without boundaries holds no character start.
proof fn lemma_no_starts(bytes: Seq<u8>, from: int, to: int)
    requires
        forall|b: int| from <= b < to ==> !is_boundary(bytes, b),
    ensures
        chars_starting_in(bytes, from, to) == 0,
    decreases to - from,
{
    if from < to {
        lemma_no_starts(bytes, from, to - 1);
    }
}

/// Character starts add up over adjacent ranges.
proof fn lemma_starts_add(bytes: Seq<u8>, from: int, mid: int, to: int)
    requires
        from <= mid <= to,
    ensures
        chars_starting_in(bytes, from, to) == chars_starting_in(bytes, from, mid)
            + chars_starting_in(bytes, mid, to),
    decreases to - mid,
{
    if mid < to {
        lemma_starts_add(bytes, from, mid, to - 1);
    }
}

/// A range holds at most as many character starts as bytes.
proof fn lemma_starts_bound(bytes: Seq<u8>, from: int, to: int)
    requires
        from <= to,
    ensures
        chars_starting_in(bytes, from, to) <= to - from,
    decreases to - from,
{
    if from < to {
        lemma_starts_bound(bytes, from, to - 1);
    }
}

/// Walks over whole characters of `text`, from the byte position `cursor`,
/// until the cursor is at or beyond `byte_offset` or at the end of the text,
/// and counts the characters passed.
pub fn count_chars_until_offset(text: &str, cursor: &mut usize, byte_offset: usize) -> (chars:
    usize)
    requires
        *old(cursor) <= text.spec_bytes().len(),
        is_boundary(text.spec_bytes(), *old(cursor) as int),
    ensures
        *final(cursor) == walk_end(text.spec_bytes(), *old(cursor) as int, byte_offset as int),
        *old(cursor) <= *final(cursor) <= text.spec_bytes().len(),
        is_boundary(text.spec_bytes(), *final(cursor) as int),
        chars == chars_starting_in(
            text.spec_bytes(),
            *old(cursor) as int,
            *final(cursor) as int,
        ),
{
    broadcast use vstd::utf8::group_utf8_lib;

    let ghost bytes = text.spec_bytes();
    let ghost start = *cursor as int;
    let len = text.as_bytes().len();
    let mut chars: usize = 0;
    proof {
        vstd::utf8::is_char_boundary_start_end_of_seq(bytes);
    }
    while *cursor < byte_offset && *cursor < len
        invariant
            bytes == text.spec_bytes(),
            len == bytes.len(),
            valid_utf8(bytes),
            is_boundary(bytes, bytes.len() as int),
            start == *old(cursor),
            start <= *cursor <= len,
            is_boundary(bytes, *cursor as int),
            chars == chars_starting_in(bytes, start, *cursor as int),
            chars <= *cursor - start,
            start < byte_offset ==> forall|b: int|
                byte_offset <= b < *cursor ==> !is_boundary(bytes, b),
            start < byte_offset || *cursor == start,
        decreases len - *cursor,
    {
        let ghost before = *cursor as int;
        *cursor += 1;
        while *cursor < len && !text.is_char_boundary(*cursor)
            invariant
                bytes == text.spec_bytes(),
                len == bytes.len(),
                valid_utf8(bytes),
                before < *cursor <= len,
                forall|b: int| before < b < *cursor ==> !is_boundary(bytes, b),
            decreases len - *cursor,
        {
            *cursor += 1;
        }
        proof {
            lemma_starts_add(bytes, start, before, *cursor as int);
            lemma_starts_add(bytes, before, before + 1, *cursor as int);
            lemma_no_starts(bytes, before + 1, *cursor as int);
            assert(chars_starting_in(bytes, before, before + 1) == 1) by {
                assert(chars_starting_in(bytes, before, before) == 0);
            }
        }
        chars += 1;
    }
    proof {
        if start < byte_offset {
            if *cursor >= byte_offset {
                lemma_next_boundary_is(bytes, byte_offset as int, *cursor as int);
            }
        }
    }
    chars
}

/// A token as the engine reports it, with byte offsets into the text.
#[derive(Clone, Debug)]
pub struct RawToken {
    /// Byte position of the token's first character.
    pub offset_from: usize,
    /// Byte position just behind the token's last character.
    pub offset_to: usize,
    /// Position of the token, counted in tokens.
    pub position: usize,
    /// Text of the token, as the filters left it.
    pub text: String,
    /// Number of positions that the token spans.
    pub position_length: usize,
}

/// The tokens that the pipeline over the simple tokenizer with the given
/// filters gives for a text.
pub uninterp spec fn pipeline_tokens(steps: Seq<FilterStep>, text: Seq<char>) -> Seq<RawToken>;

/// The tokens that the engine's simple tokenizer gives for a text.
pub uninterp spec fn simple_tokens(text: Seq<char>) -> Seq<RawToken>;

/// The tokens that the engine's whitespace tokenizer gives for a text.
pub uninterp spec fn whitespace_tokens(text: Seq<char>) -> Seq<RawToken>;

/// `TextAnalyzer::token_stream` of tantivy, with the stream drained by
/// `TokenStream::process` into a vector: the tokens of the text, which depend
/// on the pipeline's filters and the text alone. The simple tokenizer cuts
/// the tokens out of the text from front to back, each from the first byte of
/// a character to the first byte of a later one or to the end, and no filter
/// of a pipeline touches an offset or the order: the filters drop tokens or
/// change their text. The pipeline keeps its filters.
#[verifier::external_body]
fn analyzer_tokens(pipeline: &mut Pipeline, text: &str) -> (r: Vec<RawToken>)
    ensures
        r@ == pipeline_tokens(analyzer_steps(old(pipeline).analyzer), text@),
        in_text_order(text.spec_bytes(), r@),
        analyzer_steps(final(pipeline).analyzer) == analyzer_steps(old(pipeline).analyzer),
{
    let mut tokens = Vec::new();
    pipeline.analyzer.token_stream(text).process(
        &mut |t| {
            let text = t.text.clone();
            tokens.push(raw_token(t.offset_from, t.offset_to, t.position, text, t.position_length))
        },
    );
    tokens
}

/// `SimpleTokenizer::token_stream` of tantivy, drained by
/// `TokenStream::process` into a vector: the tokens of the text, which depend
/// on the text alone.
#[verifier::external_body]
fn simple_tokenizer_tokens(text: &str) -> (r: Vec<RawToken>)
    ensures
        r@ == simple_tokens(text@),
{
    let mut tokens = Vec::new();
    let mut tokenizer = tantivy::tokenizer::SimpleTokenizer::default();
    tokenizer.token_stream(text).process(
        &mut |t| {
            let text = t.text.clone();
            tokens.push(raw_token(t.offset_from, t.offset_to, t.position, text, t.position_length))
        },
    );
    tokens
}

/// `WhitespaceTokenizer::token_stream` of tantivy, drained by
/// `TokenStream::process` into a vector: the tokens of the text, which depend
/// on the text alone.
#[verifier::external_body]
fn whitespace_tokenizer_tokens(text: &str) -> (r: Vec<RawToken>)
    ensures
        r@ == whitespace_tokens(text@),
{
    let mut tokens = Vec::new();
    let mut tokenizer = tantivy::tokenizer::WhitespaceTokenizer::default();
    tokenizer.token_stream(text).process(
        &mut |t| {
            let text = t.text.clone();
            tokens.push(raw_token(t.offset_from, t.offset_to, t.position, text, t.position_length))
        },
    );
    tokens
}

/// The raw token with the given parts.
pub fn raw_token(
    offset_from: usize,
    offset_to: usize,
    position: usize,
    text: String,
    position_length: usize,
) -> (r: RawToken)
    ensures
        r == (RawToken { offset_from, offset_to, position, text, position_length }),
{
    RawToken { offset_from, offset_to, position, text, position_length }
}

/// A token with its offsets in bytes and in characters. Each number is kept
/// in 32 bits: of a larger one the low 32 bits remain.
#[derive(Clone, Debug)]
pub struct Token {
    pub byte_offset_from: u32,
    pub byte_offset_to: u32,
    pub char_offset_from: u32,
    pub char_offset_to: u32,
    pub position: u32,
    pub text: String,
    pub position_length: u32,
}

impl Token {
    /// Whether this is the token for `token` with the given character
    /// offsets.
    pub open spec fn is_for(self, token: RawToken, char_offset_from: int, char_offset_to: int) -> bool {
        &&& self.byte_offset_from == token.offset_from as u32
        &&& self.byte_offset_to == token.offset_to as u32
        &&& self.char_offset_from == char_offset_from as u32
        &&& self.char_offset_to == char_offset_to as u32
        &&& self.position == token.position as u32
        &&& self.text@ == token.text@
        &&& self.position_length == token.position_length as u32
    }

    /// The token for an engine token, with the character offsets that
    /// correspond to its byte offsets.
    pub fn new(token: &RawToken, char_offset_from: usize, char_offset_to: usize) -> (r: Self)
        ensures
            r.is_for(*token, char_offset_from as int, char_offset_to as int),
    {
        Self {
            byte_offset_from: #[verifier::truncate]
            (token.offset_from as u32),
            byte_offset_to: #[verifier::truncate]
            (token.offset_to as u32),
            char_offset_from: #[verifier::truncate]
            (char_offset_from as u32),
            char_offset_to: #[verifier::truncate]
            (char_offset_to as u32),
            position: #[verifier::truncate]
            (token.position as u32),
            text: token.text.clone(),
            position_length: #[verifier::truncate]
            (token.position_length as u32),
        }
    }
}

/// Where the walk over the text stands after the first `count` tokens. For
/// each token the walk goes to the token's start and then to its end; it
/// never goes back.
pub open spec fn cursor_after(bytes: Seq<u8>, tokens: Seq<RawToken>, count: int) -> int
    decreases count,
{
    if count <= 0 {
        0
    } else {
        walk_end(
            bytes,
            walk_end(
                bytes,
                cursor_after(bytes, tokens, count - 1),
                tokens[count - 1].offset_from as int,
            ),
            tokens[count - 1].offset_to as int,
        )
    }
}

/// Where the walk stands once it has gone to the start of the token at
/// `index`.
pub open spec fn cursor_before_end(bytes: Seq<u8>, tokens: Seq<RawToken>, index: int) -> int {
    walk_end(bytes, cursor_after(bytes, tokens, index), tokens[index].offset_from as int)
}

/// The character offset of the start of the token at `index`: the number of
/// characters that the walk has passed when it has gone to the token's start.
pub open spec fn char_offset_from(bytes: Seq<u8>, tokens: Seq<RawToken>, index: int) -> int {
    chars_starting_in(bytes, 0, cursor_before_end(bytes, tokens, index)) as int
}

/// The character offset of the end of the token at `index`: the number of
/// characters that the walk has passed when it has gone to the token's end.
pub open spec fn char_offset_to(bytes: Seq<u8>, tokens: Seq<RawToken>, index: int) -> int {
    chars_starting_in(bytes, 0, cursor_after(bytes, tokens, index + 1)) as int
}

/// Whether `result` holds, for each of `tokens` in order, the token with its
/// character offsets in the text with the encoding `bytes`.
pub open spec fn tokens_with_offsets(
    result: Seq<Token>,
    bytes: Seq<u8>,
    tokens: Seq<RawToken>,
) -> bool {
    &&& result.len() == tokens.len()
    &&& forall|i: int|
        0 <= i < tokens.len() ==> (#[trigger] result[i]).is_for(
            tokens[i],
            char_offset_from(bytes, tokens, i),
            char_offset_to(bytes, tokens, i),
        )
}

/// The number of characters that the first `offset` bytes of a text with the
/// encoding `bytes` are the encoding of.
pub open spec fn chars_before(bytes: Seq<u8>, offset: int) -> int {
    decode_utf8(bytes.subrange(0, offset)).len() as int
}

/// Whether `result` holds, for each of `tokens` in order, the token with its
/// offsets in code points: the numbers of characters of the text in front of
/// its first byte and in front of the byte behind its last.
pub open spec fn code_point_offsets(
    result: Seq<Token>,
    bytes: Seq<u8>,
    tokens: Seq<RawToken>,
) -> bool {
    &&& result.len() == tokens.len()
    &&& forall|i: int|
        0 <= i < tokens.len() ==> (#[trigger] result[i]).is_for(
            tokens[i],
            chars_before(bytes, tokens[i].offset_from as int),
            chars_before(bytes, tokens[i].offset_to as int),
        )
}

/// Gives each of the engine's tokens for a text its offsets in characters
/// beside those in bytes. The character offsets are found by one walk over
/// the text, which follows the byte offsets of the tokens. Where the tokens
/// lie in the text one behind the other, as those of a pipeline do, the
/// character offsets are the offsets in code points.
pub fn with_char_offsets(text: &str, tokens: &Vec<RawToken>) -> (r: Vec<Token>)
    ensures
        tokens_with_offsets(r@, text.spec_bytes(), tokens@),
        in_text_order(text.spec_bytes(), tokens@) ==> code_point_offsets(
            r@,
            text.spec_bytes(),
            tokens@,
        ),
{
    broadcast use vstd::utf8::group_utf8_lib;

    let ghost bytes = text.spec_bytes();
    let mut result: Vec<Token> = Vec::new();
    let mut cursor: usize = 0;
    let mut char_offset: usize = 0;
    let mut i: usize = 0;
    while i < tokens.len()
        invariant
            bytes == text.spec_bytes(),
            i <= tokens.len(),
            cursor == cursor_after(bytes, tokens@, i as int),
            cursor <= bytes.len(),
            is_boundary(bytes, cursor as int),
            char_offset == chars_starting_in(bytes, 0, cursor as int),
            result.len() == i,
            forall|j: int|
                0 <= j < i ==> (#[trigger] result[j]).is_for(
                    tokens[j],
                    char_offset_from(bytes, tokens@, j),
                    char_offset_to(bytes, tokens@, j),
                ),
        decreases tokens.len() - i,
    {
        let token = &tokens[i];
        let ghost at_start = cursor as int;
        let passed = count_chars_until_offset(text, &mut cursor, token.offset_from);
        proof {
            lemma_starts_add(bytes, 0, at_start, cursor as int);
            lemma_starts_bound(bytes, 0, cursor as int);
        }
        char_offset += passed;
        let char_offset_from = char_offset;
        let ghost at_from = cursor as int;
        let passed = count_chars_until_offset(text, &mut cursor, token.offset_to);
        proof {
            lemma_starts_add(bytes, 0, at_from, cursor as int);
            lemma_starts_bound(bytes, 0, cursor as int);
        }
        char_offset += passed;
        let char_offset_to = char_offset;
        result.push(Token::new(token, char_offset_from, char_offset_to));
        i += 1;
    }
    proof {
        if in_text_order(bytes, tokens@) {
            assert forall|i: int| 0 <= i < tokens.len() implies (#[trigger] result[i]).is_for(
                tokens[i],
                chars_before(bytes, tokens[i].offset_from as int),
                chars_before(bytes, tokens[i].offset_to as int),
            ) by {
                lemma_offsets_count_characters(bytes, tokens@, i);
                lemma_starts_are_characters(bytes, tokens[i].offset_from as int);
                lemma_starts_are_characters(bytes, tokens[i].offset_to as int);
            }
        }
    }
    result
}

/// Runs a text through a pipeline and gives each token its offsets in code
/// points beside those in bytes, however many bytes the characters in front
/// of the token take. The pipeline keeps its filters.
pub fn text_analyzer_tokenize(analyzer: &mut Pipeline, text: &str) -> (r: Vec<Token>)
    ensures
        in_text_order(text.spec_bytes(), pipeline_tokens(old(analyzer)@, text@)),
        code_point_offsets(r@, text.spec_bytes(), pipeline_tokens(old(analyzer)@, text@)),
        final(analyzer)@ == old(analyzer)@,
{
    let tokens = analyzer_tokens(analyzer, text);
    with_char_offsets(text, &tokens)
}

/// The texts of `tokens`, in order.
pub open spec fn token_texts(tokens: Seq<RawToken>) -> Seq<Seq<char>> {
    Seq::new(tokens.len(), |i: int| tokens[i].text@)
}

/// The texts of a vector of strings, in order.
pub open spec fn texts_of(strings: Seq<String>) -> Seq<Seq<char>> {
    Seq::new(strings.len(), |i: int| strings[i]@)
}

fn texts(tokens: Vec<RawToken>) -> (r: Vec<String>)
    ensures
        texts_of(r@) == token_texts(tokens@),
{
    let mut result: Vec<String> = Vec::new();
    let mut i: usize = 0;
    while i < tokens.len()
        invariant
            i <= tokens.len(),
            result.len() == i,
            forall|j: int| 0 <= j < i ==> (#[trigger] result[j])@ == tokens[j].text@,
        decreases tokens.len() - i,
    {
        result.push(tokens[i].text.clone());
        i += 1;
    }
    result
}

/// The texts of the tokens that the engine's simple tokenizer finds in
/// `input`.
pub fn simple_tokenize(input: &str) -> (r: Vec<String>)
    ensures
        texts_of(r@) == token_texts(simple_tokens(input@)),
{
    texts(simple_tokenizer_tokens(input))
}

/// The texts of the tokens that the engine's whitespace tokenizer finds in
/// `input`.
pub fn whitespace_tokenize(input: &str) -> (r: Vec<String>)
    ensures
        texts_of(r@) == token_texts(whitespace_tokens(input@)),
{
    texts(whitespace_tokenizer_tokens(input))
}

/// Whether the tokens lie in the text one behind the other: each starts and
/// ends at a character boundary within the text, does not end before it
/// starts, and does not start before the token in front of it ends.
pub open spec fn in_text_order(bytes: Seq<u8>, tokens: Seq<RawToken>) -> bool {
    forall|i: int|
        0 <= i < tokens.len() ==> {
            &&& (#[trigger] tokens[i]).offset_from <= tokens[i].offset_to <= bytes.len()
            &&& is_boundary(bytes, tokens[i].offset_from as int)
            &&& is_boundary(bytes, tokens[i].offset_to as int)
            &&& i > 0 ==> tokens[i - 1].offset_to <= tokens[i].offset_from
        }
}

proof fn lemma_cursor_in_text_order(bytes: Seq<u8>, tokens: Seq<RawToken>, count: int)
    requires
        in_text_order(bytes, tokens),
        0 <= count <= tokens.len(),
    ensures
        cursor_after(bytes, tokens, count) == if count == 0 {
            0
        } else {
            tokens[count - 1].offset_to as int
        },
        count < tokens.len() ==> cursor_before_end(bytes, tokens, count)
            == tokens[count].offset_from,
    decreases count,
{
    if count > 0 {
        lemma_cursor_in_text_order(bytes, tokens, count - 1);
    }
}

/// Character offsets are code-point offsets: where the tokens lie in the text
/// one behind the other, the character offsets of each token are the numbers
/// of characters that start before its first byte and before the byte behind
/// its last, however many bytes those characters take.
pub proof fn lemma_offsets_count_characters(bytes: Seq<u8>, tokens: Seq<RawToken>, index: int)
    requires
        in_text_order(bytes, tokens),
        0 <= index < tokens.len(),
    ensures
        char_offset_from(bytes, tokens, index) == chars_starting_in(
            bytes,
            0,
            tokens[index].offset_from as int,
        ),
        char_offset_to(bytes, tokens, index) == chars_starting_in(
            bytes,
            0,
            tokens[index].offset_to as int,
        ),
{
    lemma_cursor_in_text_order(bytes, tokens, index);
    lemma_cursor_in_text_order(bytes, tokens, index + 1);
}

/// Behind the first character, the boundaries of a text are those of the
/// rest of the text, moved by the length of the first character.
proof fn lemma_boundary_behind_first(bytes: Seq<u8>, position: int)
    requires
        valid_utf8(bytes),
        bytes.len() > 0,
        0 < position,
    ensures
        is_boundary(bytes, position) == is_boundary(
            pop_first_scalar(bytes),
            position - length_of_first_scalar(bytes),
        ),
        0 < position < length_of_first_scalar(bytes) ==> !is_boundary(bytes, position),
        valid_utf8(pop_first_scalar(bytes)),
        1 <= length_of_first_scalar(bytes) <= bytes.len(),
{
    reveal_with_fuel(valid_utf8, 2);
    reveal_with_fuel(is_char_boundary, 2);
}

proof fn lemma_starts_behind_first(bytes: Seq<u8>, from: int, to: int)
    requires
        valid_utf8(bytes),
        bytes.len() > 0,
        length_of_first_scalar(bytes) <= from <= to,
    ensures
        chars_starting_in(bytes, from, to) == chars_starting_in(
            pop_first_scalar(bytes),
            from - length_of_first_scalar(bytes),
            to - length_of_first_scalar(bytes),
        ),
    decreases to - from,
{
    if from < to {
        lemma_starts_behind_first(bytes, from, to - 1);
        lemma_boundary_behind_first(bytes, to - 1);
    }
}

/// Character offsets count characters: up to a character boundary, the
/// number of characters that start in a text is the number of characters that
/// the bytes in front of the boundary are the encoding of.
pub proof fn lemma_starts_are_characters(bytes: Seq<u8>, boundary: int)
    requires
        0 <= boundary <= bytes.len(),
        is_boundary(bytes, boundary),
    ensures
        chars_starting_in(bytes, 0, boundary) == decode_utf8(bytes.subrange(0, boundary)).len(),
    decreases bytes.len(),
{
    let front = bytes.subrange(0, boundary);
    if boundary != 0 {
        let k = length_of_first_scalar(bytes);
        let rest = pop_first_scalar(bytes);
        lemma_boundary_behind_first(bytes, boundary);
        assert(k <= boundary) by {
            reveal_with_fuel(is_char_boundary, 2);
        }
        lemma_starts_are_characters(rest, boundary - k);
        lemma_starts_add(bytes, 0, k, boundary);
        lemma_starts_behind_first(bytes, k, boundary);
        assert(chars_starting_in(bytes, 0, k) == 1) by {
            lemma_starts_add(bytes, 0, 1, k);
            assert forall|b: int| 1 <= b < k implies !is_boundary(bytes, b) by {
                lemma_boundary_behind_first(bytes, b);
            }
            lemma_no_starts(bytes, 1, k);
            assert(chars_starting_in(bytes, 0, 0) == 0);
        }
        vstd::utf8::valid_utf8_split(bytes, boundary);
        reveal_with_fuel(valid_utf8, 2);
        assert(pop_first_scalar(front) =~= rest.subrange(0, boundary - k));
    }
}

} // verus!
