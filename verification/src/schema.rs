//! Schema compilation: from an ordered mapping of field names to field
//! descriptors to a schema of the engine.

use crate::boxcell::BoxCell;
use crate::descriptor::FieldDescriptor;
use crate::descriptor::IndexDetail;
use crate::descriptor::NumericOption;
use crate::descriptor::TextOption;
use crate::engine::BridgeError;
use ordermap::OrderMap;
use tantivy::schema::NumericOptions;
use tantivy::schema::Schema;
use tantivy::schema::SchemaBuilder;
use tantivy::schema::TextFieldIndexing;
use tantivy::schema::TextOptions;
use tantivy::TantivyDocument;
use vstd::prelude::*;

verus! {

/// How a text field is indexed.
pub struct TextIndexingModel {
    /// Name of the tokenizer that splits the field's text into terms.
    pub tokenizer: Seq<char>,
    /// Detail recorded for each term.
    pub record: IndexDetail,
    /// Whether the field's length is recorded for scoring.
    pub fieldnorms: bool,
}

/// What the engine's options for a text field say.
pub struct TextOptionsModel {
    /// How the field is indexed; `None` where it is not.
    pub indexing: Option<TextIndexingModel>,
    pub stored: bool,
    pub fast: bool,
    pub coerce: bool,
}

/// What the engine's options for a numeric field say.
pub struct NumericOptionsModel {
    pub indexed: bool,
    pub fieldnorms: bool,
    pub fast: bool,
    pub stored: bool,
    pub coerce: bool,
}

/// The type of a compiled field, with its options.
pub enum FieldTypeModel {
    /// A text field, tokenized or not.
    Str(TextOptionsModel),
    /// A 64-bit floating-point field.
    F64(NumericOptionsModel),
}

/// One field of a schema. Its id is its position in the schema.
pub struct FieldModel {
    pub name: Seq<char>,
    pub field_type: FieldTypeModel,
}

impl TextOptionsModel {
    /// The engine's preset for tokenized text.
    pub open spec fn text() -> Self {
        TextOptionsModel {
            indexing: Some(
                TextIndexingModel {
                    tokenizer: "default"@,
                    record: IndexDetail::WithFreqsAndPositions,
                    fieldnorms: true,
                },
            ),
            stored: false,
            fast: false,
            coerce: false,
        }
    }

    /// The engine's preset for untokenized strings.
    pub open spec fn string() -> Self {
        TextOptionsModel {
            indexing: Some(
                TextIndexingModel {
                    tokenizer: "raw"@,
                    record: IndexDetail::Basic,
                    fieldnorms: true,
                },
            ),
            stored: false,
            fast: false,
            coerce: false,
        }
    }
}

impl NumericOptionsModel {
    /// Options that neither index nor store.
    pub open spec fn none() -> Self {
        NumericOptionsModel {
            indexed: false,
            fieldnorms: false,
            fast: false,
            stored: false,
            coerce: false,
        }
    }
}

#[verifier::external_type_specification]
#[verifier::external_body]
pub struct ExTextOptions(TextOptions);

#[verifier::external_type_specification]
#[verifier::external_body]
pub struct ExTextFieldIndexing(TextFieldIndexing);

#[verifier::external_type_specification]
#[verifier::external_body]
pub struct ExNumericOptions(NumericOptions);

#[verifier::external_type_specification]
#[verifier::external_body]
pub struct ExSchemaBuilder(SchemaBuilder);

#[verifier::external_type_specification]
#[verifier::external_body]
pub struct ExSchema(Schema);

#[verifier::external_type_specification]
pub struct ExIndexRecordOption(tantivy::schema::IndexRecordOption);

/// What a value of the engine's text options says.
pub uninterp spec fn text_options_model(options: TextOptions) -> TextOptionsModel;

/// What a value of the engine's text indexing options says.
pub uninterp spec fn text_indexing_model(indexing: TextFieldIndexing) -> TextIndexingModel;

/// What a value of the engine's numeric options says.
pub uninterp spec fn numeric_options_model(options: NumericOptions) -> NumericOptionsModel;

/// The fields that a schema builder holds, in the order in which they were
/// added.
pub uninterp spec fn schema_builder_fields(builder: SchemaBuilder) -> Seq<FieldModel>;

/// The fields of a schema, by field id.
pub uninterp spec fn schema_fields(schema: Schema) -> Seq<FieldModel>;

/// The detail level as the engine names it.
pub open spec fn record_of(record: tantivy::schema::IndexRecordOption) -> IndexDetail {
    match record {
        tantivy::schema::IndexRecordOption::Basic => IndexDetail::Basic,
        tantivy::schema::IndexRecordOption::WithFreqs => IndexDetail::WithFreqs,
        tantivy::schema::IndexRecordOption::WithFreqsAndPositions => {
            IndexDetail::WithFreqsAndPositions
        },
    }
}

/// The engine's name for a detail level.
pub fn engine_record(value: IndexDetail) -> (r: tantivy::schema::IndexRecordOption)
    ensures
        record_of(r) == value,
{
    match value {
        IndexDetail::Basic => tantivy::schema::IndexRecordOption::Basic,
        IndexDetail::WithFreqs => tantivy::schema::IndexRecordOption::WithFreqs,
        IndexDetail::WithFreqsAndPositions => {
            tantivy::schema::IndexRecordOption::WithFreqsAndPositions
        },
    }
}

/// The constant `TEXT` of tantivy: indexed through the tokenizer "default",
/// with frequencies, positions and field norms; no flag set.
#[verifier::external_body]
fn text_preset() -> (r: TextOptions)
    ensures
        text_options_model(r) == TextOptionsModel::text(),
{
    tantivy::schema::TEXT
}

/// The constant `STRING` of tantivy: indexed through the tokenizer "raw",
/// document ids only, with field norms; no flag set.
#[verifier::external_body]
fn string_preset() -> (r: TextOptions)
    ensures
        text_options_model(r) == TextOptionsModel::string(),
{
    tantivy::schema::STRING
}

/// `|` of tantivy on text options and its flag `STORED`: the same options,
/// marked as stored.
#[verifier::external_body]
fn text_options_stored(options: TextOptions) -> (r: TextOptions)
    ensures
        text_options_model(r) == (TextOptionsModel {
            stored: true,
            ..text_options_model(options)
        }),
{
    options | tantivy::schema::STORED
}

/// `TextOptions::set_indexing_options` of tantivy: the same options, indexed
/// as `indexing` says.
pub assume_specification[ TextOptions::set_indexing_options ](
    options: TextOptions,
    indexing: TextFieldIndexing,
) -> (r: TextOptions)
    ensures
        text_options_model(r) == (TextOptionsModel {
            indexing: Some(text_indexing_model(indexing)),
            ..text_options_model(options)
        }),
;

/// `TextFieldIndexing::default` of tantivy: the tokenizer "default", document
/// ids only, with field norms.
#[verifier::external_body]
fn text_indexing_default() -> (r: TextFieldIndexing)
    ensures
        text_indexing_model(r) == (TextIndexingModel {
            tokenizer: "default"@,
            record: IndexDetail::Basic,
            fieldnorms: true,
        }),
{
    TextFieldIndexing::default()
}

/// `TextFieldIndexing::set_tokenizer` of tantivy: the same indexing, through
/// the tokenizer of the given name.
pub assume_specification[ TextFieldIndexing::set_tokenizer ](
    indexing: TextFieldIndexing,
    tokenizer_name: &str,
) -> (r: TextFieldIndexing)
    ensures
        text_indexing_model(r) == (TextIndexingModel {
            tokenizer: tokenizer_name@,
            ..text_indexing_model(indexing)
        }),
;

/// `TextFieldIndexing::set_index_option` of tantivy: the same indexing, at
/// the given detail level.
pub assume_specification[ TextFieldIndexing::set_index_option ](
    indexing: TextFieldIndexing,
    index_option: tantivy::schema::IndexRecordOption,
) -> (r: TextFieldIndexing)
    ensures
        text_indexing_model(r) == (TextIndexingModel {
            record: record_of(index_option),
            ..text_indexing_model(indexing)
        }),
;

/// `NumericOptions::default` of tantivy: every flag off.
#[verifier::external_body]
fn numeric_options_default() -> (r: NumericOptions)
    ensures
        numeric_options_model(r) == NumericOptionsModel::none(),
{
    NumericOptions::default()
}

/// `|` of tantivy on numeric options and its flag `STORED`: the same options,
/// marked as stored.
#[verifier::external_body]
fn numeric_options_stored(options: NumericOptions) -> (r: NumericOptions)
    ensures
        numeric_options_model(r) == (NumericOptionsModel {
            stored: true,
            ..numeric_options_model(options)
        }),
{
    options | tantivy::schema::STORED
}

/// `|` of tantivy on numeric options and its flag `INDEXED`: the same
/// options, marked as indexed and as recording field norms.
#[verifier::external_body]
fn numeric_options_indexed(options: NumericOptions) -> (r: NumericOptions)
    ensures
        numeric_options_model(r) == (NumericOptionsModel {
            indexed: true,
            fieldnorms: true,
            ..numeric_options_model(options)
        }),
{
    options | tantivy::schema::INDEXED
}

#[verifier::external_type_specification]
#[verifier::external_body]
#[verifier::reject_recursive_types(K)]
#[verifier::reject_recursive_types(V)]
#[verifier::reject_recursive_types(S)]
pub struct ExOrderMap<K, V, S>(OrderMap<K, V, S>);

/// The entries of a schema descriptor, in the order in which their names
/// were first inserted.
pub uninterp spec fn descriptor_entries(descriptor: OrderMap<String, FieldDescriptor>) -> Seq<
    (Seq<char>, FieldDescriptor),
>;

/// `OrderMap::len` of ordermap: the number of entries. As in any map, no two
/// entries have the same key.
#[verifier::external_body]
fn descriptor_len(descriptor: &OrderMap<String, FieldDescriptor>) -> (r: usize)
    ensures
        r == descriptor_entries(*descriptor).len(),
        forall|i: int, j: int|
            0 <= i < j < r ==> descriptor_entries(*descriptor)[i].0 != descriptor_entries(
                *descriptor,
            )[j].0,
{
    descriptor.len()
}

/// `OrderMap::get_index` of ordermap: the entry at a position, if the
/// position is below the length.
#[verifier::external_body]
fn descriptor_at(descriptor: &OrderMap<String, FieldDescriptor>, index: usize) -> (r: Option<
    (&String, &FieldDescriptor),
>)
    ensures
        r is Some <==> index < descriptor_entries(*descriptor).len(),
        r matches Some(entry) ==> entry.0@ == descriptor_entries(*descriptor)[index as int].0
            && *entry.1 == descriptor_entries(*descriptor)[index as int].1,
{
    descriptor.get_index(index)
}

/// Whether the engine takes `name` as the name of a field: it is not empty
/// and does not begin with a hyphen.
pub open spec fn valid_field_name(name: Seq<char>) -> bool {
    name.len() > 0 && name[0] != '-'
}

/// Whether a field of the given name is among `fields`.
pub open spec fn has_field(fields: Seq<FieldModel>, name: Seq<char>) -> bool {
    exists|i: int| 0 <= i < fields.len() && #[trigger] fields[i].name == name
}

/// `Schema::builder` of tantivy: a builder that holds no field yet.
pub assume_specification[ Schema::builder ]() -> (r: SchemaBuilder)
    ensures
        schema_builder_fields(r) == Seq::<FieldModel>::empty(),
;

/// `SchemaBuilder::add_text_field` of tantivy: appends a text field with the
/// given name and options. It panics on a name that is empty or begins with
/// a hyphen, and where the builder already holds a field of that name; both
/// are ruled out by `requires`.
#[verifier::external_body]
fn builder_add_text_field(builder: &mut SchemaBuilder, name: &str, options: TextOptions)
    requires
        valid_field_name(name@),
        !has_field(schema_builder_fields(*old(builder)), name@),
    ensures
        schema_builder_fields(*final(builder)) == schema_builder_fields(*old(builder)).push(
            FieldModel {
                name: name@,
                field_type: FieldTypeModel::Str(text_options_model(options)),
            },
        ),
{
    builder.add_text_field(name, options);
}

/// `SchemaBuilder::add_f64_field` of tantivy: appends a floating-point field
/// with the given name and options. It panics on a name that is empty or
/// begins with a hyphen, and where the builder already holds a field of that
/// name; both are ruled out by `requires`.
#[verifier::external_body]
fn builder_add_f64_field(builder: &mut SchemaBuilder, name: &str, options: NumericOptions)
    requires
        valid_field_name(name@),
        !has_field(schema_builder_fields(*old(builder)), name@),
    ensures
        schema_builder_fields(*final(builder)) == schema_builder_fields(*old(builder)).push(
            FieldModel {
                name: name@,
                field_type: FieldTypeModel::F64(numeric_options_model(options)),
            },
        ),
{
    builder.add_f64_field(name, options);
}

/// `SchemaBuilder::build` of tantivy: the schema of the builder's fields, in
/// the builder's order.
pub assume_specification[ SchemaBuilder::build ](builder: SchemaBuilder) -> (r: Schema)
    ensures
        schema_fields(r) == schema_builder_fields(builder),
;

/// Whether a list of text flags asks for the field to be stored.
pub open spec fn text_flags_stored(flags: Option<Vec<TextOption>>) -> bool {
    flags matches Some(list) && list@.contains(TextOption::STORED)
}

/// Whether a list of numeric flags holds the given flag.
pub open spec fn numeric_flags_hold(flags: Option<Vec<NumericOption>>, flag: NumericOption) -> bool {
    flags matches Some(list) && list@.contains(flag)
}

/// How a text field with the given tokenizer and detail level is indexed:
/// through the named tokenizer, or the engine's default one where none is
/// named, and at the declared detail level. Where no level is declared, a
/// field with a named tokenizer records document ids only, and one without
/// has the level of the engine's preset for text.
pub open spec fn compiled_indexing(
    tokenizer: Option<String>,
    index: Option<IndexDetail>,
) -> TextIndexingModel {
    TextIndexingModel {
        tokenizer: match tokenizer {
            Some(name) => name@,
            None => "default"@,
        },
        record: match index {
            Some(detail) => detail,
            None => if tokenizer is Some {
                IndexDetail::Basic
            } else {
                IndexDetail::WithFreqsAndPositions
            },
        },
        fieldnorms: true,
    }
}

/// The field that a descriptor compiles to under a given name.
pub open spec fn compiled_field(name: Seq<char>, descriptor: FieldDescriptor) -> FieldModel {
    FieldModel {
        name,
        field_type: match descriptor {
            FieldDescriptor::Text { flags, tokenizer, index } => FieldTypeModel::Str(
                TextOptionsModel {
                    indexing: Some(compiled_indexing(tokenizer, index)),
                    stored: text_flags_stored(flags),
                    fast: false,
                    coerce: false,
                },
            ),
            FieldDescriptor::String { flags } => FieldTypeModel::Str(
                TextOptionsModel {
                    stored: text_flags_stored(flags),
                    ..TextOptionsModel::string()
                },
            ),
            FieldDescriptor::F64 { flags } => FieldTypeModel::F64(
                NumericOptionsModel {
                    indexed: numeric_flags_hold(flags, NumericOption::INDEXED),
                    fieldnorms: numeric_flags_hold(flags, NumericOption::INDEXED),
                    fast: false,
                    stored: numeric_flags_hold(flags, NumericOption::STORED),
                    coerce: false,
                },
            ),
        },
    }
}

/// The fields that a schema descriptor compiles to: one per entry, in the
/// order of the entries.
pub open spec fn compiled_schema(entries: Seq<(Seq<char>, FieldDescriptor)>) -> Seq<FieldModel> {
    Seq::new(entries.len(), |i: int| compiled_field(entries[i].0, entries[i].1))
}

/// Applies a list of text flags to text options.
fn apply_text_flags(options: TextOptions, flags: &Option<Vec<TextOption>>) -> (r: TextOptions)
    ensures
        text_options_model(r) == (TextOptionsModel {
            stored: text_options_model(options).stored || text_flags_stored(*flags),
            ..text_options_model(options)
        }),
{
    let mut options = options;
    if let Some(list) = flags {
        let ghost start = text_options_model(options);
        let mut i: usize = 0;
        while i < list.len()
            invariant
                i <= list.len(),
                text_options_model(options) == (TextOptionsModel {
                    stored: start.stored || list@.take(i as int).contains(TextOption::STORED),
                    ..start
                }),
            decreases list.len() - i,
        {
            proof {
                assert(list@.take(i + 1) == list@.take(i as int).push(list@[i as int]));
                assert forall|f: TextOption| list@.take(i + 1).contains(f) <==> (list@.take(
                    i as int,
                ).contains(f) || f == list@[i as int]) by {
                    vstd::seq_lib::lemma_seq_contains_after_push(
                        list@.take(i as int),
                        list@[i as int],
                        f,
                    );
                }
            }
            options = match list[i] {
                TextOption::STORED => text_options_stored(options),
            };
            i += 1;
        }
        proof {
            assert(list@.take(i as int) == list@);
        }
    }
    options
}

/// Applies a list of numeric flags to numeric options.
fn apply_numeric_flags(options: NumericOptions, flags: &Option<Vec<NumericOption>>) -> (r:
    NumericOptions)
    ensures
        numeric_options_model(r) == (NumericOptionsModel {
            stored: numeric_options_model(options).stored || numeric_flags_hold(
                *flags,
                NumericOption::STORED,
            ),
            indexed: numeric_options_model(options).indexed || numeric_flags_hold(
                *flags,
                NumericOption::INDEXED,
            ),
            fieldnorms: numeric_options_model(options).fieldnorms || numeric_flags_hold(
                *flags,
                NumericOption::INDEXED,
            ),
            ..numeric_options_model(options)
        }),
{
    let mut options = options;
    if let Some(list) = flags {
        let ghost start = numeric_options_model(options);
        let mut i: usize = 0;
        while i < list.len()
            invariant
                i <= list.len(),
                numeric_options_model(options) == (NumericOptionsModel {
                    stored: start.stored || list@.take(i as int).contains(NumericOption::STORED),
                    indexed: start.indexed || list@.take(i as int).contains(
                        NumericOption::INDEXED,
                    ),
                    fieldnorms: start.fieldnorms || list@.take(i as int).contains(
                        NumericOption::INDEXED,
                    ),
                    ..start
                }),
            decreases list.len() - i,
        {
            proof {
                assert(list@.take(i + 1) == list@.take(i as int).push(list@[i as int]));
                assert forall|f: NumericOption| list@.take(i + 1).contains(f) <==> (list@.take(
                    i as int,
                ).contains(f) || f == list@[i as int]) by {
                    vstd::seq_lib::lemma_seq_contains_after_push(
                        list@.take(i as int),
                        list@[i as int],
                        f,
                    );
                }
            }
            options = match list[i] {
                NumericOption::STORED => numeric_options_stored(options),
                NumericOption::INDEXED => numeric_options_indexed(options),
            };
            i += 1;
        }
        proof {
            assert(list@.take(i as int) == list@);
        }
    }
    options
}

/// Compiles one field descriptor and appends the field to the builder.
///
/// The builder gives the new field the next free id. It accepts neither a
/// name that is empty or begins with a hyphen, nor a second field of a name
/// that it already holds: both are ruled out here. [`new_schema`] tests each
/// name first, and never meets a name twice, since the names of a descriptor
/// are distinct.
pub fn add_field(builder: &mut SchemaBuilder, name: &str, options: &FieldDescriptor)
    requires
        valid_field_name(name@),
        !has_field(schema_builder_fields(*old(builder)), name@),
    ensures
        schema_builder_fields(*final(builder)) == schema_builder_fields(*old(builder)).push(
            compiled_field(name@, *options),
        ),
{
    match options {
        FieldDescriptor::Text { flags, tokenizer, index } => {
            let mut options = text_preset();
            options = apply_text_flags(options, flags);
            match (tokenizer, index) {
                (Some(tokenizer), Some(index)) => {
                    let text_field_indexing = text_indexing_default().set_tokenizer(
                        tokenizer.as_str(),
                    ).set_index_option(engine_record(*index));
                    options = options.set_indexing_options(text_field_indexing);
                },
                (Some(tokenizer), None) => {
                    let text_field_indexing = text_indexing_default().set_tokenizer(
                        tokenizer.as_str(),
                    ).set_index_option(tantivy::schema::IndexRecordOption::Basic);
                    options = options.set_indexing_options(text_field_indexing);
                },
                (None, Some(index)) => {
                    let text_field_indexing = text_indexing_default().set_index_option(
                        engine_record(*index),
                    );
                    options = options.set_indexing_options(text_field_indexing);
                },
                (None, None) => {},
            }
            builder_add_text_field(builder, name, options);
        },
        FieldDescriptor::String { flags } => {
            let mut options = string_preset();
            options = apply_text_flags(options, flags);
            builder_add_text_field(builder, name, options);
        },
        FieldDescriptor::F64 { flags } => {
            let options = apply_numeric_flags(numeric_options_default(), flags);
            builder_add_f64_field(builder, name, options);
        },
    }
}

/// A schema that this library has compiled: every one comes from
/// [`new_schema`].
pub struct CompiledSchema {
    schema: Schema,
}

impl View for CompiledSchema {
    type V = Seq<FieldModel>;

    /// The fields of the schema, by field id.
    closed spec fn view(&self) -> Seq<FieldModel> {
        schema_fields(self.schema)
    }
}

impl CompiledSchema {
    /// Lends the engine's schema.
    pub fn as_schema(&self) -> (r: &Schema)
        ensures
            schema_fields(*r) == self@,
    {
        &self.schema
    }
}

/// What the engine makes of a document, given as JSON text, for a schema
/// with the given fields: the document, or the message with which it refuses
/// the text.
pub uninterp spec fn parsed_document(fields: Seq<FieldModel>, document: Seq<char>) -> Result<
    TantivyDocument,
    Seq<char>,
>;

/// `TantivyDocument::parse_json` of tantivy, with the error handed out as its
/// message: the document that the JSON text describes, or the reason why the
/// text describes none for this schema. For a schema of text and number
/// fields, as this library compiles them, the outcome depends on the schema's
/// fields and the text alone.
#[verifier::external_body]
pub(crate) fn parse_json(schema: &CompiledSchema, document: &str) -> (r: Result<TantivyDocument, String>)
    ensures
        match r {
            Ok(parsed) => parsed_document(schema@, document@) == Ok::<TantivyDocument, Seq<char>>(
                parsed,
            ),
            Err(message) => parsed_document(schema@, document@) == Err::<
                TantivyDocument,
                Seq<char>,
            >(message@),
        },
{
    TantivyDocument::parse_json(&schema.schema, document).map_err(|error| error.to_string())
}

/// Whether `index` is the position of the first entry whose name the engine
/// does not take as the name of a field.
pub open spec fn first_invalid_name(entries: Seq<(Seq<char>, FieldDescriptor)>, index: int) -> bool {
    &&& 0 <= index < entries.len()
    &&& !valid_field_name(entries[index].0)
    &&& forall|j: int| 0 <= j < index ==> valid_field_name(#[trigger] entries[j].0)
}

/// Whether every entry has a name that the engine takes as the name of a
/// field.
pub open spec fn valid_names(entries: Seq<(Seq<char>, FieldDescriptor)>) -> bool {
    forall|i: int| 0 <= i < entries.len() ==> valid_field_name(#[trigger] entries[i].0)
}

/// The message for a name that the engine does not take as the name of a
/// field.
pub open spec fn invalid_name_text(name: Seq<char>) -> Seq<char> {
    "a field name must not be empty or begin with a hyphen: "@ + name
}

fn is_valid_field_name(name: &str) -> (r: bool)
    ensures
        r == valid_field_name(name@),
{
    if name.is_empty() {
        false
    } else {
        name.get_char(0) != '-'
    }
}

/// Compiles a schema descriptor: one field per entry, in the order of the
/// entries, so that the id of a field is the position of its entry.
///
/// A name that is empty or begins with a hyphen is refused as an invalid
/// argument, the first such name in the order of the entries, before the
/// engine sees it.
///
/// The names of a descriptor are distinct, as the keys of any map are. Where
/// a host value names a field twice, the mapping built from it keeps the
/// first position and the last descriptor, and so does the schema.
pub fn new_schema(descriptor: &OrderMap<String, FieldDescriptor>) -> (r: Result<
    BoxCell<CompiledSchema>,
    BridgeError,
>)
    ensures
        match r {
            Ok(cell) => valid_names(descriptor_entries(*descriptor)) && (cell@ matches Some(
                schema,
            ) && schema@ == compiled_schema(descriptor_entries(*descriptor))),
            Err(error) => exists|index: int|
                first_invalid_name(descriptor_entries(*descriptor), index) && (
                error matches BridgeError::InvalidArgument(message) && message@
                    == invalid_name_text(#[trigger] descriptor_entries(*descriptor)[index].0)),
        },
{
    let mut builder = Schema::builder();
    let count = descriptor_len(descriptor);
    let ghost entries = descriptor_entries(*descriptor);
    let mut i: usize = 0;
    while i < count
        invariant
            i <= count,
            count == entries.len(),
            entries == descriptor_entries(*descriptor),
            forall|a: int, b: int| 0 <= a < b < count ==> entries[a].0 != entries[b].0,
            forall|j: int| 0 <= j < i ==> valid_field_name(#[trigger] entries[j].0),
            schema_builder_fields(builder) == compiled_schema(entries.take(i as int)),
        decreases count - i,
    {
        match descriptor_at(descriptor, i) {
            Some((field_name, options)) => {
                if !is_valid_field_name(field_name.as_str()) {
                    let mut message = String::from_str(
                        "a field name must not be empty or begin with a hyphen: ",
                    );
                    message.append(field_name.as_str());
                    proof {
                        assert(first_invalid_name(entries, i as int));
                    }
                    return Err(BridgeError::InvalidArgument(message));
                }
                proof {
                    let fields = schema_builder_fields(builder);
                    assert forall|k: int| 0 <= k < fields.len() implies fields[k].name
                        != field_name@ by {
                        assert(fields[k].name == entries[k].0);
                    }
                    assert(!has_field(fields, field_name@));
                    assert(compiled_schema(entries.take(i + 1)) == compiled_schema(
                        entries.take(i as int),
                    ).push(compiled_field(field_name@, *options)));
                }
                add_field(&mut builder, field_name.as_str(), options);
            },
            None => {},
        }
        i += 1;
    }
    proof {
        assert(entries.take(i as int) == entries);
    }
    Ok(BoxCell::new(CompiledSchema { schema: builder.build() }))
}

impl FieldModel {
    /// Whether the field's value is kept for retrieval.
    pub open spec fn stored(self) -> bool {
        match self.field_type {
            FieldTypeModel::Str(options) => options.stored,
            FieldTypeModel::F64(options) => options.stored,
        }
    }

    /// Whether the field can be searched.
    pub open spec fn indexed(self) -> bool {
        match self.field_type {
            FieldTypeModel::Str(options) => options.indexing is Some,
            FieldTypeModel::F64(options) => options.indexed,
        }
    }

    /// How the field's text is indexed; `None` for a field that is no text
    /// field or is not indexed.
    pub open spec fn indexing(self) -> Option<TextIndexingModel> {
        match self.field_type {
            FieldTypeModel::Str(options) => options.indexing,
            FieldTypeModel::F64(_) => None,
        }
    }
}

/// Whether `id` is the id of the field called `name`.
pub open spec fn is_field_id(fields: Seq<FieldModel>, name: Seq<char>, id: int) -> bool {
    0 <= id < fields.len() && fields[id].name == name
}

/// `Schema::num_fields` of tantivy: the number of fields.
pub assume_specification[ Schema::num_fields ](schema: &Schema) -> (r: usize)
    ensures
        r == schema_fields(*schema).len(),
;

/// `Schema::get_field` of tantivy, with the field handed out as its id: the
/// id of the field of the given name, or nothing where the schema has no such
/// field.
#[verifier::external_body]
fn schema_get_field(schema: &Schema, name: &str) -> (r: Option<u32>)
    ensures
        r matches Some(id) ==> is_field_id(schema_fields(*schema), name@, id as int),
        r is None ==> !has_field(schema_fields(*schema), name@),
{
    schema.get_field(name).ok().map(|field| field.field_id())
}

/// `Schema::get_field_name` of tantivy: the name of the field with the given
/// id. It panics on an id that the schema does not have, which `requires`
/// rules out.
#[verifier::external_body]
fn schema_field_name(schema: &Schema, id: u32) -> (r: String)
    requires
        id < schema_fields(*schema).len(),
    ensures
        r@ == schema_fields(*schema)[id as int].name,
{
    schema.get_field_name(tantivy::schema::Field::from_field_id(id)).to_string()
}

/// `FieldEntry::is_stored` of tantivy, on the entry that
/// `Schema::get_field_entry` gives for an id that the schema has.
#[verifier::external_body]
fn schema_field_stored(schema: &Schema, id: u32) -> (r: bool)
    requires
        id < schema_fields(*schema).len(),
    ensures
        r == schema_fields(*schema)[id as int].stored(),
{
    schema.get_field_entry(tantivy::schema::Field::from_field_id(id)).is_stored()
}

/// `FieldEntry::is_indexed` of tantivy, on the entry that
/// `Schema::get_field_entry` gives for an id that the schema has.
#[verifier::external_body]
fn schema_field_indexed(schema: &Schema, id: u32) -> (r: bool)
    requires
        id < schema_fields(*schema).len(),
    ensures
        r == schema_fields(*schema)[id as int].indexed(),
{
    schema.get_field_entry(tantivy::schema::Field::from_field_id(id)).is_indexed()
}

/// `TextFieldIndexing::tokenizer` of tantivy, on the indexing options of the
/// field with an id that the schema has: the tokenizer's name, for an indexed
/// text field.
#[verifier::external_body]
fn schema_field_tokenizer(schema: &Schema, id: u32) -> (r: Option<String>)
    requires
        id < schema_fields(*schema).len(),
    ensures
        r is Some <==> schema_fields(*schema)[id as int].indexing() is Some,
        r matches Some(name) ==> name@ == schema_fields(*schema)[id as int].indexing()->Some_0.tokenizer,
{
    match schema.get_field_entry(tantivy::schema::Field::from_field_id(id)).field_type() {
        tantivy::schema::FieldType::Str(options) => options.get_indexing_options().map(
            |indexing| indexing.tokenizer().to_string(),
        ),
        _ => None,
    }
}

/// `TextFieldIndexing::index_option` of tantivy, on the indexing options of
/// the field with an id that the schema has: the detail level, for an indexed
/// text field.
#[verifier::external_body]
fn schema_field_record(schema: &Schema, id: u32) -> (r: Option<tantivy::schema::IndexRecordOption>)
    requires
        id < schema_fields(*schema).len(),
    ensures
        r is Some <==> schema_fields(*schema)[id as int].indexing() is Some,
        r matches Some(record) ==> record_of(record) == schema_fields(
            *schema,
        )[id as int].indexing()->Some_0.record,
{
    match schema.get_field_entry(tantivy::schema::Field::from_field_id(id)).field_type() {
        tantivy::schema::FieldType::Str(options) => options.get_indexing_options().map(
            |indexing| indexing.index_option(),
        ),
        _ => None,
    }
}

/// The library's name for a detail level of the engine.
pub fn index_detail(record: tantivy::schema::IndexRecordOption) -> (r: IndexDetail)
    ensures
        r == record_of(record),
{
    match record {
        tantivy::schema::IndexRecordOption::Basic => IndexDetail::Basic,
        tantivy::schema::IndexRecordOption::WithFreqs => IndexDetail::WithFreqs,
        tantivy::schema::IndexRecordOption::WithFreqsAndPositions => {
            IndexDetail::WithFreqsAndPositions
        },
    }
}

/// What a schema says of one field.
pub struct FieldInfo {
    pub name: String,
    pub stored: bool,
    pub indexed: bool,
    /// Tokenizer of an indexed text field.
    pub tokenizer: Option<String>,
    /// Detail level of an indexed text field.
    pub detail: Option<IndexDetail>,
}

impl FieldInfo {
    /// Whether this is what `field` says.
    pub open spec fn describes(self, field: FieldModel) -> bool {
        &&& self.name@ == field.name
        &&& self.stored == field.stored()
        &&& self.indexed == field.indexed()
        &&& match field.indexing() {
            Some(indexing) => self.tokenizer matches Some(name) && name@ == indexing.tokenizer
                && self.detail == Some(indexing.record),
            None => self.tokenizer is None && self.detail is None,
        }
    }
}

/// The number of fields of a schema.
pub fn field_count(schema: &CompiledSchema) -> (r: usize)
    ensures
        r == schema@.len(),
{
    schema.schema.num_fields()
}

/// The id of the field called `name`, if the schema has one.
pub fn field_id(schema: &CompiledSchema, name: &str) -> (r: Option<u32>)
    ensures
        r matches Some(id) ==> is_field_id(schema@, name@, id as int),
        r is None <==> !has_field(schema@, name@),
{
    let r = schema_get_field(&schema.schema, name);
    proof {
        if let Some(id) = r {
            assert(schema@[id as int].name == name@);
        }
    }
    r
}

/// What the schema says of the field with the given id, if it has one.
pub fn field_info(schema: &CompiledSchema, id: u32) -> (r: Option<FieldInfo>)
    ensures
        r is Some <==> id < schema@.len(),
        r matches Some(info) ==> info.describes(schema@[id as int]),
{
    if (id as usize) < schema.schema.num_fields() {
        let detail = match schema_field_record(&schema.schema, id) {
            Some(record) => Some(index_detail(record)),
            None => None,
        };
        Some(
            FieldInfo {
                name: schema_field_name(&schema.schema, id),
                stored: schema_field_stored(&schema.schema, id),
                indexed: schema_field_indexed(&schema.schema, id),
                tokenizer: schema_field_tokenizer(&schema.schema, id),
                detail,
            },
        )
    } else {
        None
    }
}

/// Whether no two entries have the same name.
pub open spec fn distinct_names(entries: Seq<(Seq<char>, FieldDescriptor)>) -> bool {
    forall|i: int, j: int| 0 <= i < j < entries.len() ==> entries[i].0 != entries[j].0
}

/// Field ids follow the declaration: a descriptor with distinct names
/// compiles to as many fields as it has entries, and the field of each entry
/// has the entry's position as its one and only id.
pub proof fn lemma_field_ids_follow_declaration(
    entries: Seq<(Seq<char>, FieldDescriptor)>,
    position: int,
)
    requires
        distinct_names(entries),
        0 <= position < entries.len(),
    ensures
        compiled_schema(entries).len() == entries.len(),
        compiled_schema(entries)[position] == compiled_field(
            entries[position].0,
            entries[position].1,
        ),
        forall|id: int|
            is_field_id(compiled_schema(entries), entries[position].0, id) <==> id == position,
{
    assert forall|id: int|
        is_field_id(compiled_schema(entries), entries[position].0, id) implies id
        == position by {
        if id < position {
            assert(entries[id].0 != entries[position].0);
        } else if position < id {
            assert(entries[position].0 != entries[id].0);
        }
    }
}

/// Compilation is a function of the descriptor's entries: two schemas
/// compiled from the same entries have the same fields, so every name has the
/// same id in both.
pub proof fn lemma_compilation_is_deterministic(
    first: CompiledSchema,
    second: CompiledSchema,
    entries: Seq<(Seq<char>, FieldDescriptor)>,
)
    requires
        first@ == compiled_schema(entries),
        second@ == compiled_schema(entries),
    ensures
        first@ == second@,
        forall|name: Seq<char>, id: int|
            is_field_id(first@, name, id) <==> is_field_id(second@, name, id),
{
}

} // verus!
