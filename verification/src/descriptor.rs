//! Declarative descriptors: the plain values from which schemas, tokenizer
//! pipelines and readers are compiled.

use vstd::prelude::*;

verus! {

/// How much detail the postings of an indexed text field record.
#[derive(Clone, Copy, Debug, PartialEq, Eq, Structural)]
pub enum IndexDetail {
    /// Document ids only.
    Basic,
    /// Document ids and term frequencies.
    WithFreqs,
    /// Document ids, term frequencies and term positions.
    WithFreqsAndPositions,
}

/// A language for which the engine has a stemmer and a stop-word list.
#[derive(Clone, Copy, Debug, PartialEq, Eq, Structural)]
pub enum LanguageName {
    Arabic,
    Danish,
    Dutch,
    English,
    Finnish,
    French,
    German,
    Greek,
    Hungarian,
    Italian,
    Norwegian,
    Portuguese,
    Romanian,
    Russian,
    Spanish,
    Swedish,
    Tamil,
    Turkish,
}

/// A flag of a text or string field.
#[allow(clippy::upper_case_acronyms)]
#[derive(Clone, Copy, Debug, PartialEq, Eq, Structural)]
pub enum TextOption {
    /// Keep the field's value, so that a search can return it.
    STORED,
}

/// A flag of a numeric field.
#[allow(clippy::upper_case_acronyms)]
#[derive(Clone, Copy, Debug, PartialEq, Eq, Structural)]
pub enum NumericOption {
    /// Keep the field's value, so that a search can return it.
    STORED,
    /// Make the field searchable.
    INDEXED,
}

/// The declared type of one schema field, with its options.
#[derive(Clone, Debug)]
pub enum FieldDescriptor {
    /// Tokenized text, indexed through the named tokenizer, or through the
    /// engine's default one where none is named, at the detail level
    /// `index`. Where no level is given, a field with a named tokenizer has
    /// the least detailed one, and a field without has frequencies and
    /// positions.
    Text { flags: Option<Vec<TextOption>>, tokenizer: Option<String>, index: Option<IndexDetail> },
    /// Text indexed as one untokenized term.
    String { flags: Option<Vec<TextOption>> },
    /// A 64-bit floating-point number.
    F64 { flags: Option<Vec<NumericOption>> },
}

/// When a reader picks up newly committed data.
#[derive(Clone, Copy, Debug, PartialEq, Eq, Structural)]
pub enum ReloadOnPolicy {
    /// By itself, shortly after each commit.
    CommitWithDelay,
    /// Only when asked to.
    Manual,
}

/// A name that is none of the options which the host can choose from at the
/// place where it stands.
#[derive(Clone, Debug)]
pub struct UnknownOption {
    pub name: String,
}

/// Whether `r` is the answer to a name that stands for `option`: the option,
/// or the name as an unknown one.
pub open spec fn known<T>(option: Option<T>, name: Seq<char>, r: Result<T, UnknownOption>) -> bool {
    match r {
        Ok(value) => option == Some(value),
        Err(error) => option is None && error.name@ == name,
    }
}

fn is_named(name: &String, literal: &str) -> (r: bool)
    ensures
        r == (name@ == literal@),
{
    let other = String::from_str(literal);
    *name == other
}

/// An option that the host chooses by its name.
pub trait HostName: Sized {
    /// The option that the host calls `name`, if there is one.
    spec fn named(name: Seq<char>) -> Option<Self>;

    /// The option that the host calls `name`; any other name is refused.
    fn from_name(name: &String) -> (r: Result<Self, UnknownOption>)
        ensures
            known(Self::named(name@), name@, r),
    ;
}

impl HostName for IndexDetail {
    /// The detail level that the host calls `name`, if there is one.
    open spec fn named(name: Seq<char>) -> Option<IndexDetail> {
        if name == "BASIC"@ {
            Some(IndexDetail::Basic)
        } else if name == "WITH_FREQS"@ {
            Some(IndexDetail::WithFreqs)
        } else if name == "WITH_FREQS_AND_POSITIONS"@ {
            Some(IndexDetail::WithFreqsAndPositions)
        } else {
            None
        }
    }

    /// The detail level that the host calls `name`; any other name is refused.
    fn from_name(name: &String) -> (r: Result<IndexDetail, UnknownOption>)
    {
        if is_named(name, "BASIC") {
            Ok(IndexDetail::Basic)
        } else if is_named(name, "WITH_FREQS") {
            Ok(IndexDetail::WithFreqs)
        } else if is_named(name, "WITH_FREQS_AND_POSITIONS") {
            Ok(IndexDetail::WithFreqsAndPositions)
        } else {
            Err(UnknownOption { name: name.clone() })
        }
    }
}

impl HostName for LanguageName {
    /// The language that the host calls `name`, if there is one.
    open spec fn named(name: Seq<char>) -> Option<LanguageName> {
        if name == "Arabic"@ {
            Some(LanguageName::Arabic)
        } else if name == "Danish"@ {
            Some(LanguageName::Danish)
        } else if name == "Dutch"@ {
            Some(LanguageName::Dutch)
        } else if name == "English"@ {
            Some(LanguageName::English)
        } else if name == "Finnish"@ {
            Some(LanguageName::Finnish)
        } else if name == "French"@ {
            Some(LanguageName::French)
        } else if name == "German"@ {
            Some(LanguageName::German)
        } else if name == "Greek"@ {
            Some(LanguageName::Greek)
        } else if name == "Hungarian"@ {
            Some(LanguageName::Hungarian)
        } else if name == "Italian"@ {
            Some(LanguageName::Italian)
        } else if name == "Norwegian"@ {
            Some(LanguageName::Norwegian)
        } else if name == "Portuguese"@ {
            Some(LanguageName::Portuguese)
        } else if name == "Romanian"@ {
            Some(LanguageName::Romanian)
        } else if name == "Russian"@ {
            Some(LanguageName::Russian)
        } else if name == "Spanish"@ {
            Some(LanguageName::Spanish)
        } else if name == "Swedish"@ {
            Some(LanguageName::Swedish)
        } else if name == "Tamil"@ {
            Some(LanguageName::Tamil)
        } else if name == "Turkish"@ {
            Some(LanguageName::Turkish)
        } else {
            None
        }
    }

    /// The language that the host calls `name`; any other name is refused.
    fn from_name(name: &String) -> (r: Result<LanguageName, UnknownOption>)
    {
        if is_named(name, "Arabic") {
            Ok(LanguageName::Arabic)
        } else if is_named(name, "Danish") {
            Ok(LanguageName::Danish)
        } else if is_named(name, "Dutch") {
            Ok(LanguageName::Dutch)
        } else if is_named(name, "English") {
            Ok(LanguageName::English)
        } else if is_named(name, "Finnish") {
            Ok(LanguageName::Finnish)
        } else if is_named(name, "French") {
            Ok(LanguageName::French)
        } else if is_named(name, "German") {
            Ok(LanguageName::German)
        } else if is_named(name, "Greek") {
            Ok(LanguageName::Greek)
        } else if is_named(name, "Hungarian") {
            Ok(LanguageName::Hungarian)
        } else if is_named(name, "Italian") {
            Ok(LanguageName::Italian)
        } else if is_named(name, "Norwegian") {
            Ok(LanguageName::Norwegian)
        } else if is_named(name, "Portuguese") {
            Ok(LanguageName::Portuguese)
        } else if is_named(name, "Romanian") {
            Ok(LanguageName::Romanian)
        } else if is_named(name, "Russian") {
            Ok(LanguageName::Russian)
        } else if is_named(name, "Spanish") {
            Ok(LanguageName::Spanish)
        } else if is_named(name, "Swedish") {
            Ok(LanguageName::Swedish)
        } else if is_named(name, "Tamil") {
            Ok(LanguageName::Tamil)
        } else if is_named(name, "Turkish") {
            Ok(LanguageName::Turkish)
        } else {
            Err(UnknownOption { name: name.clone() })
        }
    }
}

impl HostName for TextOption {
    /// The text flag that the host calls `name`, if there is one.
    open spec fn named(name: Seq<char>) -> Option<TextOption> {
        if name == "STORED"@ {
            Some(TextOption::STORED)
        } else {
            None
        }
    }

    /// The text flag that the host calls `name`; any other name is refused.
    fn from_name(name: &String) -> (r: Result<TextOption, UnknownOption>)
    {
        if is_named(name, "STORED") {
            Ok(TextOption::STORED)
        } else {
            Err(UnknownOption { name: name.clone() })
        }
    }
}

impl HostName for NumericOption {
    /// The numeric flag that the host calls `name`, if there is one.
    open spec fn named(name: Seq<char>) -> Option<NumericOption> {
        if name == "STORED"@ {
            Some(NumericOption::STORED)
        } else if name == "INDEXED"@ {
            Some(NumericOption::INDEXED)
        } else {
            None
        }
    }

    /// The numeric flag that the host calls `name`; any other name is refused.
    fn from_name(name: &String) -> (r: Result<NumericOption, UnknownOption>)
    {
        if is_named(name, "STORED") {
            Ok(NumericOption::STORED)
        } else if is_named(name, "INDEXED") {
            Ok(NumericOption::INDEXED)
        } else {
            Err(UnknownOption { name: name.clone() })
        }
    }
}

impl HostName for ReloadOnPolicy {
    /// The reload policy that the host calls `name`, if there is one.
    open spec fn named(name: Seq<char>) -> Option<ReloadOnPolicy> {
        if name == "COMMIT_WITH_DELAY"@ {
            Some(ReloadOnPolicy::CommitWithDelay)
        } else if name == "MANUAL"@ {
            Some(ReloadOnPolicy::Manual)
        } else {
            None
        }
    }

    /// The reload policy that the host calls `name`; any other name is refused.
    fn from_name(name: &String) -> (r: Result<ReloadOnPolicy, UnknownOption>)
    {
        if is_named(name, "COMMIT_WITH_DELAY") {
            Ok(ReloadOnPolicy::CommitWithDelay)
        } else if is_named(name, "MANUAL") {
            Ok(ReloadOnPolicy::Manual)
        } else {
            Err(UnknownOption { name: name.clone() })
        }
    }
}

/// Whether `index` is the position of the first of `names` that stands for
/// no option of the kind `T`.
pub open spec fn first_unknown<T: HostName>(names: Seq<String>, index: int) -> bool {
    &&& 0 <= index < names.len()
    &&& T::named(names[index]@) is None
    &&& forall|j: int| 0 <= j < index ==> T::named(#[trigger] names[j]@) is Some
}

/// Whether `options` are, one by one, what `names` stand for.
pub open spec fn all_named<T: HostName>(names: Seq<String>, options: Seq<T>) -> bool {
    &&& options.len() == names.len()
    &&& forall|i: int| 0 <= i < names.len() ==> T::named(#[trigger] names[i]@) == Some(options[i])
}

/// Whether `r` is the answer to a list of names: the options that they stand
/// for, or the first name that stands for none.
pub open spec fn all_known<T: HostName>(names: Seq<String>, r: Result<Vec<T>, UnknownOption>) -> bool {
    match r {
        Ok(options) => all_named(names, options@),
        Err(error) => exists|index: int|
            first_unknown::<T>(names, index) && error.name@ == (#[trigger] names[index])@,
    }
}

/// The options that a list of names stands for; the first name that stands
/// for none is refused.
pub fn from_names<T: HostName>(names: &Vec<String>) -> (r: Result<Vec<T>, UnknownOption>)
    ensures
        all_known(names@, r),
{
    let mut options: Vec<T> = Vec::new();
    let mut i: usize = 0;
    while i < names.len()
        invariant
            i <= names.len(),
            options.len() == i,
            forall|j: int| 0 <= j < i ==> T::named(#[trigger] names[j]@) == Some(options[j]),
        decreases names.len() - i,
    {
        match T::from_name(&names[i]) {
            Ok(option) => options.push(option),
            Err(error) => {
                return Err(error);
            },
        }
        i += 1;
    }
    Ok(options)
}

/// The first of `names` that stands for no option of the kind `T`, if there
/// is one.
pub open spec fn unknown_among<T: HostName>(names: Option<Vec<String>>) -> Option<Seq<char>> {
    match names {
        Some(list) => if exists|index: int| first_unknown::<T>(list@, index) {
            Some(list@[choose|index: int| first_unknown::<T>(list@, index)]@)
        } else {
            None
        },
        None => None,
    }
}

/// Whether `options` are what `names` stand for: a list for a list, in the
/// same order, and nothing for nothing.
pub open spec fn flags_named<T: HostName>(names: Option<Vec<String>>, options: Option<Vec<T>>) -> bool {
    match names {
        Some(list) => options matches Some(found) && all_named(list@, found@),
        None => options is None,
    }
}

/// At most one position is that of the first unknown name.
proof fn lemma_first_unknown_is_unique<T: HostName>(names: Seq<String>, a: int, b: int)
    requires
        first_unknown::<T>(names, a),
        first_unknown::<T>(names, b),
    ensures
        a == b,
{
}

fn flags_from<T: HostName>(names: &Option<Vec<String>>) -> (r: Result<Option<Vec<T>>, UnknownOption>)
    ensures
        match r {
            Ok(options) => unknown_among::<T>(*names) is None && flags_named(*names, options),
            Err(error) => unknown_among::<T>(*names) == Some(error.name@),
        },
{
    match names {
        Some(list) => match from_names::<T>(list) {
            Ok(options) => {
                proof {
                    if exists|index: int| first_unknown::<T>(list@, index) {
                        let index = choose|index: int| first_unknown::<T>(list@, index);
                    }
                }
                Ok(Some(options))
            },
            Err(error) => {
                proof {
                    let found = choose|index: int|
                        first_unknown::<T>(list@, index) && error.name@ == (
                        #[trigger] list@[index])@;
                    let chosen = choose|index: int| first_unknown::<T>(list@, index);
                    lemma_first_unknown_is_unique::<T>(list@, found, chosen);
                }
                Err(error)
            },
        },
        None => Ok(None),
    }
}

impl FieldDescriptor {
    /// The name in the description of a field that is refused: the name of
    /// the field's type where it is none of `text`, `string` and `f64`;
    /// else the first flag that is none of the type's flags; else, for a text
    /// field, a detail level that is none. `None` where every name is known.
    pub open spec fn refused_name(
        kind: Seq<char>,
        flags: Option<Vec<String>>,
        index: Option<String>,
    ) -> Option<Seq<char>> {
        if kind == "text"@ {
            if unknown_among::<TextOption>(flags) is Some {
                unknown_among::<TextOption>(flags)
            } else if index matches Some(name) && IndexDetail::named(name@) is None {
                Some(index->Some_0@)
            } else {
                None
            }
        } else if kind == "string"@ {
            unknown_among::<TextOption>(flags)
        } else if kind == "f64"@ {
            unknown_among::<NumericOption>(flags)
        } else {
            Some(kind)
        }
    }

    /// Whether the descriptor is what the description says: the type of the
    /// given name, with the flags that the names stand for, and for a text
    /// field the tokenizer as given and the detail level of the given name.
    /// A string or number field has no use for a tokenizer or a detail level.
    pub open spec fn describes(
        self,
        kind: Seq<char>,
        flags: Option<Vec<String>>,
        tokenizer: Option<String>,
        index: Option<String>,
    ) -> bool {
        match self {
            FieldDescriptor::Text { flags: found, tokenizer: through, index: detail } => {
                &&& kind == "text"@
                &&& flags_named(flags, found)
                &&& through == tokenizer
                &&& match index {
                    Some(name) => detail is Some && IndexDetail::named(name@) == detail,
                    None => detail is None,
                }
            },
            FieldDescriptor::String { flags: found } => {
                &&& kind != "text"@
                &&& kind == "string"@
                &&& flags_named(flags, found)
            },
            FieldDescriptor::F64 { flags: found } => {
                &&& kind != "text"@
                &&& kind != "string"@
                &&& kind == "f64"@
                &&& flags_named(flags, found)
            },
        }
    }

    /// The descriptor for a description in the host's words. A name that the
    /// description may not hold at its place is refused as an unknown option.
    pub fn from_parts(
        kind: &String,
        flags: &Option<Vec<String>>,
        tokenizer: Option<String>,
        index: &Option<String>,
    ) -> (r: Result<FieldDescriptor, UnknownOption>)
        ensures
            match r {
                Ok(descriptor) => FieldDescriptor::refused_name(kind@, *flags, *index) is None
                    && descriptor.describes(kind@, *flags, tokenizer, *index),
                Err(error) => FieldDescriptor::refused_name(kind@, *flags, *index) == Some(
                    error.name@,
                ),
            },
    {
        if is_named(kind, "text") {
            let found = match flags_from::<TextOption>(flags) {
                Ok(found) => found,
                Err(error) => return Err(error),
            };
            let detail = match index {
                Some(name) => match IndexDetail::from_name(name) {
                    Ok(detail) => Some(detail),
                    Err(error) => return Err(error),
                },
                None => None,
            };
            Ok(FieldDescriptor::Text { flags: found, tokenizer, index: detail })
        } else if is_named(kind, "string") {
            match flags_from::<TextOption>(flags) {
                Ok(found) => Ok(FieldDescriptor::String { flags: found }),
                Err(error) => Err(error),
            }
        } else if is_named(kind, "f64") {
            match flags_from::<NumericOption>(flags) {
                Ok(found) => Ok(FieldDescriptor::F64 { flags: found }),
                Err(error) => Err(error),
            }
        } else {
            Err(UnknownOption { name: kind.clone() })
        }
    }
}

} // verus!
