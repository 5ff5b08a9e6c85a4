//! Searchable mail, and the collection of the search service that holds it.

use crate::constants::SEARCHABLE_MAIL_COLLECTION_NAME;
use crate::text::str_eq;
use vstd::prelude::*;
use vstd::string::*;

verus! {

/// The value type of a field in a search collection.
#[derive(Debug, Clone, Copy, PartialEq, Eq, Structural)]
pub enum FieldType {
    String,
    StringArray,
    Int32,
    Int32Array,
    Int64,
    Int64Array,
    Float,
    FloatArray,
    Bool,
    BoolArray,
    Geopoint,
    GeopointArray,
    Geopolygon,
    Object,
    ObjectArray,
    StringPointer,
    Image,
    Auto,
}

impl FieldType {
    /// The name under which the search service knows this type.
    pub open spec fn name(self) -> Seq<char> {
        match self {
            FieldType::String => "string"@,
            FieldType::StringArray => "string[]"@,
            FieldType::Int32 => "int32"@,
            FieldType::Int32Array => "int32[]"@,
            FieldType::Int64 => "int64"@,
            FieldType::Int64Array => "int64[]"@,
            FieldType::Float => "float"@,
            FieldType::FloatArray => "float[]"@,
            FieldType::Bool => "bool"@,
            FieldType::BoolArray => "bool[]"@,
            FieldType::Geopoint => "geopoint"@,
            FieldType::GeopointArray => "geopoint[]"@,
            FieldType::Geopolygon => "geopolygon"@,
            FieldType::Object => "object"@,
            FieldType::ObjectArray => "object[]"@,
            FieldType::StringPointer => "stringpointer"@,
            FieldType::Image => "image"@,
            FieldType::Auto => "auto"@,
        }
    }

    /// The name under which the search service knows this type.
    pub fn as_str(&self) -> (name: &'static str)
        ensures
            name@ == self.name(),
    {
        match self {
            FieldType::String => "string",
            FieldType::StringArray => "string[]",
            FieldType::Int32 => "int32",
            FieldType::Int32Array => "int32[]",
            FieldType::Int64 => "int64",
            FieldType::Int64Array => "int64[]",
            FieldType::Float => "float",
            FieldType::FloatArray => "float[]",
            FieldType::Bool => "bool",
            FieldType::BoolArray => "bool[]",
            FieldType::Geopoint => "geopoint",
            FieldType::GeopointArray => "geopoint[]",
            FieldType::Geopolygon => "geopolygon",
            FieldType::Object => "object",
            FieldType::ObjectArray => "object[]",
            FieldType::StringPointer => "stringpointer",
            FieldType::Image => "image",
            FieldType::Auto => "auto",
        }
    }

    /// The field type that goes by `label`, if any does.
    pub open spec fn named(label: Seq<char>) -> Option<FieldType> {
        if exists|field_type: FieldType| #[trigger] field_type.name() == label {
            Some(choose|field_type: FieldType| #[trigger] field_type.name() == label)
        } else {
            None
        }
    }

    /// The field type that goes by `label`, if any does.
    pub fn from_str(label: &str) -> (parsed: Option<Self>)
        ensures
            parsed == FieldType::named(label@),
    {
        let parsed = if str_eq(label, "string") {
            Some(FieldType::String)
        } else if str_eq(label, "string[]") {
            Some(FieldType::StringArray)
        } else if str_eq(label, "int32") {
            Some(FieldType::Int32)
        } else if str_eq(label, "int32[]") {
            Some(FieldType::Int32Array)
        } else if str_eq(label, "int64") {
            Some(FieldType::Int64)
        } else if str_eq(label, "int64[]") {
            Some(FieldType::Int64Array)
        } else if str_eq(label, "float") {
            Some(FieldType::Float)
        } else if str_eq(label, "float[]") {
            Some(FieldType::FloatArray)
        } else if str_eq(label, "bool") {
            Some(FieldType::Bool)
        } else if str_eq(label, "bool[]") {
            Some(FieldType::BoolArray)
        } else if str_eq(label, "geopoint") {
            Some(FieldType::Geopoint)
        } else if str_eq(label, "geopoint[]") {
            Some(FieldType::GeopointArray)
        } else if str_eq(label, "geopolygon") {
            Some(FieldType::Geopolygon)
        } else if str_eq(label, "object") {
            Some(FieldType::Object)
        } else if str_eq(label, "object[]") {
            Some(FieldType::ObjectArray)
        } else if str_eq(label, "stringpointer") {
            Some(FieldType::StringPointer)
        } else if str_eq(label, "image") {
            Some(FieldType::Image)
        } else if str_eq(label, "auto") {
            Some(FieldType::Auto)
        } else {
            None
        };
        proof {
            match parsed {
                Some(found) => {
                    assert(found.name() == label@);
                    FieldType::lemma_names_distinct(FieldType::named(label@)->0, found);
                },
                None => {
                    assert forall|other: FieldType| #[trigger] other.name() != label@ by {}
                },
            }
        }
        parsed
    }

    /// Length and three characters of the name: enough to tell any two names apart.
    spec fn fingerprint(self) -> (nat, char, char, char) {
        let name = self.name();
        (name.len(), name[0], name[3], if name.len() == 10 { name[5] } else { ' ' })
    }

    proof fn lemma_fingerprint(self)
        ensures
            self.fingerprint() == match self {
                FieldType::String => (6nat, 's', 'i', ' '),
                FieldType::StringArray => (8nat, 's', 'i', ' '),
                FieldType::Int32 => (5nat, 'i', '3', ' '),
                FieldType::Int32Array => (7nat, 'i', '3', ' '),
                FieldType::Int64 => (5nat, 'i', '6', ' '),
                FieldType::Int64Array => (7nat, 'i', '6', ' '),
                FieldType::Float => (5nat, 'f', 'a', ' '),
                FieldType::FloatArray => (7nat, 'f', 'a', ' '),
                FieldType::Bool => (4nat, 'b', 'l', ' '),
                FieldType::BoolArray => (6nat, 'b', 'l', ' '),
                FieldType::Geopoint => (8nat, 'g', 'p', ' '),
                FieldType::GeopointArray => (10nat, 'g', 'p', 'i'),
                FieldType::Geopolygon => (10nat, 'g', 'p', 'l'),
                FieldType::Object => (6nat, 'o', 'e', ' '),
                FieldType::ObjectArray => (8nat, 'o', 'e', ' '),
                FieldType::StringPointer => (13nat, 's', 'i', ' '),
                FieldType::Image => (5nat, 'i', 'g', ' '),
                FieldType::Auto => (4nat, 'a', 'o', ' '),
            },
    {
        reveal_strlit("string");
        reveal_strlit("string[]");
        reveal_strlit("int32");
        reveal_strlit("int32[]");
        reveal_strlit("int64");
        reveal_strlit("int64[]");
        reveal_strlit("float");
        reveal_strlit("float[]");
        reveal_strlit("bool");
        reveal_strlit("bool[]");
        reveal_strlit("geopoint");
        reveal_strlit("geopoint[]");
        reveal_strlit("geopolygon");
        reveal_strlit("object");
        reveal_strlit("object[]");
        reveal_strlit("stringpointer");
        reveal_strlit("image");
        reveal_strlit("auto");
    }

    /// No two field types share a name.
    pub proof fn lemma_names_distinct(first: FieldType, second: FieldType)
        requires
            first.name() == second.name(),
        ensures
            first == second,
    {
        first.lemma_fingerprint();
        second.lemma_fingerprint();
    }

    /// Looking up a field type's own name finds that field type.
    pub proof fn lemma_named_inverts_name(field_type: FieldType)
        ensures
            FieldType::named(field_type.name()) == Some(field_type),
    {
        let found = FieldType::named(field_type.name());
        FieldType::lemma_names_distinct(found->0, field_type);
    }
}

/// The name under which mail in the inbox is indexed.
pub const LABEL_INBOX: &'static str = "inbox";

/// The name under which starred mail is indexed.
pub const LABEL_STARRED: &'static str = "starred";

/// The name under which important mail is indexed.
pub const LABEL_IMPORTANT: &'static str = "important";

/// The name under which sent mail is indexed.
pub const LABEL_SENT: &'static str = "sent";

/// The name under which scheduled mail is indexed.
pub const LABEL_SCHEDULED: &'static str = "scheduled";

/// The name under which spam is indexed.
pub const LABEL_SPAM: &'static str = "spam";

/// The name under which binned mail is indexed.
pub const LABEL_BIN: &'static str = "bin";

/// A label under which mail is filed.
#[derive(Debug, Clone, Copy, PartialEq, Eq, Structural)]
pub enum Label {
    Inbox,
    Starred,
    Important,
    Sent,
    Scheduled,
    Spam,
    Bin,
}

impl Label {
    /// The name under which the label is indexed.
    pub open spec fn name(self) -> Seq<char> {
        match self {
            Label::Inbox => LABEL_INBOX@,
            Label::Starred => LABEL_STARRED@,
            Label::Important => LABEL_IMPORTANT@,
            Label::Sent => LABEL_SENT@,
            Label::Scheduled => LABEL_SCHEDULED@,
            Label::Spam => LABEL_SPAM@,
            Label::Bin => LABEL_BIN@,
        }
    }

    /// The label that a key selects. The keys are the names of the labels, but among the
    /// six labels before `Bin` they are handed out in reverse: the name of `Spam` selects
    /// `Inbox`, the name of `Scheduled` selects `Starred`, and so on up to the name of
    /// `Inbox`, which selects `Spam`. The name of `Bin` selects nothing.
    pub open spec fn keyed(key: Seq<char>) -> Option<Label> {
        if key == "spam"@ {
            Some(Label::Inbox)
        } else if key == "scheduled"@ {
            Some(Label::Starred)
        } else if key == "sent"@ {
            Some(Label::Important)
        } else if key == "important"@ {
            Some(Label::Sent)
        } else if key == "starred"@ {
            Some(Label::Scheduled)
        } else if key == "inbox"@ {
            Some(Label::Spam)
        } else {
            None
        }
    }

    /// The name under which the label is indexed.
    pub fn as_str(&self) -> (name: &'static str)
        ensures
            name@ == self.name(),
    {
        match self {
            Label::Inbox => "inbox",
            Label::Starred => "starred",
            Label::Important => "important",
            Label::Sent => "sent",
            Label::Scheduled => "scheduled",
            Label::Spam => "spam",
            Label::Bin => "bin",
        }
    }

    /// The label that `label` selects as a key.
    pub fn from_str(label: &str) -> (selected: Option<Self>)
        ensures
            selected == Label::keyed(label@),
    {
        if str_eq(label, "spam") {
            Some(Label::Inbox)
        } else if str_eq(label, "scheduled") {
            Some(Label::Starred)
        } else if str_eq(label, "sent") {
            Some(Label::Important)
        } else if str_eq(label, "important") {
            Some(Label::Sent)
        } else if str_eq(label, "starred") {
            Some(Label::Scheduled)
        } else if str_eq(label, "inbox") {
            Some(Label::Spam)
        } else {
            None
        }
    }
}

/// A mail message in the shape in which it is indexed for search.
#[derive(Debug, PartialEq, Eq)]
pub struct Mail {
    pub id: String,
    pub thread_id: String,
    pub subject: String,
    /// Seconds since the Unix epoch.
    pub time: i64,
    pub labels: Vec<String>,
    /// The message as HTML.
    pub raw_body: String,
    /// The message as plain text.
    pub searchable_body: String,
    pub from: String,
    pub to: String,
}

/// What a `Mail` holds, as mathematical values.
pub struct MailView {
    pub id: Seq<char>,
    pub thread_id: Seq<char>,
    pub subject: Seq<char>,
    pub time: i64,
    pub labels: Seq<Seq<char>>,
    pub raw_body: Seq<char>,
    pub searchable_body: Seq<char>,
    pub from: Seq<char>,
    pub to: Seq<char>,
}

impl DeepView for Mail {
    type V = MailView;

    open spec fn deep_view(&self) -> MailView {
        self@
    }
}

impl View for Mail {
    type V = MailView;

    open spec fn view(&self) -> MailView {
        MailView {
            id: self.id@,
            thread_id: self.thread_id@,
            subject: self.subject@,
            time: self.time,
            labels: self.labels.deep_view(),
            raw_body: self.raw_body@,
            searchable_body: self.searchable_body@,
            from: self.from@,
            to: self.to@,
        }
    }
}

/// Why a message could not be turned into searchable mail.
#[derive(Debug, PartialEq, Eq)]
pub enum MailError {
    /// A `Date` header, given here, is no RFC 2822 date.
    InvalidDate(String),
    /// The HTML body is not URL-safe base64.
    RawBodyEncoding,
    /// The decoded HTML body is not UTF-8.
    RawBodyText,
    /// The plain-text body is not URL-safe base64.
    SearchableBodyEncoding,
    /// The decoded plain-text body is not UTF-8.
    SearchableBodyText,
    MissingSubject,
    MissingFrom,
    MissingTo,
    MissingTime,
    MissingRawBody,
    MissingSearchableBody,
}

/// A `MailError`, as a mathematical value.
pub enum MailFault {
    InvalidDate(Seq<char>),
    RawBodyEncoding,
    RawBodyText,
    SearchableBodyEncoding,
    SearchableBodyText,
    MissingSubject,
    MissingFrom,
    MissingTo,
    MissingTime,
    MissingRawBody,
    MissingSearchableBody,
}

impl DeepView for MailError {
    type V = MailFault;

    open spec fn deep_view(&self) -> MailFault {
        self@
    }
}

impl View for MailError {
    type V = MailFault;

    open spec fn view(&self) -> MailFault {
        match self {
            MailError::InvalidDate(value) => MailFault::InvalidDate(value@),
            MailError::RawBodyEncoding => MailFault::RawBodyEncoding,
            MailError::RawBodyText => MailFault::RawBodyText,
            MailError::SearchableBodyEncoding => MailFault::SearchableBodyEncoding,
            MailError::SearchableBodyText => MailFault::SearchableBodyText,
            MailError::MissingSubject => MailFault::MissingSubject,
            MailError::MissingFrom => MailFault::MissingFrom,
            MailError::MissingTo => MailFault::MissingTo,
            MailError::MissingTime => MailFault::MissingTime,
            MailError::MissingRawBody => MailFault::MissingRawBody,
            MailError::MissingSearchableBody => MailFault::MissingSearchableBody,
        }
    }
}

impl MailFault {
    /// What `MailError::message` says of the error.
    pub open spec fn text(self) -> Seq<char> {
        match self {
            MailFault::InvalidDate(value) => "could not parse "@ + value + " to datetime"@,
            MailFault::RawBodyEncoding => "could not decode raw body"@,
            MailFault::RawBodyText => "could not create string from UTF-8 encoded raw body"@,
            MailFault::SearchableBodyEncoding => "could not decode searchable body"@,
            MailFault::SearchableBodyText =>
                "could not create string from UTF-8 encoded searchable body"@,
            MailFault::MissingSubject => "missing subject"@,
            MailFault::MissingFrom => "missing from"@,
            MailFault::MissingTo => "missing to"@,
            MailFault::MissingTime => "missing time"@,
            MailFault::MissingRawBody => "missing raw body"@,
            MailFault::MissingSearchableBody => "missing searchable body"@,
        }
    }
}

impl MailError {
    /// The error in words.
    pub fn message(&self) -> (message: String)
        ensures
            message@ == self@.text(),
    {
        match self {
            MailError::InvalidDate(value) => {
                let mut message = "could not parse ".to_owned();
                message.append(value.as_str());
                message.append(" to datetime");
                message
            },
            MailError::RawBodyEncoding => "could not decode raw body".to_owned(),
            MailError::RawBodyText =>
                "could not create string from UTF-8 encoded raw body".to_owned(),
            MailError::SearchableBodyEncoding => "could not decode searchable body".to_owned(),
            MailError::SearchableBodyText =>
                "could not create string from UTF-8 encoded searchable body".to_owned(),
            MailError::MissingSubject => "missing subject".to_owned(),
            MailError::MissingFrom => "missing from".to_owned(),
            MailError::MissingTo => "missing to".to_owned(),
            MailError::MissingTime => "missing time".to_owned(),
            MailError::MissingRawBody => "missing raw body".to_owned(),
            MailError::MissingSearchableBody => "missing searchable body".to_owned(),
        }
    }
}

/// The outcome of a conversion, as mathematical values.
pub open spec fn outcome_view(outcome: Result<Mail, MailError>) -> Result<MailView, MailFault> {
    match outcome {
        Ok(mail) => Ok(mail@),
        Err(error) => Err(error@),
    }
}

/// Something that can be indexed as mail.
pub trait Searchable {
    /// What the conversion yields.
    spec fn searchable(&self) -> Result<MailView, MailFault>;

    fn to_searchable_mail(&self) -> (mail: Result<Mail, MailError>)
        ensures
            outcome_view(mail) == self.searchable(),
    ;
}

/// One field of a collection: its name, its type, and the switches that are set for it.
/// A switch that is `None` is left to the search service's default.
#[derive(Debug, PartialEq, Eq)]
pub struct Field {
    pub name: String,
    pub field_type: String,
    pub optional: Option<bool>,
    pub facet: Option<bool>,
    pub index: Option<bool>,
    pub infix: Option<bool>,
}

/// What a `Field` holds, as mathematical values.
pub struct FieldView {
    pub name: Seq<char>,
    pub field_type: Seq<char>,
    pub optional: Option<bool>,
    pub facet: Option<bool>,
    pub index: Option<bool>,
    pub infix: Option<bool>,
}

impl View for Field {
    type V = FieldView;

    open spec fn view(&self) -> FieldView {
        FieldView {
            name: self.name@,
            field_type: self.field_type@,
            optional: self.optional,
            facet: self.facet,
            index: self.index,
            infix: self.infix,
        }
    }
}

impl DeepView for Field {
    type V = FieldView;

    open spec fn deep_view(&self) -> FieldView {
        self@
    }
}

/// The layout of a collection in the search service.
#[derive(Debug, PartialEq, Eq)]
pub struct CollectionSchema {
    pub name: String,
    pub fields: Vec<Field>,
    pub default_sorting_field: Option<String>,
    pub token_separators: Option<Vec<String>>,
    pub enable_nested_fields: Option<bool>,
    pub symbols_to_index: Option<Vec<String>>,
}

/// What a `CollectionSchema` holds, as mathematical values.
pub struct SchemaView {
    pub name: Seq<char>,
    pub fields: Seq<FieldView>,
    pub default_sorting_field: Option<Seq<char>>,
    pub token_separators: Option<Seq<Seq<char>>>,
    pub enable_nested_fields: Option<bool>,
    pub symbols_to_index: Option<Seq<Seq<char>>>,
}

impl View for CollectionSchema {
    type V = SchemaView;

    open spec fn view(&self) -> SchemaView {
        SchemaView {
            name: self.name@,
            fields: self.fields.deep_view(),
            default_sorting_field: self.default_sorting_field.deep_view(),
            token_separators: self.token_separators.deep_view(),
            enable_nested_fields: self.enable_nested_fields,
            symbols_to_index: self.symbols_to_index.deep_view(),
        }
    }
}

/// A field of the given name and type with no switch set.
pub open spec fn plain_field(name: Seq<char>, field_type: FieldType) -> FieldView {
    FieldView {
        name,
        field_type: field_type.name(),
        optional: None,
        facet: None,
        index: None,
        infix: None,
    }
}

/// The fields under which mail is indexed.
pub open spec fn mail_fields() -> Seq<FieldView> {
    seq![
        plain_field("id"@, FieldType::String),
        plain_field("thread_id"@, FieldType::String),
        FieldView {
            optional: Some(true),
            infix: Some(true),
            ..plain_field("subject"@, FieldType::String)
        },
        plain_field("time"@, FieldType::Int64),
        FieldView {
            optional: Some(true),
            facet: Some(true),
            ..plain_field("labels"@, FieldType::StringArray)
        },
        FieldView { index: Some(false), ..plain_field("raw_body"@, FieldType::String) },
        FieldView { infix: Some(true), ..plain_field("searchable_body"@, FieldType::String) },
        FieldView {
            infix: Some(true),
            facet: Some(true),
            ..plain_field("from"@, FieldType::String)
        },
        FieldView {
            infix: Some(true),
            facet: Some(true),
            ..plain_field("to"@, FieldType::String)
        },
    ]
}

/// The schema of the collection that holds searchable mail: its name and its fields,
/// with all else left to the search service.
pub open spec fn mail_schema() -> SchemaView {
    SchemaView {
        name: SEARCHABLE_MAIL_COLLECTION_NAME@,
        fields: mail_fields(),
        default_sorting_field: None,
        token_separators: None,
        enable_nested_fields: None,
        symbols_to_index: None,
    }
}

impl Field {
    /// A field of the given name and type with no switch set.
    pub fn new(name: &str, field_type: FieldType) -> (field: Field)
        ensures
            field@ == plain_field(name@, field_type),
    {
        Field {
            name: name.to_owned(),
            field_type: field_type.as_str().to_owned(),
            optional: None,
            facet: None,
            index: None,
            infix: None,
        }
    }
}

impl Mail {
    /// The schema of the collection that holds searchable mail.
    pub fn collection_schema() -> (schema: CollectionSchema)
        ensures
            schema@ == mail_schema(),
    {
        let mut fields: Vec<Field> = Vec::new();
        fields.push(Field::new("id", FieldType::String));
        fields.push(Field::new("thread_id", FieldType::String));
        fields.push(
            Field {
                optional: Some(true),
                infix: Some(true),
                ..Field::new("subject", FieldType::String)
            },
        );
        fields.push(Field::new("time", FieldType::Int64));
        fields.push(
            Field {
                optional: Some(true),
                facet: Some(true),
                ..Field::new("labels", FieldType::StringArray)
            },
        );
        fields.push(Field { index: Some(false), ..Field::new("raw_body", FieldType::String) });
        fields.push(
            Field { infix: Some(true), ..Field::new("searchable_body", FieldType::String) },
        );
        fields.push(
            Field { infix: Some(true), facet: Some(true), ..Field::new("from", FieldType::String) },
        );
        fields.push(
            Field { infix: Some(true), facet: Some(true), ..Field::new("to", FieldType::String) },
        );
        assert(fields.deep_view() == mail_fields());
        CollectionSchema {
            name: SEARCHABLE_MAIL_COLLECTION_NAME.to_owned(),
            fields,
            default_sorting_field: None,
            token_separators: None,
            enable_nested_fields: None,
            symbols_to_index: None,
        }
    }
}

/// What is needed to reach the search service, as it is kept in store.
#[derive(Debug, PartialEq, Eq)]
pub struct TypesenseCredentials {
    pub url: String,
    pub user_agent: String,
    pub api_key: String,
}

/// A key of the search service.
#[derive(Debug, PartialEq, Eq)]
pub struct ApiKey {
    pub prefix: Option<String>,
    pub key: String,
}

/// How the search service is reached.
#[derive(Debug, PartialEq, Eq)]
pub struct Configuration {
    pub base_path: String,
    pub user_agent: Option<String>,
    pub api_key: Option<ApiKey>,
}

/// What `TypesenseCredentials` hold, as mathematical values.
pub struct TypesenseCredentialsView {
    pub url: Seq<char>,
    pub user_agent: Seq<char>,
    pub api_key: Seq<char>,
}

/// What an `ApiKey` holds, as mathematical values.
pub struct ApiKeyView {
    pub prefix: Option<Seq<char>>,
    pub key: Seq<char>,
}

/// What a `Configuration` holds, as mathematical values.
pub struct ConfigurationView {
    pub base_path: Seq<char>,
    pub user_agent: Option<Seq<char>>,
    pub api_key: Option<ApiKeyView>,
}

impl View for TypesenseCredentials {
    type V = TypesenseCredentialsView;

    open spec fn view(&self) -> TypesenseCredentialsView {
        TypesenseCredentialsView {
            url: self.url@,
            user_agent: self.user_agent@,
            api_key: self.api_key@,
        }
    }
}

impl DeepView for ApiKey {
    type V = ApiKeyView;

    open spec fn deep_view(&self) -> ApiKeyView {
        ApiKeyView { prefix: self.prefix.deep_view(), key: self.key@ }
    }
}

impl View for Configuration {
    type V = ConfigurationView;

    open spec fn view(&self) -> ConfigurationView {
        ConfigurationView {
            base_path: self.base_path@,
            user_agent: self.user_agent.deep_view(),
            api_key: self.api_key.deep_view(),
        }
    }
}

/// The configuration under which the search service is reached with `credentials`: its
/// address, the user agent, and the key without a prefix.
pub open spec fn typesense_configuration(
    credentials: TypesenseCredentialsView,
) -> ConfigurationView {
    ConfigurationView {
        base_path: credentials.url,
        user_agent: Some(credentials.user_agent),
        api_key: Some(ApiKeyView { prefix: None, key: credentials.api_key }),
    }
}

/// The configuration under which the search service is reached with `credentials`.
pub fn get_typesense_configuration(credentials: TypesenseCredentials) -> (configuration:
    Configuration)
    ensures
        configuration@ == typesense_configuration(credentials@),
{
    Configuration {
        base_path: credentials.url,
        user_agent: Some(credentials.user_agent),
        api_key: Some(ApiKey { prefix: None, key: credentials.api_key }),
    }
}

} // verus!
