use mail_fetch::search::{
    get_typesense_configuration, FieldType, Label, Mail, MailError, TypesenseCredentials,
};

#[test]
fn field_type_names_read_back() {
    let all = [
        FieldType::String,
        FieldType::StringArray,
        FieldType::Int32,
        FieldType::Int32Array,
        FieldType::Int64,
        FieldType::Int64Array,
        FieldType::Float,
        FieldType::FloatArray,
        FieldType::Bool,
        FieldType::BoolArray,
        FieldType::Geopoint,
        FieldType::GeopointArray,
        FieldType::Geopolygon,
        FieldType::Object,
        FieldType::ObjectArray,
        FieldType::StringPointer,
        FieldType::Image,
        FieldType::Auto,
    ];
    for field_type in all {
        assert_eq!(FieldType::from_str(field_type.as_str()), Some(field_type));
    }
    assert_eq!(FieldType::Int32Array.as_str(), "int32[]");
    assert_eq!(FieldType::from_str("geopolygon"), Some(FieldType::Geopolygon));
    assert_eq!(FieldType::from_str("String"), None);
    assert_eq!(FieldType::from_str(""), None);
}

#[test]
fn mail_schema_lists_nine_fields() {
    let schema = Mail::collection_schema();
    assert_eq!(schema.name, "mail");
    let names: Vec<&str> = schema.fields.iter().map(|field| field.name.as_str()).collect();
    assert_eq!(
        names,
        vec![
            "id",
            "thread_id",
            "subject",
            "time",
            "labels",
            "raw_body",
            "searchable_body",
            "from",
            "to"
        ]
    );
    assert_eq!(schema.fields[2].optional, Some(true));
    assert_eq!(schema.fields[2].infix, Some(true));
    assert_eq!(schema.fields[2].facet, None);
    assert_eq!(schema.fields[3].field_type, "int64");
    assert_eq!(schema.fields[4].field_type, "string[]");
    assert_eq!(schema.fields[4].facet, Some(true));
    assert_eq!(schema.fields[5].index, Some(false));
    assert_eq!(schema.fields[7].facet, Some(true));
    assert_eq!(schema.fields[8].infix, Some(true));
    assert_eq!(schema.default_sorting_field, None);
    assert_eq!(schema.token_separators, None);
    assert_eq!(schema.enable_nested_fields, None);
    assert_eq!(schema.symbols_to_index, None);
}

#[test]
fn labels_are_named_and_keyed() {
    assert_eq!(Label::Inbox.as_str(), "inbox");
    assert_eq!(Label::Starred.as_str(), "starred");
    assert_eq!(Label::Important.as_str(), "important");
    assert_eq!(Label::Sent.as_str(), "sent");
    assert_eq!(Label::Scheduled.as_str(), "scheduled");
    assert_eq!(Label::Spam.as_str(), "spam");
    assert_eq!(Label::Bin.as_str(), "bin");
    assert_eq!(Label::from_str("spam"), Some(Label::Inbox));
    assert_eq!(Label::from_str("scheduled"), Some(Label::Starred));
    assert_eq!(Label::from_str("sent"), Some(Label::Important));
    assert_eq!(Label::from_str("important"), Some(Label::Sent));
    assert_eq!(Label::from_str("starred"), Some(Label::Scheduled));
    assert_eq!(Label::from_str("inbox"), Some(Label::Spam));
    assert_eq!(Label::from_str("bin"), None);
    assert_eq!(Label::from_str("INBOX"), None);
}

#[test]
fn search_configuration_takes_over_the_credentials() {
    let configuration = get_typesense_configuration(TypesenseCredentials {
        url: "http://localhost:8108".to_string(),
        user_agent: "mail".to_string(),
        api_key: "xyz".to_string(),
    });
    assert_eq!(configuration.base_path, "http://localhost:8108");
    assert_eq!(configuration.user_agent, Some("mail".to_string()));
    let key = configuration.api_key.unwrap();
    assert_eq!(key.prefix, None);
    assert_eq!(key.key, "xyz");
}

#[test]
fn mail_errors_are_put_in_words() {
    assert_eq!(
        MailError::InvalidDate("soon".to_string()).message(),
        "could not parse soon to datetime"
    );
    assert_eq!(MailError::RawBodyEncoding.message(), "could not decode raw body");
    assert_eq!(
        MailError::RawBodyText.message(),
        "could not create string from UTF-8 encoded raw body"
    );
    assert_eq!(MailError::SearchableBodyEncoding.message(), "could not decode searchable body");
    assert_eq!(
        MailError::SearchableBodyText.message(),
        "could not create string from UTF-8 encoded searchable body"
    );
    assert_eq!(MailError::MissingTime.message(), "missing time");
}
