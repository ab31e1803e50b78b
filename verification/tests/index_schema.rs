use search_gateway::error::{Error, SchemaPart};
use search_gateway::schema::{
    advance_define_index, begin_define_index, build, creation_outcome, DefineIndex, IndexSchema,
    NextMove, RoundTrip, SchemaField,
};

fn words(items: &[&str]) -> Vec<String> {
    items.iter().map(|item| item.to_string()).collect()
}

fn field(name: &str, field_type: &str, sortable: bool) -> SchemaField {
    SchemaField { name: name.to_string(), field_type: field_type.to_string(), sortable }
}

fn title_schema() -> IndexSchema {
    IndexSchema {
        index_name: "idx".to_string(),
        storage_type: "HASH".to_string(),
        prefixes: vec!["doc:".to_string()],
        language: None,
        fields: vec![field("title", "TEXT", true)],
    }
}

#[test]
fn the_create_command_ends_with_the_fields() {
    let commands = build(&title_schema()).unwrap();
    let create = commands.create_command;
    assert_eq!(create[create.len() - 4..].to_vec(), words(&["SCHEMA", "title", "TEXT", "SORTABLE"]));
    assert_eq!(
        create,
        words(&["FT.CREATE", "idx", "ON", "HASH", "PREFIX", "1", "doc:", "SCHEMA", "title", "TEXT",
            "SORTABLE"])
    );
    assert_eq!(commands.drop_command, words(&["FT.DROPINDEX", "idx"]));
}

#[test]
fn prefixes_language_and_fields_keep_their_order() {
    let schema = IndexSchema {
        index_name: "articles".to_string(),
        storage_type: "JSON".to_string(),
        prefixes: vec!["news:".to_string(), "blog:".to_string(), "wiki:".to_string()],
        language: Some("chinese".to_string()),
        fields: vec![
            field("$.title", "TEXT", false),
            field("$.post_timestamp", "NUMERIC", true),
            field("$.tags", "TAG", false),
        ],
    };
    assert_eq!(
        build(&schema).unwrap().create_command,
        words(&[
            "FT.CREATE", "articles", "ON", "JSON", "PREFIX", "3", "news:", "blog:", "wiki:",
            "LANGUAGE", "chinese", "SCHEMA", "$.title", "TEXT", "$.post_timestamp", "NUMERIC",
            "SORTABLE", "$.tags", "TAG",
        ])
    );
}

#[test]
fn an_argument_with_a_space_stays_one_argument() {
    let mut schema = title_schema();
    schema.prefixes = vec!["my docs:".to_string()];
    schema.fields = vec![field("full title", "TEXT", false)];
    assert_eq!(
        build(&schema).unwrap().create_command,
        words(&["FT.CREATE", "idx", "ON", "HASH", "PREFIX", "1", "my docs:", "SCHEMA", "full title",
            "TEXT"])
    );
}

#[test]
fn the_first_empty_part_is_named() {
    let mut schema = title_schema();
    schema.fields.clear();
    assert!(matches!(build(&schema), Err(Error::InvalidSchema(SchemaPart::Fields))));
    schema.prefixes.clear();
    assert!(matches!(build(&schema), Err(Error::InvalidSchema(SchemaPart::Prefixes))));
    schema.storage_type.clear();
    assert!(matches!(build(&schema), Err(Error::InvalidSchema(SchemaPart::StorageType))));
    schema.index_name.clear();
    assert!(matches!(build(&schema), Err(Error::InvalidSchema(SchemaPart::IndexName))));
    assert!(matches!(
        begin_define_index(&schema),
        Err(Error::InvalidSchema(SchemaPart::IndexName))
    ));
}

#[test]
fn only_ok_creates_an_index() {
    let created = creation_outcome("idx", "OK").unwrap();
    assert_eq!(created.status, "success");
    assert_eq!(created.message, "Index 'idx' created successfully.");
    for reply in ["", "ok", "OK ", "QUEUED", "Index already exists"] {
        match creation_outcome("idx", reply) {
            Err(Error::IndexCreationFailed { index, reply: literal }) => {
                assert_eq!(index, "idx");
                assert_eq!(literal, reply);
            }
            other => panic!("{reply:?} gave {other:?}"),
        }
    }
}

#[test]
fn a_failed_drop_is_no_failure() {
    for dropped in [RoundTrip::Reply("OK".to_string()), RoundTrip::Failure("Unknown Index name".to_string())]
    {
        let (first, state) = begin_define_index(&title_schema()).unwrap();
        assert_eq!(first, words(&["FT.DROPINDEX", "idx"]));
        let state = match advance_define_index(state, dropped) {
            NextMove::Send { command, then } => {
                assert_eq!(command, build(&title_schema()).unwrap().create_command);
                assert!(matches!(&then, DefineIndex::AwaitingCreate { index_name } if index_name == "idx"));
                then
            }
            other => panic!("{other:?}"),
        };
        match advance_define_index(state, RoundTrip::Reply("OK".to_string())) {
            NextMove::Created(report) => {
                assert_eq!(report.status, "success");
                assert_eq!(report.message, "Index 'idx' created successfully.");
            }
            other => panic!("{other:?}"),
        }
    }
}

#[test]
fn a_failed_create_is_reported() {
    let awaiting = || DefineIndex::AwaitingCreate { index_name: "idx".to_string() };
    match advance_define_index(awaiting(), RoundTrip::Reply("NOPE".to_string())) {
        NextMove::Failed(Error::IndexCreationFailed { index, reply }) => {
            assert_eq!(index, "idx");
            assert_eq!(reply, "NOPE");
        }
        other => panic!("{other:?}"),
    }
    match advance_define_index(awaiting(), RoundTrip::Failure("connection reset".to_string())) {
        NextMove::Failed(Error::TransportError(message)) => assert_eq!(message, "connection reset"),
        other => panic!("{other:?}"),
    }
}
