use cobase::bus::Message;
use cobase::error::{Error, ErrorsKind, ParamValue};
use cobase::group::command::{CreateGroupCommand, MIN_NAME_LENGTH};
use cobase::group::event::Created;
use cobase::group::query::{collect_groups, CreatedEventMessage, FindGroupsQueryMessage, Group, QueryRow};
use cobase::publisher::PubMessage;

fn command(name: &str) -> CreateGroupCommand {
    CreateGroupCommand { name: name.to_string() }
}

fn group(id: &str) -> Group {
    Group {
        doc_type: "cobase:group".to_string(),
        id: id.to_string(),
        user_id: "u1".to_string(),
        name: "friends".to_string(),
    }
}

#[test]
fn default_command_has_empty_name() {
    assert_eq!(CreateGroupCommand::default().name, "");
}

#[test]
fn validate_accepts_three_characters() {
    assert_eq!(MIN_NAME_LENGTH, 3);
    assert_eq!(command("abc").validate(), Ok(()));
    assert_eq!(command("a longer name").validate(), Ok(()));
    assert_eq!(command("日本語").validate(), Ok(()));
}

#[test]
fn validate_rejects_short_names() {
    for name in ["", "a", "ab", "日本"] {
        let report = command(name).validate().unwrap_err();
        assert_eq!(report.entries.len(), 1);
        assert_eq!(report.entries[0].0, "name");
        match &report.entries[0].1 {
            ErrorsKind::Field(fields) => {
                assert_eq!(fields.len(), 1);
                assert_eq!(fields[0].code, "length");
                assert_eq!(fields[0].message, None);
                assert_eq!(
                    fields[0].params,
                    vec![
                        ("min".to_string(), ParamValue::UInt(3)),
                        ("value".to_string(), ParamValue::Text(name.to_string())),
                    ]
                );
            }
            other => panic!("unexpected report {:?}", other),
        }
        assert_eq!(
            Error::ValidationErrors(report).to_string(),
            "The field .name must be at least 3 characters long"
        );
    }
}

#[test]
fn create_group_records_event() {
    let event = Message("user-7".to_string(), command("friends")).into_new_event().unwrap();
    assert!(event.stream_id.starts_with("cobase:group-"));
    assert_eq!(event.stream_id.len(), "cobase:group-".len() + 21);
    assert_eq!(event.event_type, "created");
    assert_eq!(event.data, Created { user_id: "user-7".to_string(), name: "friends".to_string() });
}

#[test]
fn create_group_rejects_short_name() {
    match Message("user-7".to_string(), command("ab")).into_new_event() {
        Err(e @ Error::ValidationErrors(_)) => {
            assert_eq!(e.to_string(), "The field .name must be at least 3 characters long")
        }
        other => panic!("unexpected outcome {:?}", other),
    }
}

#[test]
fn created_event_becomes_document() {
    let msg = CreatedEventMessage(
        "cobase:group-V1StGXR8_Z5jdHi6B-myT".to_string(),
        Created { user_id: "u1".to_string(), name: "friends".to_string() },
    );
    let (key, doc) = msg.into_document();
    assert_eq!(key, "cobase:group-V1StGXR8_Z5jdHi6B-myT");
    assert_eq!(doc, group("V1StGXR8_Z5jdHi6B-myT"));
}

#[test]
fn new_event_round_trips_to_document() {
    let event = Message("u1".to_string(), command("friends")).into_new_event().unwrap();
    let suffix = event.stream_id["cobase:group-".len()..].to_string();
    let (key, doc) = CreatedEventMessage(event.stream_id.clone(), event.data).into_document();
    assert_eq!(key, event.stream_id);
    assert_eq!(doc.id, suffix);
    assert_eq!(doc.user_id, "u1");
    assert_eq!(doc.name, "friends");
    assert_eq!(doc.doc_type, "cobase:group");
}

#[test]
fn groups_statement() {
    let q = FindGroupsQueryMessage("u1".to_string());
    assert_eq!(
        q.statement("cobase"),
        "select * from `cobase` where type = 'cobase:group' and user_id = 'u1'"
    );
}

#[test]
fn collect_all_groups() {
    let rows = vec![QueryRow::Found(group("a")), QueryRow::Found(group("b"))];
    assert_eq!(collect_groups(rows), Ok(vec![group("a"), group("b")]));
    assert_eq!(collect_groups(vec![]), Ok(vec![]));
}

#[test]
fn first_bad_row_ends_query() {
    let rows = vec![
        QueryRow::Found(group("a")),
        QueryRow::MissingBucket,
        QueryRow::Failed("stream broke".to_string()),
    ];
    assert_eq!(
        collect_groups(rows),
        Err(Error::Unkown("Bucket not found ::FindGroupsQueryMessage".to_string()))
    );
    let rows = vec![QueryRow::Failed("stream broke".to_string()), QueryRow::MissingBucket];
    assert_eq!(collect_groups(rows), Err(Error::Unkown("stream broke".to_string())));
    let rows = vec![QueryRow::Found(group("a")), QueryRow::Malformed("missing field `id`".to_string())];
    assert_eq!(collect_groups(rows), Err(Error::Unkown("missing field `id`".to_string())));
}

#[test]
fn group_created_notification() {
    let data = serde_json::Value::String("doc".to_string());
    let m = PubMessage::group_created("u1".to_string(), data.clone());
    assert_eq!(m.user_id, Some("u1".to_string()));
    assert_eq!(m.event_type, "created");
    assert_eq!(m.topic, "group");
    assert_eq!(m.data, data);
}
