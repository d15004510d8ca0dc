use zero2prod::error::respond;
use zero2prod::response::{Body, Response};
use zero2prod::routes::health_check::health_check;
use zero2prod::routes::subscriptions::{subscribe, Action, Ingestion, Submission};
use zero2prod::store::Subscription;

/// Drives one request to its end against a table kept in memory, which
/// takes every row it is handed.
fn post(table: &mut Vec<Subscription>, body: &str) -> Response {
    let mut stage = Ingestion::Receiving(Submission {
        body: body.as_bytes().to_vec(),
        content_type: Some("application/x-www-form-urlencoded".to_string()),
    });
    loop {
        match subscribe(stage) {
            Action::Insert(row) => {
                table.push(row);
                stage = Ingestion::Validated(Ok(()));
            }
            Action::Finish(outcome) => return respond(outcome),
        }
    }
}

#[test]
fn health_check_works() {
    let response = health_check();
    assert!((200..300).contains(&response.status));
    assert_eq!(Body::Empty, response.body);
}

#[test]
fn subscribe_returns_a_200_for_valid_form_data() {
    let mut table = Vec::new();
    let body = "name=le%20guin&email=ursula_le_guin%40gmail.com";
    let response = post(&mut table, body);
    assert_eq!(200, response.status);
    assert_eq!(Body::Empty, response.body);
    assert_eq!(1, table.len());
    let saved = &table[0];
    assert_eq!(saved.email, "ursula_le_guin@gmail.com");
    assert_eq!(saved.name, "le guin");
}

#[test]
fn subscribe_returns_a_400_when_data_is_missing() {
    let mut table = Vec::new();
    let test_cases = vec![
        ("name=le%20guin", "missing the email"),
        ("email=ursula_le_guin%40gmail.com", "missing the name"),
        ("", "missing both name and email"),
    ];
    for (body, err_msg) in test_cases {
        let response = post(&mut table, body);
        assert_eq!(
            400, response.status,
            "The API did not fail with 400 Bad Request when the payload was {}.",
            err_msg,
        );
        assert_eq!(0, table.len());
    }
}

#[test]
fn health_check_has_status_200() {
    assert_eq!(200, health_check().status);
}

#[test]
fn subscribe_with_only_a_name_persists_nothing() {
    let mut table = Vec::new();
    let response = post(&mut table, "name=le%20guin");
    assert_eq!(400, response.status);
    assert_eq!(
        Body::Json(
            "{\"error\":\"Failed to deserialize form body: missing field `email`\"}".to_string()
        ),
        response.body
    );
    assert!(table.is_empty());
}

#[test]
fn subscribe_with_an_empty_payload_persists_nothing() {
    let mut table = Vec::new();
    let response = post(&mut table, "");
    assert_eq!(400, response.status);
    assert_eq!(
        Body::Json(
            "{\"error\":\"Failed to deserialize form body: missing field `name`\"}".to_string()
        ),
        response.body
    );
    assert!(table.is_empty());
}

#[test]
fn subscribe_accepts_empty_values() {
    let mut table = Vec::new();
    let response = post(&mut table, "name=&email=");
    assert_eq!(200, response.status);
    assert_eq!(1, table.len());
    assert_eq!("", table[0].name);
    assert_eq!("", table[0].email);
}

#[test]
fn subscribe_accepts_the_same_email_twice() {
    let mut table = Vec::new();
    assert_eq!(200, post(&mut table, "name=a&email=same%40example.com").status);
    assert_eq!(200, post(&mut table, "name=b&email=same%40example.com").status);
    assert_eq!(2, table.len());
    assert_eq!(table[0].email, table[1].email);
    assert_ne!(table[0].id, table[1].id);
}

#[test]
fn many_submissions_give_as_many_rows_with_distinct_ids() {
    let mut table = Vec::new();
    for i in 0..200 {
        let body = format!("name=subscriber{}&email=subscriber{}%40example.com", i, i);
        assert_eq!(200, post(&mut table, &body).status);
    }
    assert_eq!(200, table.len());
    for i in 0..table.len() {
        assert_eq!(format!("subscriber{}", i), table[i].name);
        assert_eq!(format!("subscriber{}@example.com", i), table[i].email);
        for j in 0..i {
            assert_ne!(table[i].id, table[j].id);
        }
    }
}

#[test]
fn a_store_failure_is_answered_with_the_generic_message() {
    let stage = Ingestion::Receiving(Submission {
        body: b"name=le%20guin&email=ursula_le_guin%40gmail.com".to_vec(),
        content_type: Some("application/x-www-form-urlencoded".to_string()),
    });
    assert!(matches!(subscribe(stage), Action::Insert(_)));
    let verdict = Err(sqlx::Error::Protocol(
        "connection to 10.0.0.7:5432 refused".to_string(),
    ));
    let response = match subscribe(Ingestion::Validated(verdict)) {
        Action::Finish(outcome) => respond(outcome),
        Action::Insert(_) => panic!("a second insert was asked for"),
    };
    assert_eq!(500, response.status);
    assert_eq!(
        Body::Json("{\"error\":\"Internal server error\"}".to_string()),
        response.body
    );
}

#[test]
fn the_store_verdict_never_asks_for_another_insert() {
    assert!(matches!(
        subscribe(Ingestion::Validated(Ok(()))),
        Action::Finish(Ok(()))
    ));
    assert!(matches!(
        subscribe(Ingestion::Validated(Err(sqlx::Error::PoolTimedOut))),
        Action::Finish(Err(_))
    ));
}
