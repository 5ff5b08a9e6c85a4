use mail_fetch::client::{
    Action, ClientError, Credentials, CredentialsOAuth, CredentialsToken, Event, GmailClient,
    Phase, TokenResponse,
};
use mail_fetch::gmail::messages_list;
use mail_fetch::request::{Method, RequestBody, RequestDescriptor};

fn credentials(access_token: &str, refresh_token: Option<&str>) -> Credentials {
    Credentials {
        oauth: CredentialsOAuth {
            client_id: "client-1".to_string(),
            project_id: "project-1".to_string(),
            auth_uri: "https://accounts.example.org/auth".to_string(),
            token_uri: "https://accounts.example.org/token".to_string(),
            auth_provider_x509_cert_url: "https://accounts.example.org/certs".to_string(),
            client_secret: "hush".to_string(),
            redirect_uris: vec!["http://localhost".to_string()],
        },
        token: CredentialsToken {
            refresh_token: refresh_token.map(|token| token.to_string()),
            access_token: access_token.to_string(),
            expires_in: Some(3599),
            scope: "mail.read".to_string(),
            token_type: "Bearer".to_string(),
            refresh_token_expires_in: None,
        },
    }
}

fn token_payload(access_token: &str, refresh_token: Option<&str>) -> CredentialsToken {
    CredentialsToken {
        refresh_token: refresh_token.map(|token| token.to_string()),
        access_token: access_token.to_string(),
        expires_in: Some(10),
        scope: "other.scope".to_string(),
        token_type: "Other".to_string(),
        refresh_token_expires_in: Some(99),
    }
}

fn token_event(status: u16, body: &str, token: Option<CredentialsToken>) -> Event {
    Event::Token(TokenResponse { status, body: body.to_string(), token })
}

fn client(access_token: &str, refresh_token: Option<&str>) -> GmailClient {
    GmailClient::new(credentials(access_token, refresh_token)).unwrap()
}

fn request() -> RequestDescriptor {
    messages_list(Some(5)).unwrap()
}

fn bearer(action: &Action) -> String {
    match action {
        Action::Transmit(request) => {
            let header = request.headers.last().unwrap();
            assert_eq!(header.name, "Authorization");
            header.value.clone()
        },
        other => panic!("expected a request to send, got {:?}", other),
    }
}

fn failure(action: Action) -> ClientError {
    match action {
        Action::Fail(error) => error,
        other => panic!("expected a failure, got {:?}", other),
    }
}

#[test]
fn answer_other_than_unauthorized_is_delivered_as_it_stands() {
    for status in [200u16, 204, 301, 400, 403, 404, 500] {
        let mut client = client("old", Some("refresh"));
        let request = request();
        let (phase, action) = client.send(&request, Phase::Ready, Event::Begin);
        assert_eq!(phase, Phase::AwaitingResponse);
        assert_eq!(bearer(&action), "Bearer old");
        let (phase, action) = client.send(&request, phase, Event::Response { status });
        assert_eq!(phase, Phase::Finished);
        assert!(matches!(action, Action::Deliver { status: delivered } if delivered == status));
        assert_eq!(client.credentials().token.access_token, "old");
    }
}

#[test]
fn unauthorized_leads_to_one_refresh_and_one_retry() {
    let mut client = client("old", Some("refresh"));
    let request = request();
    let mut actions: Vec<Action> = Vec::new();
    let events = vec![
        Event::Begin,
        Event::Response { status: 401 },
        token_event(200, "{}", Some(token_payload("new", None))),
        Event::Persisted,
        Event::Response { status: 401 },
    ];
    let mut phase = Phase::Ready;
    for event in events {
        let (next, action) = client.send(&request, phase, event);
        phase = next;
        actions.push(action);
    }
    assert_eq!(phase, Phase::Finished);
    assert_eq!(actions.len(), 5);
    assert_eq!(bearer(&actions[0]), "Bearer old");
    assert!(matches!(&actions[1], Action::RequestToken(_)));
    assert!(matches!(&actions[2], Action::Persist));
    assert_eq!(bearer(&actions[3]), "Bearer new");
    assert!(matches!(&actions[4], Action::Deliver { status: 401 }));
    assert_eq!(actions.iter().filter(|action| matches!(action, Action::RequestToken(_))).count(), 1);
    assert_eq!(actions.iter().filter(|action| matches!(action, Action::Transmit(_))).count(), 2);
    let (phase, action) = client.send(&request, phase, Event::Response { status: 401 });
    assert_eq!(phase, Phase::Finished);
    assert!(matches!(failure(action), ClientError::OutOfTurn));
}

#[test]
fn retried_request_is_the_same_request_under_the_new_token() {
    let mut client = client("old", Some("refresh"));
    let request = request();
    let (_, first) = client.send(&request, Phase::Ready, Event::Begin);
    client.send(&request, Phase::AwaitingResponse, Event::Response { status: 401 });
    client.send(
        &request,
        Phase::AwaitingToken,
        token_event(200, "{}", Some(token_payload("new", None))),
    );
    let (phase, second) = client.send(&request, Phase::AwaitingPersistence, Event::Persisted);
    assert_eq!(phase, Phase::AwaitingRetry);
    match (first, second) {
        (Action::Transmit(first), Action::Transmit(second)) => {
            assert_eq!(first.method, second.method);
            assert_eq!(first.url, second.url);
            assert_eq!(first.url, request.url);
            assert_eq!(first.headers.len(), request.headers.len() + 1);
            assert_eq!(second.headers.len(), request.headers.len() + 1);
            assert_eq!(first.headers[0].value, "Bearer old");
            assert_eq!(second.headers[0].value, "Bearer new");
        },
        _ => panic!("both attempts send the request"),
    }
    assert_eq!(request.headers.len(), 0);
}

#[test]
fn refresh_asks_the_token_endpoint_with_the_form() {
    let mut client = client("old", Some("refresh-1"));
    let (phase, action) = client.refresh_access_token(Phase::Ready, Event::Begin);
    assert_eq!(phase, Phase::AwaitingToken);
    let request = match action {
        Action::RequestToken(request) => request,
        other => panic!("expected a token request, got {:?}", other),
    };
    assert_eq!(request.method, Method::Post);
    assert_eq!(request.url, "https://accounts.example.org/token");
    assert_eq!(request.headers.len(), 1);
    assert_eq!(request.headers[0].name, "Content-Type");
    assert_eq!(request.headers[0].value, "application/x-www-form-urlencoded");
    let fields: Vec<(String, String)> = match request.body {
        RequestBody::Form(fields) => {
            fields.into_iter().map(|field| (field.name, field.value)).collect()
        },
        _ => panic!("a token request carries a form"),
    };
    assert_eq!(
        fields,
        vec![
            ("client_id".to_string(), "client-1".to_string()),
            ("client_secret".to_string(), "hush".to_string()),
            ("refresh_token".to_string(), "refresh-1".to_string()),
            ("grant_type".to_string(), "refresh_token".to_string()),
        ]
    );
}

#[test]
fn refresh_without_refresh_token_fails_before_anything_is_sent() {
    let mut client = client("old", None);
    let (phase, action) = client.refresh_access_token(Phase::Ready, Event::Begin);
    assert_eq!(phase, Phase::Finished);
    let error = failure(action);
    assert!(matches!(error, ClientError::MissingRefreshToken));
    assert_eq!(error.message(), "no refresh token in credentials");

    let request = request();
    let (phase, _) = client.send(&request, Phase::Ready, Event::Begin);
    let (phase, action) = client.send(&request, phase, Event::Response { status: 401 });
    assert_eq!(phase, Phase::Finished);
    assert!(matches!(failure(action), ClientError::MissingRefreshToken));
}

#[test]
fn refresh_overwrites_only_the_access_token() {
    let mut client = client("old", Some("refresh-1"));
    client.refresh_access_token(Phase::Ready, Event::Begin);
    let (phase, action) = client.refresh_access_token(
        Phase::AwaitingToken,
        token_event(200, "{}", Some(token_payload("new", Some("refresh-2")))),
    );
    assert_eq!(phase, Phase::AwaitingPersistence);
    assert!(matches!(action, Action::Persist));
    let (phase, action) = client.refresh_access_token(phase, Event::Persisted);
    assert_eq!(phase, Phase::Finished);
    assert!(matches!(action, Action::Refreshed));
    let held = client.credentials();
    assert_eq!(held.token.access_token, "new");
    assert_eq!(held.token.refresh_token, Some("refresh-1".to_string()));
    assert_eq!(held.token.expires_in, Some(3599));
    assert_eq!(held.token.scope, "mail.read");
    assert_eq!(held.token.token_type, "Bearer");
    assert_eq!(held.token.refresh_token_expires_in, None);
    assert_eq!(held.oauth.client_id, "client-1");
    assert_eq!(held.oauth.client_secret, "hush");
    assert_eq!(held.oauth.token_uri, "https://accounts.example.org/token");
    assert_eq!(held.oauth.redirect_uris, vec!["http://localhost".to_string()]);
}

#[test]
fn rejected_refresh_carries_status_and_body() {
    for status in [199u16, 300, 400, 401, 500] {
        let mut client = client("old", Some("refresh"));
        client.refresh_access_token(Phase::Ready, Event::Begin);
        let (phase, action) = client.refresh_access_token(
            Phase::AwaitingToken,
            token_event(status, "invalid_grant", Some(token_payload("new", None))),
        );
        assert_eq!(phase, Phase::Finished);
        let error = failure(action);
        assert!(matches!(
            &error,
            ClientError::UpstreamRejected { status: rejected, body }
                if *rejected == status && body == "invalid_grant"
        ));
        assert_eq!(client.credentials().token.access_token, "old");
    }
    let error = ClientError::UpstreamRejected { status: 400, body: "invalid_grant".to_string() };
    assert_eq!(error.message(), "token endpoint answered 400: invalid_grant");
}

#[test]
fn every_success_status_is_taken_as_a_success() {
    for status in [200u16, 201, 299] {
        let mut client = client("old", Some("refresh"));
        client.refresh_access_token(Phase::Ready, Event::Begin);
        let (phase, _) = client.refresh_access_token(
            Phase::AwaitingToken,
            token_event(status, "{}", Some(token_payload("new", None))),
        );
        assert_eq!(phase, Phase::AwaitingPersistence);
        assert_eq!(client.credentials().token.access_token, "new");
    }
}

#[test]
fn success_without_a_usable_token_fails_the_refresh() {
    for token in [None, Some(token_payload("", None))] {
        let mut client = client("old", Some("refresh"));
        client.refresh_access_token(Phase::Ready, Event::Begin);
        let (phase, action) =
            client.refresh_access_token(Phase::AwaitingToken, token_event(200, "?", token));
        assert_eq!(phase, Phase::Finished);
        assert!(matches!(failure(action), ClientError::MalformedToken));
        assert_eq!(client.credentials().token.access_token, "old");
    }
}

#[test]
fn failed_persistence_fails_the_refresh_and_keeps_the_new_token() {
    let mut client = client("old", Some("refresh"));
    let request = request();
    let (phase, _) = client.send(&request, Phase::Ready, Event::Begin);
    let (phase, _) = client.send(&request, phase, Event::Response { status: 401 });
    let (phase, action) =
        client.send(&request, phase, token_event(200, "{}", Some(token_payload("new", None))));
    assert!(matches!(action, Action::Persist));
    let (phase, action) = client.send(&request, phase, Event::PersistFailed);
    assert_eq!(phase, Phase::Finished);
    assert!(matches!(failure(action), ClientError::PersistenceFailure));
    assert_eq!(client.credentials().token.access_token, "new");
}

#[test]
fn transport_failure_ends_the_exchange_in_every_waiting_phase() {
    for phase in [Phase::AwaitingResponse, Phase::AwaitingToken, Phase::AwaitingRetry] {
        let mut client = client("old", Some("refresh"));
        let (next, action) = client.send(&request(), phase, Event::TransportFailed);
        assert_eq!(next, Phase::Finished);
        assert!(matches!(failure(action), ClientError::TransportFailure));
    }
    let mut client = client("old", Some("refresh"));
    let (next, action) = client.refresh_access_token(Phase::AwaitingToken, Event::TransportFailed);
    assert_eq!(next, Phase::Finished);
    assert!(matches!(failure(action), ClientError::TransportFailure));
}

#[test]
fn event_out_of_turn_ends_the_exchange() {
    let mut client = client("old", Some("refresh"));
    let request = request();
    let (phase, action) = client.send(&request, Phase::Ready, Event::Persisted);
    assert_eq!(phase, Phase::Finished);
    assert!(matches!(failure(action), ClientError::OutOfTurn));
    let (phase, action) = client.send(&request, Phase::Finished, Event::Begin);
    assert_eq!(phase, Phase::Finished);
    assert!(matches!(failure(action), ClientError::OutOfTurn));
    let (phase, action) = client.send(&request, Phase::AwaitingPersistence, Event::TransportFailed);
    assert_eq!(phase, Phase::Finished);
    assert!(matches!(failure(action), ClientError::OutOfTurn));
    let (phase, action) =
        client.refresh_access_token(Phase::AwaitingResponse, Event::Response { status: 200 });
    assert_eq!(phase, Phase::Finished);
    assert!(matches!(failure(action), ClientError::OutOfTurn));
    let (phase, action) = client.send(&request, Phase::AwaitingRetry, Event::Persisted);
    assert_eq!(phase, Phase::Finished);
    assert!(matches!(failure(action), ClientError::OutOfTurn));
}

#[test]
fn credentials_without_access_token_are_turned_down() {
    let error = GmailClient::new(credentials("", Some("refresh"))).err().unwrap();
    assert!(matches!(error, ClientError::CredentialsUnavailable));
    assert_eq!(error.message(), "no access token in credentials");
    assert!(GmailClient::new(credentials("t", None)).is_ok());
}

fn event(kind: usize) -> Event {
    match kind {
        0 => Event::Begin,
        1 => Event::Response { status: 200 },
        2 => Event::Response { status: 401 },
        3 => token_event(200, "{}", Some(token_payload("new", Some("other")))),
        4 => token_event(400, "no", None),
        5 => Event::Persisted,
        6 => Event::PersistFailed,
        _ => Event::TransportFailed,
    }
}

#[test]
fn no_five_events_keep_an_exchange_going_or_refresh_it_twice() {
    let request = request();
    for code in 0..(8usize.pow(5)) {
        for refresh_token in [None, Some("refresh")] {
            let mut client = client("old", refresh_token);
            let mut phase = Phase::Ready;
            let mut token_requests = 0;
            let mut transmissions = 0;
            let mut rest = code;
            for _ in 0..5 {
                let (next, action) = client.send(&request, phase, event(rest % 8));
                rest /= 8;
                phase = next;
                match action {
                    Action::RequestToken(_) => token_requests += 1,
                    Action::Transmit(_) => transmissions += 1,
                    _ => {},
                }
            }
            assert_eq!(phase, Phase::Finished);
            assert!(token_requests <= 1);
            assert!(transmissions <= 2);
            if refresh_token.is_none() {
                assert_eq!(token_requests, 0);
                assert!(transmissions <= 1);
            }
            let held = client.credentials();
            assert_eq!(held.token.refresh_token, refresh_token.map(|token| token.to_string()));
            assert_eq!(held.token.scope, "mail.read");
            assert!(held.token.access_token == "old" || held.token.access_token == "new");
        }
    }
}

#[test]
fn no_three_events_keep_a_refresh_going() {
    for code in 0..(8usize.pow(3)) {
        let mut client = client("old", Some("refresh"));
        let mut phase = Phase::Ready;
        let mut rest = code;
        for _ in 0..3 {
            let (next, _) = client.refresh_access_token(phase, event(rest % 8));
            rest /= 8;
            phase = next;
        }
        assert_eq!(phase, Phase::Finished);
    }
}
