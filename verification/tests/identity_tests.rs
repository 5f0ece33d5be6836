use nautilus::errors::ResolveError;
use nautilus::identity::ResolveAction;
use nautilus::identity::ResolveEvent;
use nautilus::identity::ResolvePhase;
use nautilus::identity::SubjectStore;
use nautilus::identity::build_new_user;
use nautilus::identity::parse_access_token;
use nautilus::identity::parse_profile;
use nautilus::identity::resolve_start;
use nautilus::identity::resolve_step;
use nautilus::models::Profile;
use nautilus::models::UserType;

const PROFILE_JSON: &str = r#"{
    "user_id": "auth0|subject123",
    "given_name": "Jane",
    "family_name": "Doe",
    "email": "jane@example.test",
    "picture": "https://cdn.example.test/jane.png",
    "locale": "en"
}"#;

fn admins() -> Vec<String> {
    vec!["root@example.test".to_string(), "jane@example.test".to_string()]
}

fn profile() -> Profile {
    parse_profile(PROFILE_JSON).unwrap()
}

#[test]
fn profile_payload_parses_into_required_fields() {
    let p = profile();
    assert_eq!(p.given_name, "Jane");
    assert_eq!(p.family_name, "Doe");
    assert_eq!(p.email, "jane@example.test");
    assert_eq!(p.picture, "https://cdn.example.test/jane.png");
    assert_eq!(p.user_id, "auth0|subject123");
}

#[test]
fn profile_missing_a_required_field_is_a_hard_error() {
    let missing_email = r#"{"user_id":"u","given_name":"a","family_name":"b","picture":"c"}"#;
    assert!(matches!(parse_profile(missing_email), Err(ResolveError::ProviderUnavailable)));
    assert!(matches!(parse_profile("not json"), Err(ResolveError::ProviderUnavailable)));
    assert!(matches!(parse_profile("[]"), Err(ResolveError::ProviderUnavailable)));
}

#[test]
fn access_token_is_read_from_the_credential_payload() {
    let body = r#"{"access_token":"tok-123","token_type":"Bearer"}"#;
    assert_eq!(parse_access_token(body).unwrap(), "tok-123");
    assert!(matches!(
        parse_access_token(r#"{"token_type":"Bearer"}"#),
        Err(ResolveError::ProviderUnavailable)
    ));
}

#[test]
fn new_user_carries_the_profile_and_the_defaults() {
    let u = build_new_user(&profile(), 42, &admins());
    assert_eq!(u.first_name, "Jane");
    assert_eq!(u.last_name, "Doe");
    assert_eq!(u.user_name, "JaneDoe42");
    assert_eq!(u.email, "jane@example.test");
    assert_eq!(u.image, "https://cdn.example.test/jane.png");
    assert_eq!(u.provider_id, "auth0|subject123");
    assert_eq!(u.user_type, UserType::User);
    assert!(u.is_admin);
    assert!(!u.onboarding_completed);
    assert!(!u.beta_access);
    assert_eq!(u.phone_number, "");
    assert_eq!(u.bio, "");
    assert_eq!(u.gender, "");
    assert_eq!(u.training_approach, "");
    assert_eq!(u.training_years, 0);
    assert_eq!(u.training_specializations, "");
    assert_eq!(u.goals, "");
    assert_eq!(u.weight, 0);
    assert!(u.birthday.is_none());
}

#[test]
fn fresh_usernames_carry_a_numeric_suffix() {
    let u = nautilus::identity::build_new_user_fresh(&profile(), &admins());
    assert!(u.user_name.starts_with("JaneDoe"));
    let suffix = &u.user_name["JaneDoe".len()..];
    assert!(!suffix.is_empty());
    assert!(suffix.parse::<u32>().is_ok());
}

#[test]
fn admin_flag_comes_from_the_allow_list_alone() {
    let u = build_new_user(&profile(), 7, &vec!["root@example.test".to_string()]);
    assert!(!u.is_admin);
    let u = build_new_user(&profile(), 7, &Vec::new());
    assert!(!u.is_admin);
}

#[test]
fn store_lookup_finds_only_known_subjects() {
    let mut store = SubjectStore::new();
    assert!(store.lookup("auth0|subject123").is_none());
    let id = uuid::Uuid::from_u128(1);
    assert!(store.insert_unique("auth0|subject123", id));
    assert_eq!(store.lookup("auth0|subject123"), Some(id));
    assert!(store.lookup("auth0|other").is_none());
}

#[test]
fn create_race_leaves_one_row_and_one_id() {
    let mut store = SubjectStore::new();
    let winner = uuid::Uuid::from_u128(0xA);
    let loser = uuid::Uuid::from_u128(0xB);

    // Both callers saw the subject missing; the store's uniqueness
    // constraint lets exactly one insert through.
    assert!(store.insert_unique("auth0|fresh", winner));
    assert!(!store.insert_unique("auth0|fresh", loser));

    // The loser retries the lookup and reads the winner's id.
    assert_eq!(store.lookup("auth0|fresh"), Some(winner));
    assert_eq!(store.len(), 1);
}

#[test]
fn resolution_starts_with_a_lookup() {
    let (phase, action) = resolve_start();
    assert_eq!(phase, ResolvePhase::AwaitingLookup);
    assert!(matches!(action, ResolveAction::LookupSubject));
}

#[test]
fn known_subject_resolves_on_the_fast_path() {
    let id = uuid::Uuid::from_u128(9);
    let (phase, action) = resolve_step(
        ResolvePhase::AwaitingLookup,
        ResolveEvent::SubjectFound(id),
        &admins(),
    );
    assert_eq!(phase, ResolvePhase::Finished);
    match action {
        ResolveAction::Done(Ok(found)) => assert_eq!(found, id),
        _ => panic!("expected a resolved id"),
    }
}

#[test]
fn unknown_subject_fetches_a_profile_then_inserts() {
    let (phase, action) = resolve_step(
        ResolvePhase::AwaitingLookup,
        ResolveEvent::SubjectMissing,
        &admins(),
    );
    assert_eq!(phase, ResolvePhase::AwaitingProfile);
    assert!(matches!(action, ResolveAction::FetchProfile));

    let (phase, action) = resolve_step(
        ResolvePhase::AwaitingProfile,
        ResolveEvent::ProfileFetched(profile()),
        &admins(),
    );
    assert_eq!(phase, ResolvePhase::AwaitingInsert);
    match action {
        ResolveAction::InsertUser(u) => {
            assert_eq!(u.provider_id, "auth0|subject123");
            assert!(u.user_name.starts_with("JaneDoe"));
        },
        _ => panic!("expected an insert"),
    }

    let id = uuid::Uuid::from_u128(3);
    let (phase, action) = resolve_step(
        ResolvePhase::AwaitingInsert,
        ResolveEvent::InsertOk(id),
        &admins(),
    );
    assert_eq!(phase, ResolvePhase::Finished);
    match action {
        ResolveAction::Done(Ok(found)) => assert_eq!(found, id),
        _ => panic!("expected a resolved id"),
    }
}

#[test]
fn profile_fetch_failure_is_a_provider_fault_and_persists_nothing() {
    let (phase, action) = resolve_step(
        ResolvePhase::AwaitingProfile,
        ResolveEvent::ProfileUnavailable,
        &admins(),
    );
    assert_eq!(phase, ResolvePhase::Finished);
    assert!(matches!(
        action,
        ResolveAction::Done(Err(ResolveError::ProviderUnavailable))
    ));
}

#[test]
fn duplicate_insert_retries_the_lookup_once() {
    let (phase, action) = resolve_step(
        ResolvePhase::AwaitingInsert,
        ResolveEvent::InsertDuplicate,
        &admins(),
    );
    assert_eq!(phase, ResolvePhase::AwaitingRetryLookup);
    assert!(matches!(action, ResolveAction::LookupSubject));

    let id = uuid::Uuid::from_u128(4);
    let (phase, action) = resolve_step(
        ResolvePhase::AwaitingRetryLookup,
        ResolveEvent::SubjectFound(id),
        &admins(),
    );
    assert_eq!(phase, ResolvePhase::Finished);
    match action {
        ResolveAction::Done(Ok(found)) => assert_eq!(found, id),
        _ => panic!("expected the winner's id"),
    }
}

#[test]
fn other_persistence_failures_are_internal_errors() {
    let (phase, action) = resolve_step(
        ResolvePhase::AwaitingInsert,
        ResolveEvent::InsertFailed,
        &admins(),
    );
    assert_eq!(phase, ResolvePhase::Finished);
    assert!(matches!(action, ResolveAction::Done(Err(ResolveError::InternalError))));

    let (_, action) = resolve_step(
        ResolvePhase::AwaitingRetryLookup,
        ResolveEvent::SubjectMissing,
        &admins(),
    );
    assert!(matches!(action, ResolveAction::Done(Err(ResolveError::InternalError))));
}

#[test]
fn whole_first_use_resolution_against_the_store() {
    let mut store = SubjectStore::new();
    let fresh_id = uuid::Uuid::from_u128(77);
    let subject = "auth0|subject123";

    let (mut phase, mut action) = resolve_start();
    let mut resolved: Option<uuid::Uuid> = None;
    for _ in 0..6 {
        let event = match action {
            ResolveAction::LookupSubject => match store.lookup(subject) {
                Some(id) => ResolveEvent::SubjectFound(id),
                None => ResolveEvent::SubjectMissing,
            },
            ResolveAction::FetchProfile => ResolveEvent::ProfileFetched(profile()),
            ResolveAction::InsertUser(u) => {
                if store.insert_unique(&u.provider_id, fresh_id) {
                    ResolveEvent::InsertOk(fresh_id)
                } else {
                    ResolveEvent::InsertDuplicate
                }
            },
            ResolveAction::Done(outcome) => {
                resolved = Some(outcome.unwrap());
                break;
            },
        };
        let (next_phase, next_action) = resolve_step(phase, event, &admins());
        phase = next_phase;
        action = next_action;
    }
    assert_eq!(resolved, Some(fresh_id));
    assert_eq!(store.lookup(subject), Some(fresh_id));
    assert_eq!(store.len(), 1);
}
