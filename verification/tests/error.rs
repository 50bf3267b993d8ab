use dl_spotify::error::{
    report, CacheError, Error, Report, SessionError, EXIT_FAILURE, EXIT_SUCCESS,
};
use dl_spotify::track::ParseError;

fn session(message: &str) -> Error {
    Error::SessionError(SessionError { message: String::from(message) })
}

fn cache(message: &str) -> Error {
    Error::CacheError(CacheError { message: String::from(message) })
}

#[test]
fn malformed_identifier_has_one_message_for_every_defect() {
    assert_eq!(Error::SpotifyIdError(ParseError::InvalidLength).message(), "Can't parse <track-id>");
    assert_eq!(Error::SpotifyIdError(ParseError::InvalidCharacter).message(), "Can't parse <track-id>");
    assert_eq!(Error::SpotifyIdError(ParseError::OutOfRange).message(), "Can't parse <track-id>");
}

#[test]
fn session_failure_is_shown_in_the_session_layers_words() {
    assert_eq!(
        session("Login failed with reason: Bad credentials").message(),
        "Login failed with reason: Bad credentials"
    );
    assert_eq!(session("").message(), "");
}

#[test]
fn cache_failure_has_its_own_prefix() {
    assert_eq!(
        cache("Permission denied (os error 13)").message(),
        "Can't create librespot cache: Permission denied (os error 13)"
    );
    assert_eq!(cache("").message(), "Can't create librespot cache: ");
}

#[test]
fn the_three_failures_read_differently() {
    let malformed = Error::SpotifyIdError(ParseError::InvalidCharacter).message();
    let rejected = session("authentication rejected").message();
    let unusable = cache("authentication rejected").message();
    assert_ne!(malformed, rejected);
    assert_ne!(malformed, unusable);
    assert_ne!(rejected, unusable);
}

#[test]
fn each_cause_converts_to_its_variant() {
    assert_eq!(
        Error::from(ParseError::OutOfRange),
        Error::SpotifyIdError(ParseError::OutOfRange)
    );
    assert_eq!(
        Error::from(SessionError { message: String::from("network unreachable") }),
        session("network unreachable")
    );
    assert_eq!(
        Error::from(CacheError { message: String::from("disk full") }),
        cache("disk full")
    );
}

#[test]
fn exit_statuses() {
    assert_eq!(EXIT_SUCCESS, 0);
    assert_eq!(EXIT_FAILURE, 1);
}

#[test]
fn success_is_reported_silently_with_status_zero() {
    assert_eq!(report(&Ok(())), Report { status: 0, diagnostic: None });
}

#[test]
fn failure_is_reported_with_its_message_and_a_non_zero_status() {
    assert_eq!(
        report(&Err(Error::SpotifyIdError(ParseError::InvalidLength))),
        Report { status: 1, diagnostic: Some(String::from("Can't parse <track-id>")) }
    );
    assert_eq!(
        report(&Err(session("authentication rejected"))),
        Report { status: 1, diagnostic: Some(String::from("authentication rejected")) }
    );
    assert_eq!(
        report(&Err(cache("disk full"))),
        Report { status: 1, diagnostic: Some(String::from("Can't create librespot cache: disk full")) }
    );
}
