//! The request correlator: classification of raw reply codes, the
//! single-delivery guarantee, and the proxy's acknowledgment handling.

use libportal::errors::TransportError;
use libportal::outcome::{classify, ResponseOutcome, ResponseType, DECLINE_CODE};
use libportal::proxy::accept_reply;
use libportal::request::{OutcomeEvent, RequestCorrelator, RequestHandle};
use libportal::value::{Value, VariantMap};
use libportal::wallpaper::WallpaperResponse;

#[test]
fn classify_maps_the_well_known_codes() {
    let mut payload = VariantMap::new();
    payload.insert("uri", Value::Str("file:///tmp/shot.png".to_string()));
    let success = classify(0, payload.clone());
    assert_eq!(success, ResponseOutcome::Success(payload));

    assert_eq!(classify(DECLINE_CODE, VariantMap::new()), ResponseOutcome::Cancelled);
    assert_eq!(classify(7, VariantMap::new()), ResponseOutcome::Other(7));
}

#[test]
fn response_type_from_code() {
    assert_eq!(ResponseType::from_code(0), ResponseType::Success);
    assert_eq!(ResponseType::from_code(DECLINE_CODE), ResponseType::Cancelled);
    assert_eq!(ResponseType::from_code(2), ResponseType::Other);
}

#[test]
fn a_wallpaper_response_succeeds_only_on_the_success_tag() {
    assert!(WallpaperResponse(ResponseType::Success, VariantMap::new()).is_success());
    assert!(!WallpaperResponse(ResponseType::Cancelled, VariantMap::new()).is_success());
    assert!(!WallpaperResponse(ResponseType::Other, VariantMap::new()).is_success());
}

#[test]
fn await_outcome_caches_the_first_delivery() {
    let handle = RequestHandle::new("/org/freedesktop/portal/desktop/request/demo/1".to_string());
    let token = handle.token().clone();
    let mut correlator = RequestCorrelator::subscribe(handle);
    assert!(!correlator.is_resolved());
    assert_eq!(correlator.outcome(), None);

    let mut payload = VariantMap::new();
    payload.insert("uri", Value::Str("file:///tmp/shot.png".to_string()));
    let first = correlator.await_outcome(&OutcomeEvent {
        handle_token: token.clone(),
        code: 0,
        payload: payload.clone(),
    });
    assert_eq!(first, ResponseOutcome::Success(payload));
    assert!(correlator.is_resolved());

    // A second delivery, whatever it carries, returns the identical
    // cached outcome instead of resolving again.
    let second = correlator.await_outcome(&OutcomeEvent {
        handle_token: token,
        code: 2,
        payload: VariantMap::new(),
    });
    assert_eq!(second, first);
    assert_eq!(correlator.outcome(), Some(&first));
}

#[test]
fn accept_reply_subscribes_to_the_returned_handle() {
    let correlator = accept_reply(Ok("/req/42".to_string())).unwrap();
    assert!(!correlator.is_resolved());
}

#[test]
fn accept_reply_surfaces_a_transport_error() {
    let r = accept_reply(Err(TransportError::InterfaceAbsent));
    assert_eq!(r.err(), Some(TransportError::InterfaceAbsent));

    let r = accept_reply(Err(TransportError::Unreachable));
    assert_eq!(r.err(), Some(TransportError::Unreachable));

    let r = accept_reply(Err(TransportError::MalformedCall));
    assert_eq!(r.err(), Some(TransportError::MalformedCall));
}
