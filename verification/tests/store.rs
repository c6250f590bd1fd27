use iris_session::errors::Error;
use iris_session::store::{
    check_response, classify_outcome, count_peers, retrieve_bytes, RequestKind, RequestOutcome,
    Response, DEFAULT_REQUEST_DEADLINE_MS,
};

#[test]
fn classify_outcome_maps_each_failure_shape_to_its_error() {
    assert!(matches!(
        classify_outcome(RequestOutcome::CouldNotBuild),
        Err(Error::RequestConstructionFailed)
    ));
    assert!(matches!(
        classify_outcome(RequestOutcome::TimedOut),
        Err(Error::RequestTimedOut)
    ));
    assert!(matches!(
        classify_outcome(RequestOutcome::TransportFailed),
        Err(Error::RequestFailed)
    ));
}

#[test]
fn classify_outcome_passes_a_response_through() {
    let outcome = RequestOutcome::Responded(Response::CatBytes(vec![1, 2]));
    match classify_outcome(outcome) {
        Ok(Response::CatBytes(data)) => assert_eq!(data, vec![1, 2]),
        _ => unreachable!(),
    }
}

#[test]
fn check_response_accepts_the_owed_variant() {
    assert!(check_response(
        &RequestKind::Identity,
        &Response::Identity(vec![1], vec![vec![2]])
    ));
    assert!(check_response(&RequestKind::Connect(vec![1]), &Response::Success));
    assert!(check_response(&RequestKind::Disconnect(vec![1]), &Response::Success));
    assert!(check_response(&RequestKind::CatBytes(vec![1]), &Response::CatBytes(vec![9])));
    assert!(check_response(&RequestKind::AddBytes(vec![1]), &Response::AddBytes(vec![9])));
    assert!(check_response(&RequestKind::Peers, &Response::Peers(vec![])));
}

#[test]
fn check_response_rejects_a_mismatched_variant() {
    assert!(!check_response(&RequestKind::Identity, &Response::Success));
    assert!(!check_response(&RequestKind::CatBytes(vec![1]), &Response::AddBytes(vec![9])));
    assert!(!check_response(&RequestKind::Peers, &Response::CatBytes(vec![9])));
}

#[test]
fn count_peers_reports_the_peer_list_length() {
    assert_eq!(count_peers(&Response::Peers(vec![])), Some(0));
    assert_eq!(count_peers(&Response::Peers(vec![vec![1], vec![2], vec![3]])), Some(3));
}

#[test]
fn count_peers_rejects_any_other_variant() {
    assert_eq!(count_peers(&Response::Success), None);
    assert_eq!(count_peers(&Response::CatBytes(vec![1])), None);
}

#[test]
fn retrieve_bytes_hands_back_the_stored_value_or_empty() {
    assert_eq!(retrieve_bytes(Some(vec![1, 2, 3])), vec![1, 2, 3]);
    assert_eq!(retrieve_bytes(None), Vec::<u8>::new());
}

#[test]
fn the_default_deadline_is_five_seconds() {
    assert_eq!(DEFAULT_REQUEST_DEADLINE_MS, 5_000);
}
