use plesk_solver::cache::ChallengeCache;
use plesk_solver::dispatch::{
    begin_dispatch, dispatch_request, finish_cleanup, finish_present, DispatchStep,
};
use plesk_solver::model::ChallengeRequest;
use plesk_solver::wire::response_to_json;

/// Decode a controller POST body the way the process edge does, into the
/// library's request type.
fn decode_request(body: &str) -> ChallengeRequest {
    let value: serde_json::Value = serde_json::from_str(body).expect("well-formed body");
    let request = value.get("request").expect("request member");
    let text = |name: &str| -> String {
        request
            .get(name)
            .and_then(|v| v.as_str())
            .expect(name)
            .to_string()
    };
    ChallengeRequest {
        uid: request.get("uid").and_then(|v| v.as_str()).map(|s| s.to_string()),
        action: text("action"),
        challenge_type: text("type"),
        dns_name: text("dnsName"),
        key: text("key"),
        resolved_fqdn: text("resolvedFQDN"),
        resolved_zone: text("resolvedZone"),
        resource_namespace: text("resourceNamespace"),
        allow_ambient_credentials: request
            .get("allowAmbientCredentials")
            .and_then(|v| v.as_bool())
            .expect("allowAmbientCredentials"),
        config: request.get("config").map(|v| v.to_string()),
    }
}

/// A `Present` on an empty cache asks the provider to add the challenge under
/// the request's key; a later `CleanUp` asks it to remove exactly the record
/// the provider returned, and the cache ends empty.
#[test]
fn present_then_cleanup_uses_presents_record_id() {
    let mut cache = ChallengeCache::new();

    let step = begin_dispatch(&mut cache, "Present", "tok1".to_string());
    let token = match step {
        DispatchStep::CallAddChallenge(token) => token,
        _ => panic!("Present on an empty cache must call the provider"),
    };
    assert_eq!(token, "tok1");

    // The provider answers with its record identifier.
    let resp = finish_present(&mut cache, Ok("rec-77".to_string()));
    assert!(resp.success);
    assert_eq!(cache.get().map(|s| s.as_str()), Some("rec-77"));

    let step = begin_dispatch(&mut cache, "CleanUp", "tok1".to_string());
    let removed = match step {
        DispatchStep::CallRemoveChallenge(id) => id,
        _ => panic!("CleanUp with a cached record must call the provider"),
    };
    assert_eq!(removed, "rec-77");
    assert!(cache.get().is_none());

    let resp = finish_cleanup(Ok(()));
    assert!(resp.success);
    assert!(cache.get().is_none());
}

/// Two `Present` requests in a row make exactly one provider call: the second
/// one succeeds from the cache alone.
#[test]
fn second_present_skips_the_provider() {
    let mut cache = ChallengeCache::new();
    let mut add_calls = 0;

    let step = begin_dispatch(&mut cache, "Present", "tok1".to_string());
    match step {
        DispatchStep::CallAddChallenge(_) => {
            add_calls += 1;
            let resp = finish_present(&mut cache, Ok("rec-1".to_string()));
            assert!(resp.success);
        }
        _ => panic!("first Present must call the provider"),
    }

    let step = begin_dispatch(&mut cache, "Present", "tok1".to_string());
    match step {
        DispatchStep::Respond(resp) => {
            assert!(resp.success);
            assert!(resp.status.is_none());
        }
        _ => panic!("second Present must not call the provider"),
    }

    assert_eq!(add_calls, 1);
    assert_eq!(cache.get().map(|s| s.as_str()), Some("rec-1"));
}

/// `CleanUp` with nothing cached fails with the fixed message and code 404.
#[test]
fn cleanup_with_empty_cache_fails_with_404() {
    let mut cache = ChallengeCache::new();
    let step = begin_dispatch(&mut cache, "CleanUp", "tok1".to_string());
    match step {
        DispatchStep::Respond(resp) => {
            assert!(!resp.success);
            let status = resp.status.expect("a failed response carries status");
            assert_eq!(status.code, 404);
            assert_eq!(status.message, "Record ID not found in cache");
            assert_eq!(status.reason, "Record ID not found in cache");
        }
        _ => panic!("CleanUp on an empty cache must not call the provider"),
    }
}

/// An unknown action fails with the generic invalid-action message and 404.
#[test]
fn bogus_action_fails_with_404() {
    let mut cache = ChallengeCache::new();
    let step = begin_dispatch(&mut cache, "Bogus", "tok1".to_string());
    match step {
        DispatchStep::Respond(resp) => {
            assert!(!resp.success);
            let status = resp.status.expect("a failed response carries status");
            assert_eq!(status.code, 404);
            assert_eq!(status.message, "Invalid action");
        }
        _ => panic!("an unknown action must not call the provider"),
    }
}

/// A provider failure during `Present` forwards the provider's message, keeps
/// code 404, and leaves the cache empty.
#[test]
fn provider_failure_during_present_is_forwarded() {
    let mut cache = ChallengeCache::new();
    match begin_dispatch(&mut cache, "Present", "tok1".to_string()) {
        DispatchStep::CallAddChallenge(_) => {}
        _ => panic!("Present on an empty cache must call the provider"),
    }
    let resp = finish_present(&mut cache, Err("upstream said no".to_string()));
    assert!(!resp.success);
    let status = resp.status.expect("a failed response carries status");
    assert_eq!(status.code, 404);
    assert_eq!(status.message, "upstream said no");
    assert_eq!(status.reason, "upstream said no");
    assert!(cache.get().is_none());
}

/// A provider failure during `CleanUp` forwards the message; the cache stays
/// cleared rather than restoring the record identifier.
#[test]
fn provider_failure_during_cleanup_leaves_cache_cleared() {
    let mut cache = ChallengeCache::new();
    cache.set("rec-9".to_string());
    match begin_dispatch(&mut cache, "CleanUp", "tok1".to_string()) {
        DispatchStep::CallRemoveChallenge(id) => assert_eq!(id, "rec-9"),
        _ => panic!("CleanUp with a cached record must call the provider"),
    }
    let resp = finish_cleanup(Err("record vanished".to_string()));
    assert!(!resp.success);
    let status = resp.status.expect("a failed response carries status");
    assert_eq!(status.code, 404);
    assert_eq!(status.message, "record vanished");
    assert!(cache.get().is_none());
}

/// The `Present` scenario on the wire: the controller's POST body is decoded,
/// dispatched against a provider whose `addChallenge` returns `rec-1`, and
/// answered with the bare success envelope; the cache then holds `rec-1`.
#[test]
fn present_scenario_on_the_wire() {
    let body = "{\"request\":{\"action\":\"Present\",\"type\":\"dns-01\",\
                 \"dnsName\":\"a.example.com\",\"key\":\"tok1\",\
                 \"resolvedFQDN\":\"_acme-challenge.a.example.com.\",\
                 \"resolvedZone\":\"example.com.\",\"resourceNamespace\":\"ns\",\
                 \"allowAmbientCredentials\":false}}";
    let request = decode_request(body);
    assert_eq!(request.action, "Present");
    assert_eq!(request.dns_name, "a.example.com");
    assert!(!request.allow_ambient_credentials);

    let mut cache = ChallengeCache::new();
    let resp = match dispatch_request(&mut cache, &request) {
        DispatchStep::Respond(resp) => resp,
        DispatchStep::CallAddChallenge(token) => {
            assert_eq!(token, "tok1");
            // Provider stub: addChallenge returns "rec-1".
            finish_present(&mut cache, Ok("rec-1".to_string()))
        }
        DispatchStep::CallRemoveChallenge(_) => panic!("Present never removes"),
    };

    assert_eq!(
        response_to_json(&resp),
        "{\"response\":{\"uid\":\"\",\"success\":true}}"
    );
    assert_eq!(cache.get().map(|s| s.as_str()), Some("rec-1"));
}

/// The follow-up `CleanUp` scenario: the same key, a provider stub whose
/// `removeChallenge("rec-1")` succeeds, the bare success envelope back, and an
/// empty cache.
#[test]
fn cleanup_scenario_on_the_wire() {
    let mut cache = ChallengeCache::new();
    cache.set("rec-1".to_string());

    let body = "{\"request\":{\"action\":\"CleanUp\",\"type\":\"dns-01\",\
                 \"dnsName\":\"a.example.com\",\"key\":\"tok1\",\
                 \"resolvedFQDN\":\"_acme-challenge.a.example.com.\",\
                 \"resolvedZone\":\"example.com.\",\"resourceNamespace\":\"ns\",\
                 \"allowAmbientCredentials\":false}}";
    let request = decode_request(body);
    assert_eq!(request.key, "tok1");

    let resp = match dispatch_request(&mut cache, &request) {
        DispatchStep::CallRemoveChallenge(id) => {
            // Provider stub: removeChallenge("rec-1") succeeds.
            assert_eq!(id, "rec-1");
            finish_cleanup(Ok(()))
        }
        _ => panic!("CleanUp with a cached record must call the provider"),
    };

    assert_eq!(
        response_to_json(&resp),
        "{\"response\":{\"uid\":\"\",\"success\":true}}"
    );
    assert!(cache.get().is_none());
}
