//! Language-model and notification adapters.

use ai_sre::adapters::llm::api::{classify_status, contract_failure, ResponseBody};
use ai_sre::adapters::llm::deepseek::{DeepSeekClient, DeepSeekResponse};
use ai_sre::adapters::llm::gemini::{GeminiClient, GeminiResponse};
use ai_sre::adapters::llm::openai::{
    classify_rig_status, complete_with_rig, AssistantPart, AuthCache, CacheError, CacheRead,
    OpenAiOAuth, RefreshFailure, RefreshReply, RefreshResponse, RefreshSession, RefreshedTokens,
    RigReply, StoreStep, Unattended, UnattendedEvent, UnattendedStep,
};
use ai_sre::adapters::llm::{ApiKey, ProviderFailure};
use ai_sre::adapters::ntfy::{
    render_message, render_message_with_view, NtfyConfig, NtfyError, NtfyPublisher,
};
use ai_sre::reasoning::contracts::{ContractError, InvestigationResult};
use ai_sre::reasoning::coordinator::FailureClass;
use ai_sre::reasoning::router::ProviderKind;

#[test]
fn ntfy_config_allows_one_publish_topic_only() {
    let valid = NtfyConfig {
        endpoint: "https://ntfy.example".to_owned(),
        topic: "ai-sre".to_owned(),
    };
    let invalid = NtfyConfig {
        endpoint: "http://ntfy.example".to_owned(),
        topic: "other/topic".to_owned(),
    };
    assert!(valid.is_valid());
    assert!(!invalid.is_valid());
}

#[test]
fn ntfy_config_rejects_url_userinfo_and_query_delimiters() {
    let userinfo = NtfyConfig {
        endpoint: "https://expected.example@attacker.example".to_owned(),
        topic: "ai-sre".to_owned(),
    };
    let query_topic = NtfyConfig {
        endpoint: "https://ntfy.example".to_owned(),
        topic: "ai-sre?x=1".to_owned(),
    };
    assert!(!userinfo.is_valid());
    assert!(!query_topic.is_valid());
}

fn config(endpoint: &str, topic: &str) -> NtfyConfig {
    NtfyConfig {
        endpoint: endpoint.to_owned(),
        topic: topic.to_owned(),
    }
}

#[test]
fn ntfy_destinations_are_checked_in_every_part() {
    assert!(config("  https://NTFY.example/base/  ", "a").is_valid());
    for endpoint in [
        "",
        "ntfy.example",
        "https://",
        "https://user:pw@ntfy.example",
        "https://:pw@ntfy.example",
        "https://ntfy.example?x=1",
        "https://ntfy.example#x",
        "mailto:a@b",
    ] {
        assert!(!config(endpoint, "a").is_valid(), "{endpoint}");
    }
    for topic in ["", "  ", "a/b", "a#b", "a\u{7}", "a\u{85}"] {
        assert!(!config("https://ntfy.example", topic).is_valid(), "{topic}");
    }
    assert!(config("https://ntfy.example", &"t".repeat(128)).is_valid());
    assert!(!config("https://ntfy.example", &"t".repeat(129)).is_valid());
}

fn result() -> InvestigationResult {
    InvestigationResult {
        incident_id: "incident 1/x".to_owned(),
        redacted_summary: "disk full".to_owned(),
        evidence_ids: vec!["e1".to_owned(), "e2".to_owned()],
        terminal_provider: Some(ProviderKind::DeepSeek),
    }
}

#[test]
fn publications_are_bounded_and_authenticated() {
    let publisher = NtfyPublisher::new(
        config("https://ntfy.example//", "ai-sre"),
        Some("token".to_owned()),
    );
    let request = publisher.publish_with_delivery_id("incident:report", "hello").unwrap();
    assert_eq!(request.url, "https://ntfy.example/ai-sre");
    assert_eq!(
        request.headers,
        vec![
            ("Title".to_owned(), "AI SRE shadow investigation".to_owned()),
            ("Tags".to_owned(), "mag,robot_face".to_owned()),
            ("X-Idempotency-Key".to_owned(), "incident:report".to_owned()),
        ]
    );
    assert_eq!(request.bearer.as_deref(), Some("token"));
    assert_eq!(request.body, "hello");
    assert_eq!(publisher.publish_message("x").unwrap().headers.len(), 2);
    assert!(publisher.publish_message(&"x".repeat(65536)).is_ok());
    assert!(matches!(
        publisher.publish_message(&"x".repeat(65537)),
        Err(NtfyError::Rejected)
    ));
    let whole = publisher.publish(&result()).unwrap();
    assert_eq!(whole.body, render_message(&result()));
    assert_eq!(publisher.settle(Some(200)), Ok(()));
    assert_eq!(publisher.settle(Some(202)), Err(NtfyError::Rejected));
    assert_eq!(publisher.settle(None), Err(NtfyError::Transport));
    let refused = NtfyPublisher::new(config("http://ntfy.example", "ai-sre"), None);
    assert!(matches!(refused.publish_message("x"), Err(NtfyError::Rejected)));
}

#[test]
fn reports_name_provider_evidence_and_mode() {
    assert_eq!(
        render_message(&result()),
        "Incident: incident 1/x\nProvider: DeepSeek\nSummary: disk full\nEvidence: 2 item(s)\nMode: shadow; no action executed."
    );
    let mut baseline = result();
    baseline.terminal_provider = None;
    baseline.redacted_summary = "s".repeat(60001);
    let text = render_message(&baseline);
    assert!(text.contains("\nProvider: deterministic-baseline\n"));
    assert!(text.contains(&format!("\nSummary: {}\n", "s".repeat(60000))));
    assert!(render_message_with_view(&result(), Some(" https://view.example/incidents "))
        .ends_with("executed.\nView: https://view.example/incidents/incident%201%2Fx"));
    assert_eq!(
        render_message_with_view(&result(), Some("not a url")),
        render_message(&result())
    );
    assert_eq!(
        render_message_with_view(&result(), Some("mailto:x@example.com")),
        render_message(&result())
    );
    assert_eq!(render_message_with_view(&result(), None), render_message(&result()));
}

#[test]
fn provider_statuses_are_classified_without_text() {
    for (status, class) in [
        (401, ProviderFailure::AuthenticationRequired),
        (403, ProviderFailure::AuthenticationRequired),
        (429, ProviderFailure::RateLimited),
        (500, ProviderFailure::TemporarilyUnavailable),
        (200, ProviderFailure::TemporarilyUnavailable),
    ] {
        assert_eq!(classify_status(status), class);
    }
    for error in [
        ContractError::MalformedProviderResponse,
        ContractError::UnknownEvidence("e".to_owned()),
        ContractError::EmptySummary,
        ContractError::MissingEvidence,
    ] {
        assert_eq!(contract_failure(&error), ProviderFailure::MalformedResponse);
    }
    for (status, class) in [
        (Some(401), FailureClass::AuthenticationRequired),
        (Some(403), FailureClass::AuthenticationRequired),
        (Some(429), FailureClass::RateLimited),
        (Some(503), FailureClass::TemporarilyUnavailable),
        (None, FailureClass::TemporarilyUnavailable),
    ] {
        assert_eq!(classify_rig_status(status), class);
    }
}

#[test]
fn response_bodies_stay_within_their_cap() {
    assert!(ResponseBody::start(Some(1048577)).is_err());
    let body = ResponseBody::start(Some(1048576)).ok().unwrap();
    let body = body.take(&[1; 1048575]).ok().unwrap();
    let body = body.take(&[2]).ok().unwrap();
    assert!(body.take(&[3]).is_err());
    let body = ResponseBody::start(None).ok().unwrap();
    let bytes = body.take(b"ab").ok().unwrap().take(b"c").ok().unwrap().finish();
    assert_eq!(bytes, b"abc".to_vec());
}

#[test]
fn secrets_do_not_appear_in_diagnostics() {
    let key = ApiKey::new("sk-test");
    assert_eq!(key.value(), "sk-test");
    assert_eq!(key.redacted(), "ApiKey(<redacted>)");
    let mut session = RefreshSession::new("one");
    assert_eq!(session.record(), "{\"refresh_token\":\"one\"}");
    session.rotate("t\"wo");
    assert_eq!(session.record(), "{\"refresh_token\":\"t\\\"wo\"}");
    assert_eq!(session.redacted(), "RefreshSession { .. }");
}

#[test]
fn reports_come_from_the_first_choice() {
    let client = DeepSeekClient::new("key");
    assert_eq!(client.endpoint(), "https://api.deepseek.com/chat/completions");
    assert_eq!(client.key().value(), "key");
    let choices = vec!["first".to_owned(), "second".to_owned()];
    assert_eq!(
        client.normalize_report(Some(DeepSeekResponse { choices })),
        Ok("first".to_owned())
    );
    assert_eq!(
        client.normalize_report(Some(DeepSeekResponse { choices: Vec::new() })),
        Err(ProviderFailure::MalformedResponse)
    );
    assert_eq!(
        client.normalize_report(None),
        Err(ProviderFailure::MalformedResponse)
    );
    let client = GeminiClient::new("key");
    assert_eq!(
        client.endpoint(),
        "https://generativelanguage.googleapis.com/v1beta/models/gemini-2.5-flash:generateContent"
    );
    assert_eq!(client.key().value(), "key");
    let candidates = vec![vec!["a".to_owned(), "b".to_owned()], vec!["c".to_owned()]];
    assert_eq!(
        client.normalize_report(Some(GeminiResponse { candidates })),
        Ok("a".to_owned())
    );
    for candidates in [Vec::new(), vec![Vec::new(), vec!["c".to_owned()]]] {
        assert_eq!(
            client.normalize_report(Some(GeminiResponse { candidates })),
            Err(ProviderFailure::MalformedResponse)
        );
    }
    assert_eq!(
        client.normalize_report(None),
        Err(ProviderFailure::MalformedResponse)
    );
}

#[test]
fn caches_without_a_token_are_invalid() {
    let cache = AuthCache::new("/var/lib/ai-sre/openai/auth.json");
    assert_eq!(cache.path(), "/var/lib/ai-sre/openai/auth.json");
    assert!(matches!(cache.load(CacheRead::Missing), Ok(None)));
    assert!(matches!(cache.load(CacheRead::Unreadable), Err(CacheError::Io)));
    assert!(matches!(cache.load(CacheRead::Read(None)), Err(CacheError::Invalid)));
    assert!(matches!(
        cache.load(CacheRead::Read(Some(" \n".to_owned()))),
        Err(CacheError::Invalid)
    ));
    let session = cache.load(CacheRead::Read(Some("token".to_owned()))).ok().unwrap().unwrap();
    assert_eq!(session.record(), "{\"refresh_token\":\"token\"}");
    assert_eq!(cache.temporary_name(Some("auth.json"), 42), ".auth.json.42.tmp");
    assert_eq!(cache.temporary_name(None, 0), ".auth.0.tmp");
}

#[test]
fn cache_replacement_renames_last_and_removes_what_failed() {
    let cache = AuthCache::new("/auth.json");
    let mut step = cache.store();
    let mut seen = Vec::new();
    while step.outcome().is_none() {
        seen.push(step);
        step = step.next(true);
    }
    assert_eq!(
        seen,
        vec![
            StoreStep::CreateParent,
            StoreStep::ProtectParent,
            StoreStep::CreateTemporary,
            StoreStep::ProtectTemporary,
            StoreStep::Write,
            StoreStep::Synchronize,
            StoreStep::Rename,
        ]
    );
    assert_eq!(step.outcome(), Some(Ok(())));
    for (index, failed) in seen.iter().enumerate() {
        let after = failed.next(false);
        if index < 2 {
            assert_eq!(after, StoreStep::Failed);
        } else {
            assert_eq!(after, StoreStep::RemoveTemporary);
            assert_eq!(after.next(false), StoreStep::Failed);
            assert_eq!(after.next(true), StoreStep::Failed);
        }
    }
    assert_eq!(StoreStep::Failed.outcome(), Some(Err(CacheError::Io)));
}

fn tokens(refresh: Option<&str>) -> RefreshResponse {
    RefreshResponse {
        access_token: "access".to_owned(),
        refresh_token: refresh.map(str::to_owned),
        expires_at: Some(9),
    }
}

#[test]
fn refreshes_keep_the_token_that_is_not_rotated() {
    let oauth = OpenAiOAuth::default();
    assert_eq!(oauth.endpoint(), "https://auth.openai.com/oauth/token");
    assert_eq!(OpenAiOAuth::with_endpoint("http://x").endpoint(), "http://x");
    let session = RefreshSession::new("old");
    assert_eq!(
        oauth.form(&session),
        vec![
            ("client_id".to_owned(), "app_EMoamEEZ73f0CkXaXp7hrann".to_owned()),
            ("grant_type".to_owned(), "refresh_token".to_owned()),
            ("refresh_token".to_owned(), "old".to_owned()),
            ("scope".to_owned(), "openid profile email".to_owned()),
        ]
    );
    let kept = oauth.refresh(&session, RefreshReply::Answered(200, Some(tokens(None)))).unwrap();
    assert_eq!(kept.refresh_token, "old");
    assert_eq!(kept.access_token, "access");
    assert_eq!(kept.expires_at, Some(9));
    let rotated = oauth
        .refresh(&session, RefreshReply::Answered(299, Some(tokens(Some("new")))))
        .unwrap();
    assert_eq!(rotated.refresh_token, "new");
    for (reply, failure) in [
        (RefreshReply::Unreachable, RefreshFailure::TemporarilyUnavailable),
        (RefreshReply::Answered(200, None), RefreshFailure::TemporarilyUnavailable),
        (RefreshReply::Answered(400, None), RefreshFailure::ReauthenticationRequired),
        (
            RefreshReply::Answered(401, Some(tokens(None))),
            RefreshFailure::ReauthenticationRequired,
        ),
        (RefreshReply::Answered(403, None), RefreshFailure::TemporarilyUnavailable),
        (RefreshReply::Answered(300, None), RefreshFailure::TemporarilyUnavailable),
    ] {
        assert_eq!(oauth.refresh(&session, reply), Err(failure));
    }
}

#[test]
fn completions_join_text_parts() {
    let parts = vec![
        AssistantPart::Text("{\"a\"".to_owned()),
        AssistantPart::Other,
        AssistantPart::Text(":1}".to_owned()),
    ];
    assert_eq!(
        complete_with_rig(RigReply::Answered(parts, 12)),
        Ok(("{\"a\":1}".to_owned(), Some(12)))
    );
    assert_eq!(
        complete_with_rig(RigReply::NoClient),
        Err(FailureClass::TemporarilyUnavailable)
    );
    assert_eq!(
        complete_with_rig(RigReply::Refused(Some(429))),
        Err(FailureClass::RateLimited)
    );
}

#[test]
fn unattended_path_stores_rotation_before_completion() {
    let path = Unattended::refresh_and_complete();
    assert_eq!(path.step(), UnattendedStep::Load);
    // An answer to another question changes nothing.
    let path = path.advance(UnattendedEvent::Completed(Ok(())));
    assert_eq!(path.step(), UnattendedStep::Load);
    let path = path.advance(UnattendedEvent::Loaded(Ok(Some(RefreshSession::new("old")))));
    assert_eq!(path.step(), UnattendedStep::Refresh);
    let path = path.advance(UnattendedEvent::Refreshed(Ok(RefreshedTokens {
        access_token: "access".to_owned(),
        refresh_token: "new".to_owned(),
        expires_at: None,
    })));
    assert_eq!(path.step(), UnattendedStep::Store);
    assert_eq!(path.session().unwrap().record(), "{\"refresh_token\":\"new\"}");
    let path = path.advance(UnattendedEvent::Stored(Ok(())));
    assert_eq!(path.step(), UnattendedStep::Complete);
    assert_eq!(path.access_token(), Some("access"));
    let path = path.advance(UnattendedEvent::Completed(Ok(())));
    assert_eq!(path.step(), UnattendedStep::Ended);
    assert_eq!(path.result(), Ok(()));
}

#[test]
fn unattended_failures_are_classified() {
    let start = Unattended::refresh_and_complete;
    let loaded =
        || start().advance(UnattendedEvent::Loaded(Ok(Some(RefreshSession::new("old")))));
    let refreshed = || {
        loaded().advance(UnattendedEvent::Refreshed(Ok(RefreshedTokens {
            access_token: "access".to_owned(),
            refresh_token: "new".to_owned(),
            expires_at: None,
        })))
    };
    for (path, class) in [
        (
            start().advance(UnattendedEvent::Loaded(Ok(None))),
            FailureClass::AuthenticationRequired,
        ),
        (
            start().advance(UnattendedEvent::Loaded(Err(CacheError::Invalid))),
            FailureClass::AuthenticationRequired,
        ),
        (
            start().advance(UnattendedEvent::Loaded(Err(CacheError::Io))),
            FailureClass::TemporarilyUnavailable,
        ),
        (
            loaded().advance(UnattendedEvent::Refreshed(Err(
                RefreshFailure::ReauthenticationRequired,
            ))),
            FailureClass::AuthenticationRequired,
        ),
        (
            loaded().advance(UnattendedEvent::Refreshed(Err(
                RefreshFailure::TemporarilyUnavailable,
            ))),
            FailureClass::TemporarilyUnavailable,
        ),
        (
            refreshed().advance(UnattendedEvent::Stored(Err(CacheError::Io))),
            FailureClass::TemporarilyUnavailable,
        ),
        (
            refreshed()
                .advance(UnattendedEvent::Stored(Ok(())))
                .advance(UnattendedEvent::Completed(Err(FailureClass::MalformedResponse))),
            FailureClass::MalformedResponse,
        ),
    ] {
        assert_eq!(path.step(), UnattendedStep::Ended);
        assert_eq!(path.result(), Err(class));
    }
}
