use tedge_core::classify_download_error;
use tedge_core::classify_remove_outcome;
use tedge_core::classify_upload_send_error;
use tedge_core::classify_upload_status;
use tedge_core::effective_clean_session;
use tedge_core::format_asn1_ecdsa_signature;
use tedge_core::has_space_for;
use tedge_core::is_fatal_disconnect_error;
use tedge_core::port_warning;
use tedge_core::publish_outcome;
use tedge_core::publish_step;
use tedge_core::resume_supported;
use tedge_core::select_sigscheme;
use tedge_core::should_restart_broker;
use tedge_core::sigscheme_for_oid;
use tedge_core::split_raw_signature;
use tedge_core::temp_download_path;
use tedge_core::token_matches;
use tedge_core::Auth;
use tedge_core::ContentType;
use tedge_core::DisconnectBridgeError;
use tedge_core::DownloadInfo;
use tedge_core::HashAlg;
use tedge_core::InvalidFilePath;
use tedge_core::KeyKind;
use tedge_core::LoopStep;
use tedge_core::MqttPublishError;
use tedge_core::PortWarning;
use tedge_core::PublishEvent;
use tedge_core::PublishProgress;
use tedge_core::QoS;
use tedge_core::Retry;
use tedge_core::SigScheme;
use tedge_core::SignatureKind;
use tedge_core::UploadInfo;

#[test]
fn upload_info_builders_compose() {
    let info = UploadInfo::new("http://localhost/file.txt")
        .with_auth(Auth::Bearer("token".to_string()))
        .with_content_type(ContentType::TextPlain);
    assert_eq!(info.url(), "http://localhost/file.txt");
    assert_eq!(info.auth, Some(Auth::Bearer("token".to_string())));
    assert_eq!(info.content_type, ContentType::TextPlain);
    assert_eq!(info.content_type.as_str(), "text/plain");
    assert_eq!(
        ContentType::ApplicationOctetStream.as_str(),
        "application/octet-stream"
    );
}

#[test]
fn upload_failures_are_classified() {
    assert_eq!(classify_upload_send_error(true, false), Retry::Permanent);
    assert_eq!(classify_upload_send_error(false, true), Retry::Permanent);
    assert_eq!(classify_upload_send_error(false, false), Retry::Transient);
    assert_eq!(classify_upload_status(Some(404)), Retry::Permanent);
    assert_eq!(classify_upload_status(Some(503)), Retry::Transient);
    assert_eq!(classify_upload_status(None), Retry::Transient);
}

#[test]
fn download_failures_are_classified() {
    assert_eq!(classify_download_error(true, false, None), Retry::Transient);
    assert_eq!(classify_download_error(false, true, None), Retry::Transient);
    assert_eq!(
        classify_download_error(false, false, Some(500)),
        Retry::Transient
    );
    assert_eq!(
        classify_download_error(false, false, Some(404)),
        Retry::Permanent
    );
    assert_eq!(classify_download_error(false, false, None), Retry::Permanent);
}

#[test]
fn download_info_knows_an_empty_url() {
    assert!(DownloadInfo::new("").is_empty());
    assert!(DownloadInfo::new("   ").is_empty());
    assert!(!DownloadInfo::new(" http://x ").is_empty());
    let info = DownloadInfo::new("http://x")
        .with_headers(vec![("Range".to_string(), "bytes=0-".to_string())]);
    assert_eq!(info.url(), "http://x");
    assert_eq!(info.headers.len(), 1);
}

#[test]
fn resume_needs_a_byte_range_capable_server() {
    assert!(resume_supported(Some("bytes")));
    assert!(!resume_supported(Some("none")));
    assert!(!resume_supported(None));
}

#[test]
fn disk_space_check_keeps_five_percent_back() {
    // 100 blocks of 1000 bytes, 50 free: usable is 50_000 - 5_000.
    assert!(has_space_for(100, 1000, 50, 44_999));
    assert!(!has_space_for(100, 1000, 50, 45_000));
    assert!(has_space_for(100, 1000, 0, 0));
    assert!(!has_space_for(100, 1000, 0, 1));
}

#[test]
fn temp_download_path_appends_tmp() {
    assert_eq!(
        temp_download_path("/var/tedge/file.bin"),
        Ok("/var/tedge/file.bin.tmp".to_string())
    );
    assert_eq!(
        temp_download_path("relative/file"),
        Err(InvalidFilePath::RelativePath)
    );
    assert_eq!(temp_download_path(""), Err(InvalidFilePath::RelativePath));
    assert_eq!(
        temp_download_path("/ends/in/"),
        Err(InvalidFilePath::NoFileName)
    );
}

#[test]
fn ecdsa_signature_is_der_encoded() {
    // A 4-byte signature: r = [0x01, 0x02], s = [0x80, 0x03].
    let raw = vec![0x01u8, 0x02, 0x80, 0x03];
    let (r, s) = split_raw_signature(&raw);
    assert_eq!(r, vec![0x01, 0x02]);
    assert_eq!(s, vec![0x80, 0x03]);
    let der = format_asn1_ecdsa_signature(&r, &s);
    // SEQUENCE { INTEGER 0x0102, INTEGER 0x008003 }: the second integer
    // needs a leading zero so its top bit does not read as a sign.
    assert_eq!(
        der,
        vec![0x30, 0x09, 0x02, 0x02, 0x01, 0x02, 0x02, 0x03, 0x00, 0x80, 0x03]
    );
}

#[test]
fn der_integers_drop_leading_zeros() {
    let r = vec![0x00u8, 0x00, 0x01];
    let s = vec![0x00u8, 0x00, 0x00];
    let der = format_asn1_ecdsa_signature(&r, &s);
    // SEQUENCE { INTEGER 1, INTEGER 0 }.
    assert_eq!(der, vec![0x30, 0x06, 0x02, 0x01, 0x01, 0x02, 0x01, 0x00]);
}

#[test]
fn signature_schemes_know_their_family_and_digest() {
    assert_eq!(SigScheme::EcdsaNistp256Sha256.algorithm(), SignatureKind::Ecdsa);
    assert_eq!(SigScheme::RsaPssSha256.algorithm(), SignatureKind::Rsa);
    assert_eq!(SigScheme::EcdsaNistp384Sha384.digest(), Some(HashAlg::Sha384));
    assert_eq!(SigScheme::RsaPssSha256.digest(), None);
    assert!(SigScheme::RsaPssSha256.signs_directly());
    assert!(!SigScheme::EcdsaNistp521Sha512.signs_directly());
}

#[test]
fn schemes_follow_the_key_and_the_curve() {
    assert_eq!(
        sigscheme_for_oid("1.2.840.10045.3.1.7"),
        Some(SigScheme::EcdsaNistp256Sha256)
    );
    assert_eq!(
        sigscheme_for_oid("1.3.132.0.34"),
        Some(SigScheme::EcdsaNistp384Sha384)
    );
    assert_eq!(
        sigscheme_for_oid("1.3.132.0.35"),
        Some(SigScheme::EcdsaNistp521Sha512)
    );
    assert_eq!(sigscheme_for_oid("1.2.3.4"), None);

    assert_eq!(
        select_sigscheme(KeyKind::Ec, None),
        Some(SigScheme::EcdsaNistp256Sha256)
    );
    assert_eq!(
        select_sigscheme(KeyKind::Ec, Some(SigScheme::EcdsaNistp521Sha512)),
        Some(SigScheme::EcdsaNistp521Sha512)
    );
    assert_eq!(select_sigscheme(KeyKind::Rsa, None), Some(SigScheme::RsaPssSha256));
    assert_eq!(select_sigscheme(KeyKind::Other, None), None);
}

#[test]
fn tokens_match_only_requested_attributes() {
    assert!(token_matches(None, None, "any", "thing"));
    assert!(token_matches(Some("lab"), None, "lab", "s1"));
    assert!(!token_matches(Some("lab"), None, "other", "s1"));
    assert!(token_matches(Some("lab"), Some("s1"), "lab", "s1"));
    assert!(!token_matches(None, Some("s2"), "lab", "s1"));
}

#[test]
fn publish_settles_by_quality_of_service() {
    // At most once: the outgoing publish itself settles it.
    let mut p = PublishProgress::default();
    assert_eq!(
        publish_step(&mut p, QoS::AtMostOnce, PublishEvent::OutgoingPublish),
        LoopStep::Stop
    );
    assert!(p.published && p.acknowledged);
    assert_eq!(publish_outcome(&p), Ok(()));

    // At least once: the broker's acknowledgement settles it.
    let mut p = PublishProgress::default();
    assert_eq!(
        publish_step(&mut p, QoS::AtLeastOnce, PublishEvent::OutgoingPublish),
        LoopStep::Continue
    );
    assert!(p.published && !p.acknowledged);
    assert_eq!(
        publish_step(&mut p, QoS::AtLeastOnce, PublishEvent::PubAckReceived),
        LoopStep::Stop
    );
    assert!(p.acknowledged);

    // Exactly once: only the completed handshake settles it.
    let mut p = PublishProgress::default();
    assert_eq!(
        publish_step(&mut p, QoS::ExactlyOnce, PublishEvent::PubAckReceived),
        LoopStep::Continue
    );
    assert_eq!(
        publish_step(&mut p, QoS::ExactlyOnce, PublishEvent::PubCompReceived),
        LoopStep::Stop
    );
    assert!(p.acknowledged);

    // A disconnect settles it as a failure.
    let mut p = PublishProgress::default();
    assert_eq!(
        publish_step(&mut p, QoS::AtLeastOnce, PublishEvent::IncomingDisconnect),
        LoopStep::Stop
    );
    assert_eq!(
        publish_outcome(&p),
        Err(MqttPublishError::ServerConnection)
    );

    let mut p = PublishProgress::default();
    assert_eq!(
        publish_step(&mut p, QoS::AtLeastOnce, PublishEvent::ConnectionError),
        LoopStep::Stop
    );
    assert_eq!(publish_outcome(&p), Err(MqttPublishError::Connection));

    let mut p = PublishProgress::default();
    assert_eq!(
        publish_step(&mut p, QoS::AtLeastOnce, PublishEvent::Other),
        LoopStep::Continue
    );
    assert_eq!(
        publish_step(&mut p, QoS::AtLeastOnce, PublishEvent::OutgoingDisconnect),
        LoopStep::Stop
    );
    assert_eq!(publish_outcome(&p), Ok(()));
}

#[test]
fn suspicious_port_choices_are_warned_about() {
    assert_eq!(
        port_warning(1883, false),
        Some(PortWarning::InsecurePortWithTls)
    );
    assert_eq!(port_warning(8883, true), Some(PortWarning::SecurePortWithoutCa));
    assert_eq!(port_warning(1883, true), None);
    assert_eq!(port_warning(8883, false), None);
    assert_eq!(port_warning(1884, false), None);
}

#[test]
fn unnamed_sessions_are_always_clean() {
    assert!(effective_clean_session(false, false));
    assert!(effective_clean_session(false, true));
    assert!(!effective_clean_session(true, false));
    assert!(effective_clean_session(true, true));
}

#[test]
fn bridge_disconnection_decisions() {
    assert_eq!(classify_remove_outcome(true, false), Ok(()));
    assert_eq!(
        classify_remove_outcome(false, true),
        Err(DisconnectBridgeError::BridgeFileDoesNotExist)
    );
    assert_eq!(
        classify_remove_outcome(false, false),
        Err(DisconnectBridgeError::FileOperationFailed)
    );
    assert!(!is_fatal_disconnect_error(
        &DisconnectBridgeError::BridgeFileDoesNotExist
    ));
    assert!(is_fatal_disconnect_error(&DisconnectBridgeError::ServiceFailed));
    assert!(should_restart_broker(true));
    assert!(!should_restart_broker(false));
}

#[test]
fn curve_parameters_name_their_scheme() {
    let p256 = vec![0x06u8, 0x08, 0x2a, 0x86, 0x48, 0xce, 0x3d, 0x03, 0x01, 0x07];
    let p384 = vec![0x06u8, 0x05, 0x2b, 0x81, 0x04, 0x00, 0x22];
    let p521 = vec![0x06u8, 0x05, 0x2b, 0x81, 0x04, 0x00, 0x23];
    assert_eq!(
        tedge_core::sigscheme_for_ec_params(&p256),
        Some(SigScheme::EcdsaNistp256Sha256)
    );
    assert_eq!(
        tedge_core::sigscheme_for_ec_params(&p384),
        Some(SigScheme::EcdsaNistp384Sha384)
    );
    assert_eq!(
        tedge_core::sigscheme_for_ec_params(&p521),
        Some(SigScheme::EcdsaNistp521Sha512)
    );
    assert_eq!(tedge_core::sigscheme_for_ec_params(&vec![0x05u8, 0x00]), None);
}
