use tedge_core::percent_decode;
use tedge_core::Pkcs11Uri;

#[test]
fn decodes_valid_pkcs11_uri() {
    // test input URIs taken from RFC examples section and combined with properties we actually use
    // https://www.rfc-editor.org/rfc/rfc7512.html#section-3
    let input = "pkcs11:token=The%20Software%20PKCS%2311%20Softtoken;\
            manufacturer=Snake%20Oil,%20Inc.;\
            model=1.0;\
            object=my-certificate;\
            type=cert;\
            id=%69%95%3E%5C%F4%BD%EC%91;\
            serial=\
            ?pin-source=file:/etc/token_pin";

    let attributes = Pkcs11Uri::parse(input).unwrap();

    assert_eq!(
        attributes.get_other("manufacturer").unwrap(),
        "Snake Oil, Inc."
    );
    assert_eq!(attributes.get_other("model").unwrap(), "1.0");
    assert_eq!(attributes.token.unwrap(), "The Software PKCS#11 Softtoken");
    assert_eq!(attributes.serial.unwrap(), "");
    assert_eq!(attributes.object.unwrap(), "my-certificate");
    assert_eq!(
        attributes.id,
        Some(vec![0x69, 0x95, 0x3e, 0x5c, 0xf4, 0xbd, 0xec, 0x91])
    );
}

#[test]
fn fails_on_uris_with_duplicate_attributes() {
    let input = "pkcs11:token=my-token;token=my-token";
    let err = Pkcs11Uri::parse(input).unwrap_err();
    assert!(err
        .message()
        .contains("PKCS#11 URI contains duplicate attribute (token)"));
}

#[test]
fn fails_on_uris_with_invalid_scheme() {
    let input = "not a pkcs#11 uri";
    let err = Pkcs11Uri::parse(input).unwrap_err();
    assert!(err.message().contains("missing PKCS #11 URI scheme"));
}

#[test]
fn appends_attributes_correctly() {
    let mut uri1 = Pkcs11Uri::parse("pkcs11:token=token1").unwrap();
    let uri2 = Pkcs11Uri::parse(
        "pkcs11:token=token2;serial=serial2;id=%01%02;object=object2;key1=value1",
    )
    .unwrap();

    uri1.append_attributes(uri2);

    assert_eq!(uri1.get_other("key1").unwrap(), "value1");
    assert_eq!(uri1.token.unwrap(), "token1");
    assert_eq!(uri1.serial.unwrap(), "serial2");
    assert_eq!(uri1.id, Some(vec![0x01, 0x02]));
    assert_eq!(uri1.object.unwrap(), "object2");
}

#[test]
fn appends_attributes_with_no_conflicts() {
    let mut uri1 = Pkcs11Uri::parse("pkcs11:").unwrap();
    let uri2 = Pkcs11Uri::parse(
        "pkcs11:token=token2;serial=serial2;id=%01%02;object=object2;key1=value1",
    )
    .unwrap();

    uri1.append_attributes(uri2);

    assert_eq!(uri1.get_other("key1").unwrap(), "value1");
    assert_eq!(uri1.token.unwrap(), "token2");
    assert_eq!(uri1.serial.unwrap(), "serial2");
    assert_eq!(uri1.id, Some(vec![0x01, 0x02]));
    assert_eq!(uri1.object.unwrap(), "object2");
}

#[test]
fn does_not_override_existing_attributes() {
    let mut uri1 =
        Pkcs11Uri::parse("pkcs11:token=token1;serial=serial1;id=%01;object=object1;key1=value1")
            .unwrap();
    let uri2 =
        Pkcs11Uri::parse("pkcs11:token=token2;serial=serial2;id=%02;object=object2;key2=value2")
            .unwrap();

    uri1.append_attributes(uri2);

    assert_eq!(uri1.get_other("key1").unwrap(), "value1");
    assert_eq!(uri1.get_other("key2").unwrap(), "value2");
    assert_eq!(uri1.token.unwrap(), "token1");
    assert_eq!(uri1.serial.unwrap(), "serial1");
    assert_eq!(uri1.id, Some(vec![0x01]));
    assert_eq!(uri1.object.unwrap(), "object1");
}

#[test]
fn percent_decoding_translates_hex_pairs() {
    let decoded = percent_decode(&b"a%20b%2311".to_vec());
    assert_eq!(decoded, b"a b#11".to_vec());
}

#[test]
fn percent_decoding_keeps_lone_percent_signs() {
    let decoded = percent_decode(&b"100%;x=%zz;y=%1".to_vec());
    assert_eq!(decoded, b"100%;x=%zz;y=%1".to_vec());
}

#[test]
fn query_part_is_ignored() {
    let uri = Pkcs11Uri::parse("pkcs11:token=a?object=b").unwrap();
    assert!(uri.object.is_none());
    assert_eq!(uri.token.unwrap(), "a");
}

#[test]
fn attributes_without_equals_sign_are_skipped() {
    let uri = Pkcs11Uri::parse("pkcs11:;;token=a;justaword").unwrap();
    assert!(!uri.has_other("justaword"));
    assert_eq!(uri.token.unwrap(), "a");
}
