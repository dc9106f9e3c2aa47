use session_service::cache::Cache;
use session_service::cert::{
    accept_key_set_at, cache_ttl, download_certs, download_certs_at, find_cert, get_max_age, Cert,
    CertificateError, Certs, Event, KeySetResponse, Step, DEFAULT_MAX_AGE,
};

fn cert(kid: &str, n: &str) -> Cert {
    Cert { e: "AQAB".to_string(), n: n.to_string(), kid: kid.to_string() }
}

fn key_set() -> Certs {
    Certs { keys: vec![cert("one", "n1"), cert("two", "n2"), cert("two", "n3")] }
}

fn loaded(cache_control: Option<&str>) -> KeySetResponse {
    KeySetResponse::Loaded {
        cache_control: cache_control.map(|text| text.as_bytes().to_vec()),
        certs: key_set(),
    }
}

#[test]
fn max_age_is_read_from_the_header() {
    assert_eq!(get_max_age(b"public, max-age=19204, must-revalidate, no-transform"), Some(19204));
    assert_eq!(get_max_age(b"max-age=0"), Some(0));
    assert_eq!(get_max_age(b"max-age=007"), Some(7));
    assert_eq!(get_max_age(b"max-age=60s"), Some(60));
    assert_eq!(get_max_age(b"s-max-age=5"), Some(5));
}

#[test]
fn max_age_takes_the_first_directive_with_digits() {
    assert_eq!(get_max_age(b"max-age=1, max-age=2"), Some(1));
    assert_eq!(get_max_age(b"max-age=, max-age=2"), Some(2));
    assert_eq!(get_max_age(b"max-age=x, max-age=42"), Some(42));
    assert_eq!(get_max_age(b"max-max-age=9"), Some(9));
}

#[test]
fn max_age_is_absent_without_a_directive() {
    assert_eq!(get_max_age(b""), None);
    assert_eq!(get_max_age(b"no-cache"), None);
    assert_eq!(get_max_age(b"max-age="), None);
    assert_eq!(get_max_age(b"max-age=-5"), None);
    assert_eq!(get_max_age(b"max-age =5"), None);
    assert_eq!(get_max_age(b"MAX-AGE=5"), None);
    assert_eq!(get_max_age(b"max-age"), None);
}

#[test]
fn max_age_must_fit_the_integer() {
    assert_eq!(get_max_age(b"max-age=9223372036854775807"), Some(i64::MAX));
    assert_eq!(get_max_age(b"max-age=9223372036854775808"), None);
    assert_eq!(get_max_age(b"max-age=99999999999999999999999999"), None);
    assert_eq!(get_max_age(b"max-age=99999999999999999999999999, max-age=1"), None);
    assert_eq!(get_max_age(b"max-age=0000000000000000000000000012"), Some(12));
}

#[test]
fn lifetime_defaults_to_an_hour() {
    assert_eq!(DEFAULT_MAX_AGE, 3600);
    assert_eq!(cache_ttl(&None), 3600);
    assert_eq!(cache_ttl(&Some(b"private".to_vec())), 3600);
    assert_eq!(cache_ttl(&Some(b"max-age=99999999999999999999".to_vec())), 3600);
    assert_eq!(cache_ttl(&Some(b"public, max-age=120".to_vec())), 120);
}

#[test]
fn find_cert_takes_the_first_key_with_the_identifier() {
    assert_eq!(find_cert(&key_set(), "one"), Some(cert("one", "n1")));
    assert_eq!(find_cert(&key_set(), "two"), Some(cert("two", "n2")));
    assert_eq!(find_cert(&key_set(), "three"), None);
    assert_eq!(find_cert(&key_set(), ""), None);
    assert_eq!(find_cert(&Certs { keys: vec![] }, "one"), None);
}

#[test]
fn cert_clone_keeps_the_fields() {
    let first = cert("one", "n1");
    assert_eq!(first.clone(), first);
}

#[test]
fn key_set_without_the_identifier_is_not_found() {
    let mut cache: Cache<Cert> = Cache::new();
    let step = download_certs_at(&mut cache, "three", Event::Answered(loaded(None)), 1_000);
    assert_eq!(step, Step::Done(Err(CertificateError::NotFound)));
    assert_eq!(cache.get_at("three", 1_000), None);
    assert_eq!(cache.get_at("one", 1_000), None);
    assert_eq!(
        download_certs(&mut cache, "three", Event::Answered(loaded(None))),
        Step::Done(Err(CertificateError::NotFound))
    );
}

#[test]
fn failed_download_is_reported() {
    let mut cache: Cache<Cert> = Cache::new();
    assert_eq!(
        download_certs(&mut cache, "one", Event::Answered(KeySetResponse::Failed)),
        Step::Done(Err(CertificateError::Http))
    );
    assert_eq!(
        download_certs(&mut cache, "one", Event::Answered(KeySetResponse::Undecodable)),
        Step::Done(Err(CertificateError::Parse))
    );
    assert_eq!(download_certs(&mut cache, "one", Event::Requested), Step::Fetch);
}

#[test]
fn second_request_is_served_from_the_cache() {
    let mut cache: Cache<Cert> = Cache::new();
    assert_eq!(download_certs(&mut cache, "one", Event::Requested), Step::Fetch);
    assert_eq!(
        download_certs(&mut cache, "one", Event::Answered(loaded(Some("max-age=600")))),
        Step::Done(Ok(cert("one", "n1")))
    );
    assert_eq!(
        download_certs(&mut cache, "one", Event::Requested),
        Step::Done(Ok(cert("one", "n1")))
    );
    assert_eq!(download_certs(&mut cache, "two", Event::Requested), Step::Fetch);
}

#[test]
fn downloaded_key_lives_as_long_as_the_header_says() {
    let mut cache: Cache<Cert> = Cache::new();
    let found = accept_key_set_at(&mut cache, "two", loaded(Some("public, max-age=600")), 1_000);
    assert_eq!(found, Ok(cert("two", "n2")));
    assert_eq!(
        download_certs_at(&mut cache, "two", Event::Requested, 1_599),
        Step::Done(Ok(cert("two", "n2")))
    );
    assert_eq!(download_certs_at(&mut cache, "two", Event::Requested, 1_600), Step::Fetch);

    let found = accept_key_set_at(&mut cache, "one", loaded(None), 1_000);
    assert_eq!(found, Ok(cert("one", "n1")));
    assert_eq!(
        download_certs_at(&mut cache, "one", Event::Requested, 4_599),
        Step::Done(Ok(cert("one", "n1")))
    );
    assert_eq!(download_certs_at(&mut cache, "one", Event::Requested, 4_600), Step::Fetch);
}

#[test]
fn key_with_no_lifetime_is_downloaded_again() {
    let mut cache: Cache<Cert> = Cache::new();
    let found = accept_key_set_at(&mut cache, "one", loaded(Some("max-age=0")), 1_000);
    assert_eq!(found, Ok(cert("one", "n1")));
    assert_eq!(download_certs_at(&mut cache, "one", Event::Requested, 1_000), Step::Fetch);
}

#[test]
fn certificate_errors_describe_themselves() {
    assert_eq!(CertificateError::Http.message(), "Can not download actual certificates");
    assert_eq!(CertificateError::Parse.message(), "Can not parse certificates");
    assert_eq!(CertificateError::NotFound.message(), "Certificate with kid not found");
}

#[test]
fn max_age_agrees_with_the_pattern() {
    let pattern = regex::Regex::new(r"max-age=(\d+)").unwrap();
    let samples = [
        "",
        "max-age=3600",
        "public, max-age=19204, must-revalidate, no-transform",
        "max-age=",
        "max-age=, max-age=17",
        "mmax-age=12x34",
        "max-agemax-age=8",
        "max-age=max-age=9",
        "no-store, max-age=0",
        "max-age=0009",
        "max-age=9223372036854775807",
        "s-maxage=10",
        "max-age= 10",
        "max-ag=10, max-age=1 0",
        "=max-age=5=",
    ];
    for text in samples {
        let expected = pattern
            .captures(text)
            .map(|caps| caps.get(1).unwrap().as_str().parse::<i64>().unwrap());
        assert_eq!(get_max_age(text.as_bytes()), expected, "{:?}", text);
    }
}
