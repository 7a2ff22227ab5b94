use s3_manifest::client::{plan_client, CredentialChoice, EndpointConfig, RegionChoice};
use s3_manifest::error::ManifestError;
use s3_manifest::uri::{
    parse_output_location, parse_s3_uri, remote_destination, source_location,
    trim_leading_slashes, UrlParts,
};

fn parts(scheme: &str, host: Option<&str>, path: &str) -> UrlParts {
    UrlParts {
        scheme: String::from(scheme),
        host: host.map(String::from),
        path: String::from(path),
    }
}

#[test]
fn source_with_prefix() {
    let (bucket, prefix) = parse_s3_uri("s3://bucket-name/some/prefix").unwrap();
    assert_eq!(bucket, "bucket-name");
    assert_eq!(prefix, Some(String::from("some/prefix")));
}

#[test]
fn source_keeps_trailing_slash_of_prefix() {
    let (bucket, prefix) = parse_s3_uri("s3://b/logs/").unwrap();
    assert_eq!(bucket, "b");
    assert_eq!(prefix, Some(String::from("logs/")));
}

#[test]
fn source_without_path_has_no_prefix() {
    let (bucket, prefix) = parse_s3_uri("s3://bucket").unwrap();
    assert_eq!(bucket, "bucket");
    assert_eq!(prefix, None);
}

#[test]
fn source_with_root_path_has_no_prefix() {
    let (bucket, prefix) = parse_s3_uri("s3://bucket/").unwrap();
    assert_eq!(bucket, "bucket");
    assert_eq!(prefix, None);
}

#[test]
fn source_with_other_scheme_is_refused() {
    assert_eq!(parse_s3_uri("http://bucket/prefix"), Err(ManifestError::WrongScheme));
    assert_eq!(parse_s3_uri("gs://bucket/prefix"), Err(ManifestError::WrongScheme));
}

#[test]
fn source_that_is_no_uri_is_refused() {
    assert_eq!(parse_s3_uri("bucket/prefix"), Err(ManifestError::MalformedUri));
    assert_eq!(parse_s3_uri(""), Err(ManifestError::MalformedUri));
}

#[test]
fn source_without_bucket_is_refused() {
    assert_eq!(parse_s3_uri("s3:prefix"), Err(ManifestError::MissingBucket));
}

#[test]
fn source_location_reads_parts() {
    let (bucket, prefix) = source_location(Ok(parts("s3", Some("b"), "/x/y"))).unwrap();
    assert_eq!(bucket, "b");
    assert_eq!(prefix, Some(String::from("x/y")));
    let (_, none) = source_location(Ok(parts("s3", Some("b"), "/"))).unwrap();
    assert_eq!(none, None);
    let (_, empty) = source_location(Ok(parts("s3", Some("b"), ""))).unwrap();
    assert_eq!(empty, None);
    let (_, double) = source_location(Ok(parts("s3", Some("b"), "//x"))).unwrap();
    assert_eq!(double, Some(String::from("/x")));
}

#[test]
fn source_location_reports_each_error() {
    assert_eq!(
        source_location(Ok(parts("https", Some("b"), "/x"))),
        Err(ManifestError::WrongScheme)
    );
    assert_eq!(source_location(Ok(parts("s3", None, "/x"))), Err(ManifestError::MissingBucket));
    assert_eq!(
        source_location(Err(url::ParseError::RelativeUrlWithoutBase)),
        Err(ManifestError::MalformedUri)
    );
}

#[test]
fn output_that_is_a_local_path() {
    assert_eq!(
        parse_output_location("out/manifest.parquet"),
        Ok((None, String::from("out/manifest.parquet")))
    );
    assert_eq!(parse_output_location(""), Ok((None, String::new())));
    assert_eq!(parse_output_location("S3://b/k"), Ok((None, String::from("S3://b/k"))));
}

#[test]
fn output_in_an_object_store() {
    assert_eq!(
        parse_output_location("s3://dest/manifests/m.parquet"),
        Ok((Some(String::from("dest")), String::from("manifests/m.parquet")))
    );
    assert_eq!(parse_output_location("s3://dest"), Ok((Some(String::from("dest")), String::new())));
}

#[test]
fn output_key_loses_all_leading_slashes() {
    assert_eq!(
        parse_output_location("s3://dest//m.parquet"),
        Ok((Some(String::from("dest")), String::from("m.parquet")))
    );
}

#[test]
fn remote_destination_reads_parts() {
    assert_eq!(
        remote_destination(Ok(parts("s3", Some("d"), "///k/m"))),
        Ok((Some(String::from("d")), String::from("k/m")))
    );
    assert_eq!(
        remote_destination(Ok(parts("s3", None, "/k"))),
        Err(ManifestError::MissingBucket)
    );
    assert_eq!(
        remote_destination(Err(url::ParseError::EmptyHost)),
        Err(ManifestError::MalformedUri)
    );
}

#[test]
fn trim_leading_slashes_takes_only_the_front() {
    assert_eq!(trim_leading_slashes("/a/b/"), "a/b/");
    assert_eq!(trim_leading_slashes("///"), "");
    assert_eq!(trim_leading_slashes("a/"), "a/");
    assert_eq!(trim_leading_slashes(""), "");
}

#[test]
fn error_messages_are_distinct_sentences() {
    assert_eq!(
        ManifestError::WrongScheme.message(),
        "Invalid S3 URI scheme. Must start with 's3://'."
    );
    assert_eq!(ManifestError::MissingBucket.message(), "Missing bucket name");
    assert_ne!(ManifestError::ListingFailed.message(), ManifestError::UploadFailed.message());
}

#[test]
fn client_with_endpoint_and_keys() {
    let plan = plan_client(EndpointConfig {
        endpoint: Some(String::from("http://localhost:9000")),
        access_key: Some(String::from("access")),
        secret_key: Some(String::from("hidden")),
    });
    match plan.region {
        RegionChoice::Custom { name, endpoint } => {
            assert_eq!(name, "custom");
            assert_eq!(endpoint, "http://localhost:9000");
        }
        RegionChoice::Default => panic!("expected a custom region"),
    }
    match plan.credentials {
        CredentialChoice::Static { access_key, secret_key } => {
            assert_eq!(access_key, "access");
            assert_eq!(secret_key, "hidden");
        }
        CredentialChoice::Ambient => panic!("expected the given keys"),
    }
}

#[test]
fn client_without_anything_uses_defaults() {
    let plan = plan_client(EndpointConfig { endpoint: None, access_key: None, secret_key: None });
    assert!(matches!(plan.region, RegionChoice::Default));
    assert!(matches!(plan.credentials, CredentialChoice::Ambient));
}

#[test]
fn client_with_half_a_key_pair_uses_ambient_credentials() {
    let only_access = plan_client(EndpointConfig {
        endpoint: None,
        access_key: Some(String::from("access")),
        secret_key: None,
    });
    assert!(matches!(only_access.credentials, CredentialChoice::Ambient));
    let only_secret = plan_client(EndpointConfig {
        endpoint: None,
        access_key: None,
        secret_key: Some(String::from("hidden")),
    });
    assert!(matches!(only_secret.credentials, CredentialChoice::Ambient));
}
