use now::azure_blob::{
    blob_upload, blob_url_for_relative_path, content_type_for_path, display_upload_command,
    mask_sas_url, public_base_url, public_blob_url_for_relative_path, sas_env_name, sas_url,
    upload_base_url, AzureBlobError, AzureBlobUploadSummary,
};
use now::config::{AzureBlobConfig, NowConfig};
use now::env_file::EnvFile;

#[test]
fn builds_blob_urls_from_container_sas_url() {
    let url = blob_url_for_relative_path(
        "https://acct.blob.core.windows.net/$web?sv=1&sig=secret",
        "assets/app.js",
    )
    .unwrap();

    assert_eq!(
        url.as_str(),
        "https://acct.blob.core.windows.net/$web/assets/app.js?sv=1&sig=secret"
    );
}

#[test]
fn masks_sas_query_in_display_output() {
    let masked = mask_sas_url("https://acct.blob.core.windows.net/$web?sv=1&sig=secret").unwrap();

    assert_eq!(masked, "https://acct.blob.core.windows.net/$web?<redacted>");
    assert!(!masked.contains("secret"));
}

#[test]
fn builds_public_blob_urls_without_sas_query() {
    let config = NowConfig {
        azure_blob: AzureBlobConfig {
            sas_url: Some(
                "https://infinitybin.blob.core.windows.net/now/now?sv=1&sig=secret".to_owned(),
            ),
            ..Default::default()
        },
        ..NowConfig::default()
    };

    assert_eq!(
        public_blob_url_for_relative_path(&config, None, None, "index.html").as_deref(),
        Some("https://infinitybin.blob.core.windows.net/now/now/index.html")
    );
    assert_eq!(
        public_base_url(&config, None, None).as_deref(),
        Some("https://infinitybin.blob.core.windows.net/now/now")
    );
}

#[test]
fn blob_url_errors() {
    assert!(matches!(
        blob_url_for_relative_path("not a url", "a"),
        Err(AzureBlobError::InvalidUrl)
    ));
    assert!(matches!(
        blob_url_for_relative_path("https://acct.blob.core.windows.net/?sig=x", "a"),
        Err(AzureBlobError::NoContainerPath)
    ));
    match blob_url_for_relative_path("https://acct.blob.core.windows.net/c?sig=x", "../a") {
        Err(AzureBlobError::UnsupportedPath(p)) => assert_eq!(p, "../a"),
        other => panic!("unexpected {:?}", other),
    }
    assert_eq!(
        blob_url_for_relative_path("https://acct.blob.core.windows.net/c/", "./a/b.txt").unwrap(),
        "https://acct.blob.core.windows.net/c/a/b.txt"
    );
}

#[test]
fn a_url_without_query_is_shown_as_it_is() {
    assert_eq!(
        mask_sas_url("https://acct.blob.core.windows.net/c").unwrap(),
        "https://acct.blob.core.windows.net/c"
    );
    assert!(matches!(mask_sas_url("::"), Err(AzureBlobError::InvalidUrl)));
}

#[test]
fn sas_url_comes_from_the_environment_variable_the_config_names() {
    let config = NowConfig {
        azure_blob: AzureBlobConfig {
            sas_url_env: Some(" MY_SAS ".to_owned()),
            ..Default::default()
        },
        ..NowConfig::default()
    };
    assert_eq!(sas_env_name(&config), "MY_SAS");
    let env = EnvFile::from_pairs(&[("MY_SAS", "https://a.blob.core.windows.net/c?sig=f")]);
    assert_eq!(sas_url(&config, None, Some(&env)).unwrap(), "https://a.blob.core.windows.net/c?sig=f");
    assert_eq!(
        sas_url(&config, Some(" https://p.blob.core.windows.net/c?sig=p "), Some(&env)).unwrap(),
        "https://p.blob.core.windows.net/c?sig=p"
    );
    assert!(matches!(sas_url(&config, None, None), Err(AzureBlobError::MissingSasUrl)));
    assert_eq!(sas_env_name(&NowConfig::default()), "NOW_AZURE_BLOB_SAS_URL");
}

#[test]
fn prefix_goes_between_container_and_files() {
    let config = NowConfig {
        azure_blob: AzureBlobConfig {
            prefix: Some("my-project/sub".to_owned()),
            ..Default::default()
        },
        ..NowConfig::default()
    };
    let env = EnvFile::from_pairs(&[(
        "NOW_AZURE_BLOB_SAS_URL",
        "https://infinitybin.blob.core.windows.net/now/now?sv=1&sig=secret",
    )]);
    assert_eq!(
        upload_base_url(&config, None, Some(&env)).unwrap(),
        "https://infinitybin.blob.core.windows.net/now/now/my-project/sub?sv=1&sig=secret"
    );
    let line = display_upload_command(&config, None, Some(&env), "/tmp/site").unwrap();
    assert_eq!(
        line,
        "Azure Storage Blob SAS upload /tmp/site -> https://infinitybin.blob.core.windows.net/now/now/my-project/sub?<redacted>"
    );
    assert!(!line.contains("secret"));
    assert_eq!(
        public_blob_url_for_relative_path(&config, None, Some(&env), "index.html").as_deref(),
        Some("https://infinitybin.blob.core.windows.net/now/now/my-project/sub/index.html")
    );
}

#[test]
fn uploads_carry_url_and_content_type() {
    let upload = blob_upload("http://127.0.0.1:9/container?sv=1&sig=secret", "index.html").unwrap();
    assert_eq!(upload.url, "http://127.0.0.1:9/container/index.html?sv=1&sig=secret");
    assert_eq!(upload.content_type, "text/html; charset=utf-8");
}

#[test]
fn content_types_by_extension() {
    assert_eq!(content_type_for_path("a/INDEX.HTML"), "text/html; charset=utf-8");
    assert_eq!(content_type_for_path("app.mjs"), "text/javascript; charset=utf-8");
    assert_eq!(content_type_for_path("img.JPeG"), "image/jpeg");
    assert_eq!(content_type_for_path("data.json"), "application/json");
    assert_eq!(content_type_for_path(".css"), "application/octet-stream");
    assert_eq!(content_type_for_path("README"), "application/octet-stream");
    assert_eq!(content_type_for_path("archive.tar.gz"), "application/octet-stream");
    assert_eq!(content_type_for_path("doc.pdf"), "application/pdf");
}

#[test]
fn upload_summary_counts() {
    let mut summary = AzureBlobUploadSummary::new();
    summary.add_file(11);
    summary.add_file(4);
    assert_eq!(summary, AzureBlobUploadSummary { files: 2, bytes: 15 });
}
