use mirror_remote::hub::{ApiError, Channel, Client, HubError};

#[test]
fn creates_a_default_client() {
    let client = Client::new("https://hub.infinyon.cloud").unwrap();

    assert_eq!(
        client.api_url,
        url::Url::parse("https://hub.infinyon.cloud").unwrap().as_str()
    );
    // The stored URL is the parser's normalized text, not the raw input.
    assert_ne!(client.api_url, "https://hub.infinyon.cloud");
}

#[test]
fn builds_url_for_fetching_pkgsets() {
    let client = Client::new("https://hub.infinyon.cloud").unwrap();
    let url = client
        .make_fetch_package_set_url(&Channel::Stable, "arm-unknown-linux-gnueabihf")
        .unwrap();

    assert_eq!(
        url,
        "https://hub.infinyon.cloud/hub/v1/fvm/pkgset/stable?arch=arm-unknown-linux-gnueabihf"
    );
}

#[test]
fn builds_url_for_fetching_pkgsets_on_version() {
    let client = Client::new("https://hub.infinyon.cloud").unwrap();
    let url = client
        .make_fetch_package_set_url(
            &Channel::Tag("0.10.14-dev+123345abc".to_string()),
            "arm-unknown-linux-gnueabihf",
        )
        .unwrap();

    assert_eq!(
        url,
        "https://hub.infinyon.cloud/hub/v1/fvm/pkgset/0.10.14-dev+123345abc?arch=arm-unknown-linux-gnueabihf"
    );
}

#[test]
fn rejects_text_that_is_no_url() {
    let result = Client::new("not a url");
    assert_eq!(result.unwrap_err(), HubError::InvalidUrl);
}

#[test]
fn channel_text_forms() {
    assert_eq!(Channel::Stable.to_text(), "stable");
    assert_eq!(Channel::Latest.to_text(), "latest");
    assert_eq!(Channel::Tag("0.10.14".to_string()).to_text(), "0.10.14");
}

#[test]
fn api_error_carries_status_and_message() {
    let error = ApiError {
        status: 404,
        message: "package set not found".to_string(),
    };
    assert_eq!(error.status, 404);
    assert_eq!(error.message, "package set not found");
}
