use camera_query::address::Url;
use camera_query::onvif::{Device, ParseError, DEVICE_SERVICE_PATH};

fn url(text: &str) -> Url {
    Url::parse(text).unwrap()
}

#[test]
fn parse_device() {
    let device = Device::from(url("http://192.0.2.123"));
    assert!(device.is_ok());

    let device = Device::from(url("onvif://192.0.2.123"));
    assert_eq!(device, Err(ParseError::InvalidSchema));

    let device = Device::from(url("data:text/plain,Stuff"));
    assert_eq!(device, Err(ParseError::InvalidSchema));
}

#[test]
fn get_devicemgmt_url() {
    let device = Device::from(url("http://192.0.2.123")).unwrap();

    assert_eq!(device.get_devicemgmt_url(), url("http://192.0.2.123/onvif/device_service"));
}

#[test]
fn device_keeps_url_unchanged() {
    let device = Device::from(url("https://camera.example:8443/base/")).unwrap();
    assert_eq!(device.url().as_str(), "https://camera.example:8443/base/");
    assert_eq!(device.url(), &url("https://camera.example:8443/base/"));
}

#[test]
fn https_is_accepted() {
    assert!(Device::from(url("https://192.0.2.123")).is_ok());
}

#[test]
fn scheme_is_matched_after_normalization() {
    assert!(Device::from(url("HTTP://192.0.2.123")).is_ok());
}

#[test]
fn opaque_urls_are_rejected() {
    assert_eq!(Device::from(url("mailto:admin@example.com")), Err(ParseError::InvalidSchema));
    assert_eq!(Device::from(url("urn:isbn:0451450523")), Err(ParseError::InvalidSchema));
}

#[test]
fn other_schemes_are_rejected() {
    assert_eq!(Device::from(url("ftp://192.0.2.123")), Err(ParseError::InvalidSchema));
    assert_eq!(Device::from(url("unix:/run/camera.socket")), Err(ParseError::InvalidSchema));
    assert_eq!(Device::from(url("httpx://192.0.2.123")), Err(ParseError::InvalidSchema));
    assert_eq!(Device::from(url("rtsp://192.0.2.123:554/stream")), Err(ParseError::InvalidSchema));
}

#[test]
fn invalid_text_is_no_url() {
    assert!(Url::parse("192.0.2.123").is_none());
    assert!(Url::parse("").is_none());
    assert!(Url::parse("http://").is_none());
}

#[test]
fn parse_gives_serialization() {
    assert_eq!(url("http://192.0.2.123").as_str(), "http://192.0.2.123/");
    assert_eq!(url("HTTP://Camera.Example").as_str(), "http://camera.example/");
}

#[test]
fn devicemgmt_url_keeps_port() {
    let device = Device::from(url("http://192.0.2.123:8080")).unwrap();
    assert_eq!(
        device.get_devicemgmt_url().as_str(),
        "http://192.0.2.123:8080/onvif/device_service"
    );
}

#[test]
fn devicemgmt_url_resolves_relative_to_path() {
    let device = Device::from(url("https://192.0.2.123/cams/front")).unwrap();
    assert_eq!(
        device.devicemgmt_url().unwrap().as_str(),
        "https://192.0.2.123/cams/onvif/device_service"
    );
}

#[test]
fn join_resolves_reference() {
    let base = url("http://192.0.2.123/a/b");
    assert_eq!(base.join("c").unwrap().as_str(), "http://192.0.2.123/a/c");
    assert_eq!(base.join("/root").unwrap().as_str(), "http://192.0.2.123/root");
    assert_eq!(base.join(DEVICE_SERVICE_PATH).unwrap().as_str(), "http://192.0.2.123/a/onvif/device_service");
}

#[test]
fn checked_and_unchecked_endpoint_agree() {
    let device = Device::from(url("http://192.0.2.123")).unwrap();
    assert_eq!(device.devicemgmt_url(), Some(device.get_devicemgmt_url()));
}

#[test]
fn parse_error_message() {
    assert_eq!(ParseError::InvalidSchema.message(), "schema should be `http` or `https`");
}
