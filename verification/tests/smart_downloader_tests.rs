use turbo_cdn::smart_downloader::DownloadMethod;

#[test]
fn test_download_method_name() {
    assert_eq!(DownloadMethod::Direct.name(), "Direct");
    assert_eq!(DownloadMethod::Cdn.name(), "CDN");
    assert_eq!(DownloadMethod::CdnFast.name(), "CDN-Fast");
}
