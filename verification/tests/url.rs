use bing_wallpaper::resolution::Resolution;
use bing_wallpaper::url::{image_url, is_absolute_url, metadata_endpoint};

#[test]
fn image_url_for_full_hd() {
    let url = image_url("/th?id=OHR.Test", Resolution { width: 1920, height: 1080 });
    assert_eq!(
        url,
        "https://www.bing.com/th?id=OHR.Test_UHD.jpg&rf=LaDigue_1920x1080.jpg&pid=hp"
    );
}

#[test]
fn image_url_with_empty_fragment_and_extreme_sizes() {
    let url = image_url("", Resolution { width: 1, height: 4294967295 });
    assert_eq!(url, "https://www.bing.com_UHD.jpg&rf=LaDigue_1x4294967295.jpg&pid=hp");
}

#[test]
fn absolute_urls_are_told_from_other_text() {
    assert!(is_absolute_url("https://www.bing.com/th?id=OHR.Test_UHD.jpg&rf=LaDigue_1920x1080.jpg&pid=hp"));
    assert!(is_absolute_url(&metadata_endpoint()));
    assert!(is_absolute_url(&image_url("/th?id=OHR.Test", Resolution { width: 1920, height: 1080 })));
    assert!(!is_absolute_url(""));
    assert!(!is_absolute_url("/th?id=OHR.Test"));
    assert!(!is_absolute_url("www.bing.com/th"));
    assert!(!is_absolute_url("https://"));
    assert!(!is_absolute_url(&image_url(":99999999/x", Resolution { width: 1920, height: 1080 })));
}

#[test]
fn metadata_endpoint_is_fixed() {
    assert_eq!(
        metadata_endpoint(),
        "https://www.bing.com/HPImageArchive.aspx?format=js&idx=0&n=1&mkt=zh-CN"
    );
}
