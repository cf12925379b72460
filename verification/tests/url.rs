use dioxus::prelude::manganis::{Asset, AssetOptions, BundledAsset};
use diogen::url::Url;

fn keep() -> u8 {
    0
}

#[test]
fn an_outside_address_is_written_as_it_is() {
    assert_eq!(Url::External(String::from("https://example.org/a?b=c")).to_string(), "https://example.org/a?b=c");
    assert_eq!(Url::External(String::new()).to_string(), "");
}

#[test]
fn a_bundled_asset_is_written_as_its_path() {
    let asset = Asset::new(
        BundledAsset::new("/project/assets/logo.png", "/logo-1a2b.png", AssetOptions::Unknown),
        keep,
    );
    let text = Url::Internal(asset).to_string();
    assert_eq!(text, asset.to_string());
    assert!(text.ends_with(".png"));
}

#[test]
fn a_url_is_cloned_with_what_it_holds() {
    let asset = Asset::new(
        BundledAsset::new("/project/assets/a.css", "/a-0f.css", AssetOptions::Unknown),
        keep,
    );
    let inside = Url::Internal(asset);
    assert!(inside.clone() == inside);
    let outside = Url::External(String::from("x"));
    assert!(outside.clone() == outside);
    assert!(outside != inside);
}
