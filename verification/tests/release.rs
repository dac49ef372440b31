use harper_zed::release::{find_asset, ReleaseAsset};

fn asset(name: &str) -> ReleaseAsset {
    ReleaseAsset { name: name.to_string(), download_url: format!("https://example.test/{name}") }
}

#[test]
fn find_asset_exact_match() {
    let assets = vec![
        asset("harper-ls-aarch64-apple-darwin.tar.gz"),
        asset("harper-ls-x86_64-unknown-linux-gnu.tar.gz"),
        asset("harper-ls-x86_64-pc-windows-msvc.zip"),
    ];
    let name = "harper-ls-x86_64-unknown-linux-gnu.tar.gz".to_string();
    assert_eq!(find_asset(&assets, &name), Some(1));
}

#[test]
fn find_asset_takes_the_first_of_equal_names() {
    let assets = vec![asset("b"), asset("a"), asset("a")];
    assert_eq!(find_asset(&assets, &"a".to_string()), Some(1));
}

#[test]
fn find_asset_is_not_fuzzy() {
    let assets = vec![
        asset("harper-ls-x86_64-unknown-linux-gnu.tar.gz.sha256"),
        asset("Harper-ls-x86_64-unknown-linux-gnu.tar.gz"),
        asset("harper-ls-x86_64-unknown-linux-gnu.tar"),
        asset(" harper-ls-x86_64-unknown-linux-gnu.tar.gz"),
        asset("harper-ls-x86_64-unknown-linux-musl.tar.gz"),
    ];
    let name = "harper-ls-x86_64-unknown-linux-gnu.tar.gz".to_string();
    assert_eq!(find_asset(&assets, &name), None);
}

#[test]
fn find_asset_in_empty_list() {
    let assets: Vec<ReleaseAsset> = Vec::new();
    assert_eq!(find_asset(&assets, &"a".to_string()), None);
}

#[test]
fn find_asset_last_position() {
    let assets = vec![asset("a"), asset("b"), asset("c")];
    assert_eq!(find_asset(&assets, &"c".to_string()), Some(2));
    assert_eq!(find_asset(&assets, &"".to_string()), None);
}
