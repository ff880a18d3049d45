use geoseed::deploy::{is_asset_extension, remote_target, scp_source, site_directory, SourceError};

#[test]
fn scripts_and_styles_are_assets() {
    for ext in ["wasm", "js", "css"] {
        assert!(is_asset_extension(ext));
    }
    for ext in ["", "html", "JS", "Css", "wasm ", "j", "jss", "map", "css.map"] {
        assert!(!is_asset_extension(ext), "{:?}", ext);
    }
}

#[test]
fn a_site_lies_under_var_www() {
    assert_eq!(site_directory("cats"), "/var/www/cats");
    assert_eq!(site_directory(""), "/var/www/");
    assert_eq!(site_directory("a/b"), "/var/www/a/b");
}

#[test]
fn a_remote_target_is_server_colon_directory() {
    assert_eq!(remote_target("deploy@example.org", "/var/www/cats"), "deploy@example.org:/var/www/cats");
    assert_eq!(remote_target("", ""), ":");
    assert_eq!(remote_target("host", &site_directory("cats")), "host:/var/www/cats");
}

#[test]
fn a_plain_path_is_handed_on_as_it_is() {
    for path in ["/home/me/site/dist", "dist", "", "C:\\site\\dist", "\\site", "\\", "a:b", ":", "\\:x"] {
        assert_eq!(scp_source(path), Ok(path), "{:?}", path);
    }
}

#[test]
fn a_verbatim_path_is_cut_down_to_its_drive() {
    assert_eq!(scp_source("\\\\?\\C:\\site\\dist"), Ok("C:\\site\\dist"));
    assert_eq!(scp_source("\\\\?\\D:"), Ok("D:"));
    assert_eq!(scp_source("\\\\?\\C:\\a:b"), Ok("C:\\a:b"));
    assert_eq!(scp_source("\\\\:"), Ok("\\:"));
    assert_eq!(scp_source("\\\\server\\share\\é:x"), Err(SourceError::NoDriveLetter));
    assert_eq!(scp_source("\\\\?\\Cé:\\x"), Err(SourceError::NoDriveLetter));
}

#[test]
fn a_verbatim_path_without_a_drive_is_refused() {
    assert_eq!(scp_source("\\\\server\\share"), Err(SourceError::NoDrive));
    assert_eq!(scp_source("\\\\"), Err(SourceError::NoDrive));
}

#[test]
fn a_verbatim_path_is_cut_as_a_slice_at_the_byte_before_the_colon_is() {
    for path in ["\\\\?\\C:\\site", "\\\\x:", "\\\\:", "\\\\??:z", "\\\\aé\u{1F600}b:c"] {
        let expected = path.get((path.find(':').unwrap() - 1)..);
        assert_eq!(scp_source(path).ok(), expected, "{:?}", path);
    }
    for path in ["\\\\é:", "\\\\a\u{1F600}:c"] {
        assert_eq!(path.get((path.find(':').unwrap() - 1)..), None);
        assert_eq!(scp_source(path), Err(SourceError::NoDriveLetter));
    }
}
