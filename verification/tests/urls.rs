use repo_open::urls::{classify, derive_repo_name, get_alternative_url, ConvertError, UrlForm};

fn b(s: &str) -> Vec<u8> {
    s.as_bytes().to_vec()
}

#[test]
fn classify_ssh_form() {
    assert_eq!(classify(&b("git@github.com:user/repo.git")), UrlForm::Ssh);
}

#[test]
fn classify_https_form() {
    assert_eq!(classify(&b("https://github.com/user/repo.git")), UrlForm::Https);
    assert_eq!(classify(&b("http://github.com/user/repo")), UrlForm::Https);
}

#[test]
fn classify_unsupported_form() {
    assert_eq!(classify(&b("ftp://example.com/repo.git")), UrlForm::Unsupported);
    assert_eq!(classify(&b("")), UrlForm::Unsupported);
    assert_eq!(classify(&b("git")), UrlForm::Unsupported);
}

#[test]
fn derived_name_strips_git_suffix() {
    assert_eq!(derive_repo_name(&b("https://github.com/user/repo.git")), Ok(b("repo")));
    assert_eq!(derive_repo_name(&b("git@github.com:user/tool.git")), Ok(b("tool")));
}

#[test]
fn derived_name_keeps_plain_segment() {
    assert_eq!(derive_repo_name(&b("https://github.com/user/repo")), Ok(b("repo")));
    assert_eq!(derive_repo_name(&b("a/b/c")), Ok(b("c")));
}

#[test]
fn derived_name_whole_string_without_slash() {
    assert_eq!(derive_repo_name(&b("repo")), Ok(b("repo")));
}

#[test]
fn derived_name_empty_is_an_error() {
    assert!(derive_repo_name(&b("")).is_err());
    assert!(derive_repo_name(&b("a/b/")).is_err());
    assert!(derive_repo_name(&b("path/to/.git")).is_err());
}

#[test]
fn ssh_converts_to_https() {
    assert_eq!(
        get_alternative_url(&b("git@github.com:user/repo.git")),
        Ok(b("https://github.com/user/repo.git"))
    );
}

#[test]
fn ssh_without_suffix_converts_to_https() {
    assert_eq!(
        get_alternative_url(&b("git@example.org:team/project")),
        Ok(b("https://example.org/team/project.git"))
    );
}

#[test]
fn https_converts_to_ssh() {
    assert_eq!(
        get_alternative_url(&b("https://github.com/user/repo.git")),
        Ok(b("git@github.com:user/repo.git"))
    );
}

#[test]
fn https_without_suffix_converts_to_ssh() {
    assert_eq!(
        get_alternative_url(&b("https://github.com/user/repo")),
        Ok(b("git@github.com:user/repo.git"))
    );
}

#[test]
fn https_with_query_converts_from_path_alone() {
    assert_eq!(
        get_alternative_url(&b("https://github.com/user/repo.git?tab=readme")),
        Ok(b("git@github.com:user/repo.git"))
    );
}

#[test]
fn ssh_without_colon_is_invalid() {
    assert_eq!(
        get_alternative_url(&b("git@github.com")),
        Err(ConvertError::InvalidSshFormat)
    );
}

#[test]
fn ssh_with_two_colons_is_invalid() {
    assert_eq!(
        get_alternative_url(&b("git@github.com:user:repo.git")),
        Err(ConvertError::InvalidSshFormat)
    );
}

#[test]
fn http_without_host_is_invalid() {
    assert_eq!(get_alternative_url(&b("http://")), Err(ConvertError::InvalidHttpUrl));
    assert_eq!(get_alternative_url(&b("http")), Err(ConvertError::InvalidHttpUrl));
}

#[test]
fn unsupported_form_is_rejected_not_passed_through() {
    assert_eq!(
        get_alternative_url(&b("ftp://example.com/repo.git")),
        Err(ConvertError::UnsupportedFormat)
    );
    assert_eq!(
        get_alternative_url(&b("example.com/repo")),
        Err(ConvertError::UnsupportedFormat)
    );
}
