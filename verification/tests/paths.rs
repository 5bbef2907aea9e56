use std::path::Path;

use maki_core::paths::resolve_abs_with_cwd;

fn resolved(path: &str, cwd: &str) -> String {
    String::from_utf8(resolve_abs_with_cwd(path.to_string(), cwd.as_bytes())).unwrap()
}

#[test]
fn absolute_paths_mean_themselves() {
    assert_eq!(resolved("/etc/hosts", "/home/me"), "/etc/hosts");
    assert_eq!(resolved("/", "/home/me"), "/");
}

#[test]
fn relative_paths_lie_below_the_directory() {
    assert_eq!(resolved("src", "/home/me"), "/home/me/src");
    assert_eq!(resolved("src", "/home/me/"), "/home/me/src");
    assert_eq!(resolved("", "/home/me"), "/home/me/");
    assert_eq!(resolved("src", ""), "src");
}

#[test]
fn resolving_agrees_with_the_standard_library() {
    for cwd in ["/", "/home/me", "/home/me/", "", "relative", "/häuser"] {
        for path in ["", "/", "/etc", "src", "a/b", "../up", "./here", "über"] {
            let expected = if Path::new(path).is_absolute() {
                Path::new(path).to_path_buf()
            } else {
                Path::new(cwd).join(path)
            };
            assert_eq!(resolved(path, cwd).as_str(), expected.to_str().unwrap());
        }
    }
}

#[test]
fn resolved_paths_stay_as_they_are() {
    let once = resolved("src", "/home/me");
    assert_eq!(resolved(&once, "/elsewhere"), once);
}

#[test]
fn directories_need_not_be_text() {
    assert_eq!(resolve_abs_with_cwd("x".to_string(), &[b'/', 0xff]), vec![b'/', 0xff, b'/', b'x']);
}
