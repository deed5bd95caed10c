use slink::conn::socket_path;
use slink::dirs::{cache_home, resolve, LookupError, APP_PREFIX};

#[test]
fn the_prefix_is_the_name_of_the_tool() {
    assert_eq!(APP_PREFIX, "slink");
}

#[test]
fn the_cache_home_is_the_one_of_xdg() {
    match xdg::BaseDirectories::with_prefix("slink") {
        Ok(dirs) => match dirs.get_cache_home().to_str() {
            Some(expected) => assert_eq!(cache_home().ok(), Some(expected.to_string())),
            None => assert!(cache_home().is_err()),
        },
        Err(_) => assert!(cache_home().is_err()),
    }
}

#[test]
fn the_socket_lies_where_xdg_places_a_cache_file() {
    if let (Ok(dirs), Ok(home)) = (xdg::BaseDirectories::with_prefix("slink"), cache_home()) {
        for host in ["box", "example.org", "user@10.0.0.7", ""] {
            let expected = dirs.get_cache_file(format!("conn-{}.sock", host));
            assert_eq!(Some(socket_path(&home, host).as_str()), expected.to_str());
        }
    }
}

#[test]
fn a_cache_home_that_was_found_is_given_as_it_is() {
    match resolve(Ok(Some(String::from("/home/u/.cache/slink/")))) {
        Ok(home) => assert_eq!(home, "/home/u/.cache/slink/"),
        Err(e) => panic!("{:?}", e),
    }
}

#[test]
fn a_cache_home_that_is_no_text_is_refused() {
    assert!(matches!(resolve(Ok(None)), Err(LookupError::NotUnicode)));
}
