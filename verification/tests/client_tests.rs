use neurust::client::clean_base_url;

#[test]
fn plain_address_is_kept() {
    assert_eq!(clean_base_url("http://127.0.0.1:8000"), "http://127.0.0.1:8000");
    assert_eq!(clean_base_url("https://api.example.org/v1"), "https://api.example.org/v1");
}

#[test]
fn address_is_trimmed_and_loses_its_last_slash() {
    assert_eq!(clean_base_url("  http://localhost:8000/ \n"), "http://localhost:8000");
    assert_eq!(clean_base_url("http://localhost:8000//"), "http://localhost:8000/");
}

#[test]
fn address_without_scheme_gets_one() {
    assert_eq!(clean_base_url("localhost:3000"), "http://localhost:3000");
    assert_eq!(clean_base_url(""), "http:/");
    assert_eq!(clean_base_url("ftp://x/"), "http://ftp://x");
}

#[test]
fn address_is_taken_out_of_a_link() {
    assert_eq!(
        clean_base_url("[http://127.0.0.1:8000](http://127.0.0.1:8000)"),
        "http://127.0.0.1:8000"
    );
    assert_eq!(clean_base_url("[server](localhost:8000/)"), "http://localhost:8000");
    assert_eq!(clean_base_url("[a](b) and (c)"), "http://b");
}

#[test]
fn broken_link_is_kept_as_it_is() {
    assert_eq!(clean_base_url("[server](localhost"), "http://[server](localhost");
    assert_eq!(clean_base_url("x[a](b)"), "http://x[a](b)");
    assert_eq!(clean_base_url("[a]b"), "http://[a]b");
}
