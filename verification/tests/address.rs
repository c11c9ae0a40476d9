use e2_image_server::address::remote_url;
use e2_image_server::Error;

#[test]
fn plain_url_stands_for_itself() {
    assert_eq!(remote_url("http://example.com/a.png").unwrap(), "http://example.com/a.png");
}

#[test]
fn escapes_are_decoded() {
    assert_eq!(
        remote_url("http%3A%2F%2Fexample.com%2Fa%20b.png").unwrap(),
        "http://example.com/a b.png"
    );
}

#[test]
fn escapes_in_either_case() {
    assert_eq!(remote_url("http%3a%2f%2Fexample.com").unwrap(), "http://example.com");
}

#[test]
fn escaped_utf8_is_decoded() {
    assert_eq!(
        remote_url("https://example.com/%C3%A9.png").unwrap(),
        "https://example.com/\u{e9}.png"
    );
}

#[test]
fn percent_without_two_hex_digits_stays() {
    assert_eq!(remote_url("http://example.com/100%").unwrap(), "http://example.com/100%");
    assert_eq!(remote_url("http://example.com/%zz").unwrap(), "http://example.com/%zz");
    assert_eq!(remote_url("http://example.com/%4").unwrap(), "http://example.com/%4");
}

#[test]
fn decoding_is_not_repeated() {
    assert_eq!(remote_url("http://example.com/%2541").unwrap(), "http://example.com/%41");
}

#[test]
fn bytes_that_are_not_utf8_are_an_invalid_url() {
    assert_eq!(remote_url("http://example.com/%FF").unwrap_err(), Error::InvalidURL);
    assert_eq!(remote_url("%C3").unwrap_err(), Error::InvalidURL);
}

#[test]
fn text_that_is_no_absolute_url_is_an_invalid_url() {
    assert_eq!(remote_url("").unwrap_err(), Error::InvalidURL);
    assert_eq!(remote_url("not a url").unwrap_err(), Error::InvalidURL);
    assert_eq!(remote_url("/images/a.png").unwrap_err(), Error::InvalidURL);
    assert_eq!(remote_url("example.com%2Fa.png").unwrap_err(), Error::InvalidURL);
    assert_eq!(remote_url("http%3A%2F%2F").unwrap_err(), Error::InvalidURL);
}
