use darksky::dec::Dec;
use darksky::url::build_request_url;

#[test]
fn url_encodes_key_and_embeds_coordinates_verbatim() {
    let url = build_request_url(
        "abc 123",
        Dec { neg: false, mant: 105, scale: 1 },
        Dec { neg: true, mant: 2025, scale: 2 },
    );
    assert_eq!(url, "https://api.darksky.net/forecast/abc%20123/10.5,-20.25");
}

#[test]
fn url_leaves_unreserved_key_characters_alone() {
    let url = build_request_url(
        "aZ09-_.~",
        Dec { neg: false, mant: 0, scale: 0 },
        Dec { neg: false, mant: 1, scale: 0 },
    );
    assert_eq!(url, "https://api.darksky.net/forecast/aZ09-_.~/0,1");
}

#[test]
fn url_percent_encodes_reserved_key_characters() {
    let url = build_request_url(
        "a/b?c",
        Dec { neg: false, mant: 1, scale: 0 },
        Dec { neg: false, mant: 2, scale: 0 },
    );
    assert_eq!(url, "https://api.darksky.net/forecast/a%2Fb%3Fc/1,2");
}

#[test]
fn url_keeps_coordinate_precision() {
    let url = build_request_url(
        "k",
        Dec { neg: false, mant: 378267, scale: 4 },
        Dec { neg: true, mant: 1224233, scale: 4 },
    );
    assert_eq!(url, "https://api.darksky.net/forecast/k/37.8267,-122.4233");
}
