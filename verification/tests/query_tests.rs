use persona_exporter::platforms::other::methods::query::{query_string, url_with_query};

fn pairs(v: &[(&str, &str)]) -> Vec<(String, String)> {
    v.iter().map(|(a, b)| (a.to_string(), b.to_string())).collect()
}

#[test]
fn influx_parameters_form_the_query() {
    let p = pairs(&[("org", "my-great-company"), ("bucket", "org-server-metrics"), ("precision", "ns")]);
    assert_eq!(query_string(&p), "org=my-great-company&bucket=org-server-metrics&precision=ns");
    assert_eq!(
        url_with_query("http://localhost:8086/api/v2/write", &p),
        "http://localhost:8086/api/v2/write?org=my-great-company&bucket=org-server-metrics&precision=ns"
    );
}

#[test]
fn special_characters_are_encoded() {
    let p = pairs(&[("a b", "x&y=z/é~*-._")]);
    assert_eq!(query_string(&p), "a+b=x%26y%3Dz%2F%C3%A9%7E*-._");
}

#[test]
fn empty_parameters_leave_the_url() {
    assert_eq!(query_string(&Vec::new()), "");
    assert_eq!(url_with_query("https://example.com", &Vec::new()), "https://example.com");
    assert_eq!(query_string(&pairs(&[("", "")])), "=");
}
