use fedistar::favicon::{
    favicon_url, icon_locations, is_html, parse_content, parse_location, LinkTag,
};

#[test]
fn test_parse_content_for_mastodon() {
    let html = r#"
<!DOCTYPE html>
<html lang='en'>
<head>
<meta charset='utf-8'>
<meta content='width=device-width, initial-scale=1, viewport-fit=cover' name='viewport'>
<link href='/favicon.ico' rel='icon' type='image/x-icon'>
<link href='/apple-touch-icon.png' rel='apple-touch-icon' sizes='180x180'>
<link color='#2B90D9' href='/mask-icon.svg' rel='mask-icon'>
<meta content='/browserconfig.xml' name='msapplication-config'>
<title>Sample</title>
</head>
<body></body>
</html>
"#;

    let result = parse_content(html);
    assert_eq!(
        result,
        vec![
            String::from("/favicon.ico"),
            String::from("/apple-touch-icon.png")
        ]
    );
}

#[test]
fn test_parse_content_for_pleroma() {
    let html = r#"
"<!DOCTYPE html>
<html lang=en>
<head>
<meta charset=utf-8>
<meta name=viewport content=\"width=device-width,initial-scale=1,user-scalable=no\">
<title>Pleroma.io</title>
<link rel=icon type=image/png href=/favicon.png>
<link href=/static/css/app.7d2d223f75c3a14b0991.css rel=stylesheet>
</head>
<body class=hidden>
<noscript>To use Pleroma, please enable JavaScript.</noscript>
<div id=app></div>
<script type=text/javascript src=/static/js/vendors~app.cea10ab53f3aa19fc30e.js></script>
<script type=text/javascript src=/static/js/app.6c972d84b60f601b01f8.js></script>
</body>
</html>"
"#;
    let result = parse_content(html);
    assert_eq!(result, vec![String::from("/favicon.png"),]);
}

#[test]
fn parse_content_of_a_page_without_links_is_empty() {
    assert!(parse_content("<p>nothing here</p>").is_empty());
    assert!(parse_content("").is_empty());
}

#[test]
fn parse_content_skips_an_icon_without_href() {
    let html = "<link rel=icon><link rel=icon href=/a.png>";
    assert_eq!(parse_content(html), vec![String::from("/a.png")]);
}

fn tag(rel: Option<&str>, href: Option<&str>) -> LinkTag {
    LinkTag { rel: rel.map(String::from), href: href.map(String::from) }
}

#[test]
fn icon_locations_keeps_icons_in_order() {
    let tags = vec![
        tag(Some("stylesheet"), Some("/a.css")),
        tag(Some("apple-touch-icon"), Some("/touch.png")),
        tag(None, Some("/none.png")),
        tag(Some("icon"), None),
        tag(Some("icon"), Some("/favicon.ico")),
        tag(Some("Icon"), Some("/upper.ico")),
        tag(Some("mask-icon"), Some("/mask.svg")),
    ];
    assert_eq!(
        icon_locations(&tags),
        vec![String::from("/touch.png"), String::from("/favicon.ico")]
    );
    assert!(icon_locations(&Vec::new()).is_empty());
}

#[test]
fn is_html_looks_at_the_beginning() {
    assert!(is_html("text/html"));
    assert!(is_html("text/html; charset=utf-8"));
    assert!(!is_html("text/htm"));
    assert!(!is_html(""));
    assert!(!is_html("application/json"));
    assert!(!is_html(" text/html"));
    assert!(!is_html("Text/html"));
}

#[test]
fn parse_location_reads_html_only() {
    let body = "<link rel=icon href=/favicon.ico>";
    assert_eq!(
        parse_location(Some("text/html; charset=utf-8"), body),
        vec![String::from("/favicon.ico")]
    );
    assert!(parse_location(Some("application/json"), body).is_empty());
    assert!(parse_location(None, body).is_empty());
}

#[test]
fn favicon_url_joins_the_first_icon_to_the_page() {
    let list = vec![String::from("/favicon.ico"), String::from("/apple-touch-icon.png")];
    assert_eq!(
        favicon_url("https://mastodon.social", &list),
        Some(String::from("https://mastodon.social/favicon.ico"))
    );
    let list = vec![String::from("/favicon.png")];
    assert_eq!(
        favicon_url("https://pleroma.soykaf.com", &list),
        Some(String::from("https://pleroma.soykaf.com/favicon.png"))
    );
}

#[test]
fn favicon_url_takes_an_absolute_icon_as_it_is() {
    let list = vec![String::from("https://cdn.example.com/icon.png")];
    assert_eq!(
        favicon_url("https://example.social/about", &list),
        Some(String::from("https://cdn.example.com/icon.png"))
    );
    let list = vec![String::from("icon.png")];
    assert_eq!(
        favicon_url("https://example.social/web/about", &list),
        Some(String::from("https://example.social/web/icon.png"))
    );
}

#[test]
fn favicon_url_is_none_without_icon_or_base() {
    assert_eq!(favicon_url("https://mastodon.social", &Vec::new()), None);
    assert_eq!(favicon_url("not a url", &vec![String::from("/favicon.ico")]), None);
}
