//! Where the icon of a server is found: the icons that its front page
//! names, and the address of the first of them.

use vstd::prelude::*;
use crate::text::{opt_view, str_eq};

verus! {

/// One element of a page, by two of its attributes.
#[derive(Debug)]
pub struct LinkTag {
    pub rel: Option<String>,
    pub href: Option<String>,
}

/// The elements of a vector, each by the characters of its two attributes.
pub open spec fn tag_views(tags: Seq<LinkTag>) -> Seq<(Option<Seq<char>>, Option<Seq<char>>)> {
    Seq::new(tags.len(), |i: int| (opt_view(tags[i].rel), opt_view(tags[i].href)))
}

/// The strings of a vector, each by its characters.
pub open spec fn string_views(strings: Seq<String>) -> Seq<Seq<char>> {
    Seq::new(strings.len(), |i: int| strings[i]@)
}

/// What `scraper` finds in a fragment of HTML: for each element that
/// matches the selector, in the order in which `Html::select` yields them,
/// the values of the two named attributes. None where the selector is not
/// one that `Selector::parse` accepts.
pub uninterp spec fn html_attributes(
    content: Seq<char>,
    selector: Seq<char>,
    first: Seq<char>,
    second: Seq<char>,
) -> Option<Seq<(Option<Seq<char>>, Option<Seq<char>>)>>;

/// What `url` makes of a reference relative to a base: the text of
/// `Url::parse(base)` joined with `reference` by `Url::join`. None where the
/// base is no URL or the two cannot be joined.
pub uninterp spec fn url_joined(base: Seq<char>, reference: Seq<char>) -> Option<Seq<char>>;

/// Parses the fragment with `scraper::Html::parse_fragment`, the selector
/// with `scraper::Selector::parse`, and reads the two attributes of every
/// element that `Html::select` yields with `Element::attr`. Nothing is
/// claimed of the result but that it is the one that `html_attributes` names.
#[verifier::external_body]
fn select_attributes(content: &str, selector: &str, first: &str, second: &str) -> (tags: Option<
    Vec<LinkTag>,
>)
    ensures
        match tags {
            Some(found) => html_attributes(content@, selector@, first@, second@) == Some(
                tag_views(found@),
            ),
            None => html_attributes(content@, selector@, first@, second@) is None,
        },
{
    let fragment = scraper::Html::parse_fragment(content);
    match scraper::Selector::parse(selector) {
        Ok(parsed) => Some(
            fragment.select(&parsed).map(
                |element|
                    LinkTag {
                        rel: element.value().attr(first).map(|value| value.to_string()),
                        href: element.value().attr(second).map(|value| value.to_string()),
                    },
            ).collect(),
        ),
        Err(_) => None,
    }
}

/// Parses the base with `url::Url::parse`, joins the reference to it with
/// `Url::join` and prints the result. Nothing is claimed of the result but
/// that it is the one that `url_joined` names.
#[verifier::external_body]
fn join_url(base: &str, reference: &str) -> (joined: Option<String>)
    ensures
        opt_view(joined) == url_joined(base@, reference@),
{
    match url::Url::parse(base) {
        Ok(parsed) => match parsed.join(reference) {
            Ok(joined) => Some(joined.to_string()),
            Err(_) => None,
        },
        Err(_) => None,
    }
}

/// Whether a `rel` attribute marks an icon.
pub open spec fn is_icon_rel(rel: Seq<char>) -> bool {
    rel == "icon"@ || rel == "apple-touch-icon"@
}

/// The addresses of the icons among the elements, in their order: the
/// `href` of every element whose `rel` marks an icon and that has one.
pub open spec fn icon_hrefs(tags: Seq<(Option<Seq<char>>, Option<Seq<char>>)>) -> Seq<Seq<char>>
    decreases tags.len(),
{
    if tags.len() == 0 {
        Seq::empty()
    } else {
        let rest = icon_hrefs(tags.drop_last());
        match tags.last() {
            (Some(rel), Some(href)) => if is_icon_rel(rel) {
                rest.push(href)
            } else {
                rest
            },
            _ => rest,
        }
    }
}

/// The addresses of the icons among the elements, in their order.
pub fn icon_locations(tags: &Vec<LinkTag>) -> (list: Vec<String>)
    ensures
        string_views(list@) == icon_hrefs(tag_views(tags@)),
{
    let mut list: Vec<String> = Vec::new();
    let mut i: usize = 0;
    while i < tags.len()
        invariant
            i <= tags.len(),
            string_views(list@) == icon_hrefs(tag_views(tags@).take(i as int)),
        decreases tags.len() - i,
    {
        proof {
            let next = tag_views(tags@).take(i as int + 1);
            assert(next.drop_last() =~= tag_views(tags@).take(i as int));
            assert(next.last() == (opt_view(tags[i as int].rel), opt_view(tags[i as int].href)));
        }
        let ghost before = string_views(list@);
        match &tags[i].rel {
            Some(rel) => {
                if str_eq(rel.as_str(), "icon") || str_eq(rel.as_str(), "apple-touch-icon") {
                    match &tags[i].href {
                        Some(href) => {
                            list.push(href.clone());
                            assert(string_views(list@) =~= before.push(href@));
                        },
                        None => {},
                    }
                }
            },
            None => {},
        }
        i += 1;
    }
    assert(tag_views(tags@).take(tags.len() as int) =~= tag_views(tags@));
    list
}

/// The addresses of the icons that a page names: the `href` of every
/// `link` element whose `rel` is `icon` or `apple-touch-icon`, in the order
/// of the page.
pub fn parse_content(content: &str) -> (list: Vec<String>)
    ensures
        string_views(list@) == match html_attributes(content@, "link"@, "rel"@, "href"@) {
            Some(tags) => icon_hrefs(tags),
            None => Seq::empty(),
        },
{
    match select_attributes(content, "link", "rel", "href") {
        Some(tags) => icon_locations(&tags),
        None => {
            let list: Vec<String> = Vec::new();
            assert(string_views(list@) =~= Seq::<Seq<char>>::empty());
            list
        },
    }
}

/// Whether a content type is that of an HTML page: it begins with `text/html`.
pub open spec fn html_content_type(content_type: Seq<char>) -> bool {
    "text/html"@.is_prefix_of(content_type)
}

/// Whether a content type is that of an HTML page.
pub fn is_html(content_type: &str) -> (yes: bool)
    ensures
        yes == html_content_type(content_type@),
{
    let prefix = "text/html";
    proof {
        reveal_strlit("text/html");
    }
    let n = content_type.unicode_len();
    if n < 9 {
        return false;
    }
    let mut i: usize = 0;
    while i < 9
        invariant
            i <= 9,
            n == content_type@.len(),
            n >= 9,
            prefix@ == "text/html"@,
            prefix@.len() == 9,
            forall|j: int| 0 <= j < i ==> content_type@[j] == prefix@[j],
        decreases 9 - i,
    {
        if content_type.get_char(i) != prefix.get_char(i) {
            assert(content_type@.subrange(0, 9)[i as int] != prefix@[i as int]);
            return false;
        }
        i += 1;
    }
    assert(prefix@ =~= content_type@.subrange(0, 9));
    true
}

/// The icons that a response names: those of its body where its content
/// type is that of an HTML page, and none else.
pub fn parse_location(content_type: Option<&str>, body: &str) -> (list: Vec<String>)
    ensures
        string_views(list@) == match content_type {
            Some(found) => if html_content_type(found@) {
                match html_attributes(body@, "link"@, "rel"@, "href"@) {
                    Some(tags) => icon_hrefs(tags),
                    None => Seq::empty(),
                }
            } else {
                Seq::empty()
            },
            None => Seq::empty(),
        },
{
    match content_type {
        Some(found) => {
            if is_html(found) {
                return parse_content(body);
            }
        },
        None => {},
    }
    let list: Vec<String> = Vec::new();
    assert(string_views(list@) =~= Seq::<Seq<char>>::empty());
    list
}

/// The address of a server's icon: the first of the icons that its front
/// page names, taken relative to the address of the page. None where the
/// page names no icon, or the two make no address.
pub fn favicon_url(url: &str, list: &Vec<String>) -> (icon: Option<String>)
    ensures
        opt_view(icon) == if list.len() > 0 {
            url_joined(url@, list[0]@)
        } else {
            None
        },
{
    if list.len() > 0 {
        join_url(url, list[0].as_str())
    } else {
        None
    }
}

} // verus!
