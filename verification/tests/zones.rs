use rackhost::auth::Authed;
use rackhost::base::RackhostClient;
use rackhost::error::Error;
use rackhost::html::{Element, Row};
use rackhost::request::Method;
use rackhost::zone::{zone_from_link, zone_from_row, zones_from_rows, DnsZone};

fn session() -> RackhostClient<Authed> {
    RackhostClient::default().authenticate(302, Some("/")).unwrap()
}

const ZONE_PAGE: &str = r#"<!DOCTYPE html>
<html><body>
<div id="dns-zone-grid" class="grid-view">
<table class="table">
<thead><tr><th>Zóna</th><th>Rekordok</th></tr></thead>
<tbody>
<tr><td><a href="/dnsZone/101">cs-z.hu</a></td><td><a href="/dnsZone/101/stat">12</a></td></tr>
<tr><td><a href="/dnsZone/2002">example.hu</a></td><td>3</td></tr>
<tr><td><a href="/dnsZone/30003">árvíztűrő.hu</a></td><td>0</td></tr>
</tbody>
</table>
</div>
</body></html>"#;

#[test]
fn test_dns_zones() {
    session().get_dns_zones(ZONE_PAGE).expect("Failed to get dns zones");
}

#[test]
fn three_rows_give_three_zones_in_the_order_of_the_page() {
    let zones = session().get_dns_zones(ZONE_PAGE).unwrap();
    assert_eq!(
        zones,
        vec![
            DnsZone { id: "101".to_string(), name: "cs-z.hu".to_string() },
            DnsZone { id: "2002".to_string(), name: "example.hu".to_string() },
            DnsZone { id: "30003".to_string(), name: "árvíztűrő.hu".to_string() },
        ]
    );
}

#[test]
fn a_page_without_the_grid_lists_no_zone() {
    assert_eq!(session().get_dns_zones("<html><body><p>nothing</p></body></html>"), Ok(vec![]));
    assert_eq!(session().get_dns_zones(""), Ok(vec![]));
}

#[test]
fn a_link_without_a_target_fails_the_whole_listing() {
    let page = ZONE_PAGE.replace(r#"<a href="/dnsZone/2002">"#, "<a>");
    assert_eq!(session().get_dns_zones(&page), Err(Error::MissingAttribute));
}

#[test]
fn a_link_without_a_text_fails_the_whole_listing() {
    let page = ZONE_PAGE.replace("example.hu", "");
    assert_eq!(session().get_dns_zones(&page), Err(Error::MissingText));
}

#[test]
fn the_identifier_of_a_zone_is_the_last_segment_of_its_link() {
    let link = |href: &str| Element {
        attrs: vec![Some(href.to_string())],
        text: Some("zone".to_string()),
    };
    assert_eq!(zone_from_link(&link("/dnsZone/7")).unwrap().id, "7");
    assert_eq!(zone_from_link(&link("7")).unwrap().id, "7");
    assert_eq!(zone_from_link(&link("/dnsZone/")).unwrap().id, "");
    assert_eq!(zone_from_link(&link("https://www.rackhost.hu/dnsZone/7?x=1/2")).unwrap().id, "2");
}

#[test]
fn a_link_is_refused_for_what_it_lacks_first() {
    let bare = Element { attrs: vec![None], text: None };
    assert_eq!(zone_from_link(&bare), Err(Error::MissingAttribute));
    let unread = Element { attrs: vec![], text: Some("zone".to_string()) };
    assert_eq!(zone_from_link(&unread), Err(Error::MissingAttribute));
    let silent = Element { attrs: vec![Some("/dnsZone/1".to_string())], text: None };
    assert_eq!(zone_from_link(&silent), Err(Error::MissingText));
}

#[test]
fn a_zone_row_without_a_link_fails_the_whole_listing() {
    let page = ZONE_PAGE.replace(r#"<a href="/dnsZone/2002">example.hu</a>"#, "example.hu");
    assert_eq!(session().get_dns_zones(&page), Err(Error::MissingElement));
    let page = ZONE_PAGE.replace(r#"<td><a href="/dnsZone/30003">árvíztűrő.hu</a></td>"#, "");
    assert_eq!(session().get_dns_zones(&page), Err(Error::MissingElement));
    let page = ZONE_PAGE.replace("</tbody>", "<tr></tr></tbody>");
    assert_eq!(session().get_dns_zones(&page), Err(Error::MissingElement));
}

#[test]
fn a_row_gives_one_zone_whatever_else_it_links_to() {
    let page = ZONE_PAGE.replace(
        r#"<a href="/dnsZone/2002">example.hu</a>"#,
        r#"<a href="/dnsZone/2002">example.hu</a> <a href="/dnsZone/2002/delete">x</a>"#,
    );
    let zones = session().get_dns_zones(&page).unwrap();
    assert_eq!(zones.len(), 3);
    assert_eq!(zones[1], DnsZone { id: "2002".to_string(), name: "example.hu".to_string() });
}

#[test]
fn a_zone_page_too_long_for_the_parser_is_refused_unread() {
    let endless = ZONE_PAGE.to_string() + &" ".repeat(rackhost::html::PAGE_LIMIT);
    assert_eq!(session().get_dns_zones(&endless), Err(Error::PageTooLong));
}

#[test]
fn the_first_refused_row_decides_the_failure() {
    let link = |href: Option<&str>, text: Option<&str>| Element {
        attrs: vec![href.map(str::to_string)],
        text: text.map(str::to_string),
    };
    let row = |links: Vec<Element>| Row {
        element: Element { attrs: vec![None], text: None },
        cells: vec![links],
    };
    let found = Some(vec![
        row(vec![link(Some("/dnsZone/1"), Some("a.hu"))]),
        row(vec![link(Some("/dnsZone/2"), None)]),
        row(vec![]),
        row(vec![link(None, Some("d.hu"))]),
    ]);
    assert_eq!(zones_from_rows(&found), Err(Error::MissingText));
    assert_eq!(zones_from_rows(&None), Err(Error::InvalidSelector));
    assert_eq!(zones_from_rows(&Some(vec![])), Ok(vec![]));
    assert_eq!(zone_from_row(&row(vec![])), Err(Error::MissingElement));
    assert_eq!(
        zone_from_row(&Row { element: link(Some("/dnsZone/9"), Some("row.hu")), cells: vec![] }),
        Err(Error::MissingElement)
    );
    assert_eq!(
        zone_from_row(&row(vec![
            link(Some("/dnsZone/1"), Some("a.hu")),
            link(Some("/dnsZone/2"), Some("b.hu")),
        ])),
        Ok(DnsZone { id: "1".to_string(), name: "a.hu".to_string() })
    );
}

#[test]
fn the_zones_are_fetched_from_their_path() {
    let request = session().dns_zones_request().unwrap();
    assert_eq!(request.method, Method::Get);
    assert_eq!(request.url, "https://www.rackhost.hu/dnsZone");
    assert!(request.form.is_empty());
}
