use rackhost::auth::NotAuthed;
use rackhost::base::RackhostClient;
use rackhost::error::Error;
use rackhost::html::{Element, Row};
use rackhost::record::{cell_link, cell_text, confirmation_from, message_from, record_from_row};
use rackhost::json::JsonLeaf;
use rackhost::csrf::csrf_token_from;

fn element(attr: Option<&str>, text: Option<&str>) -> Element {
    Element { attrs: vec![attr.map(str::to_string)], text: text.map(str::to_string) }
}

fn row(cells: Vec<Vec<Element>>) -> Row {
    Row { element: element(None, None), cells }
}

#[test]
fn an_element_gives_what_was_asked_of_it() {
    let link = element(Some("/x/1"), Some("one"));
    assert_eq!(link.attr(0), Some("/x/1"));
    assert_eq!(link.attr(1), None);
    assert_eq!(link.first_text(), Some("one"));
    assert_eq!(element(None, None).attr(0), None);
    assert_eq!(element(None, None).first_text(), None);
}

#[test]
fn a_row_gives_the_first_of_the_cells_found() {
    let found = row(vec![vec![element(None, Some("a")), element(None, Some("b"))], vec![]]);
    assert_eq!(found.first_cell(0), Some(&element(None, Some("a"))));
    assert_eq!(found.first_cell(1), None);
    assert_eq!(found.first_cell(2), None);
    assert_eq!(found.cells(0).map(Vec::len), Some(2));
    assert_eq!(found.cells(1).map(Vec::len), Some(0));
    assert_eq!(found.cells(2), None);
    assert_eq!(cell_text(&found, 0), Ok("a"));
    assert_eq!(cell_text(&found, 1), Err(Error::MissingElement));
    assert_eq!(cell_link(&found, 0), Err(Error::MissingAttribute));
}

#[test]
fn a_row_of_a_listing_is_read_cell_by_cell() {
    let cells = |ttl: &str, href: &str, label: &str| {
        row(vec![
            vec![element(None, Some("www.cs-z.hu"))],
            vec![element(None, Some(label))],
            vec![element(None, Some("cs-z.hu"))],
            vec![element(None, Some(ttl))],
            vec![element(Some(href), Some("edit"))],
        ])
    };
    let record = record_from_row(&cells("7200", "/dnsRecord/updateOther/55", "CNAME")).unwrap();
    assert_eq!(record.id(), 55);
    assert_eq!(record.ttl.into_inner(), 7200);
    assert_eq!(record.host_name, "www.cs-z.hu");
    assert_eq!(
        record_from_row(&cells("7200", "/dnsRecord/updateOther/", "CNAME")).err(),
        Some(Error::InvalidNumber)
    );
    assert_eq!(
        record_from_row(&cells("x", "/dnsRecord/updateOther/", "MX")).err(),
        Some(Error::InvalidNumber)
    );
    assert_eq!(
        record_from_row(&cells("7201", "/dnsRecord/updateOther/55", "MX")).err(),
        Some(Error::InvalidRecordType)
    );
    assert_eq!(
        record_from_row(&cells("7201", "/dnsRecord/updateOther/55", "A")).err(),
        Some(Error::InvalidTtl)
    );
    assert_eq!(record_from_row(&row(vec![])).err(), Some(Error::MissingElement));
}

#[test]
fn what_follows_the_outside_calls_is_decided_on_plain_values() {
    assert_eq!(csrf_token_from(&None), Err(Error::InvalidSelector));
    assert_eq!(csrf_token_from(&Some(vec![])), Err(Error::MissingElement));
    let input = Row { element: element(Some("tok"), None), cells: vec![] };
    assert_eq!(csrf_token_from(&Some(vec![input])), Ok("tok".to_string()));
    assert_eq!(confirmation_from(&None), Err(Error::InvalidSelector));
    assert_eq!(confirmation_from(&Some(vec![])), Err(Error::Rejected));
    assert_eq!(confirmation_from(&Some(vec![element(None, None)])), Ok(()));
    assert_eq!(message_from(&None), Err(Error::InvalidJson));
    assert_eq!(message_from(&Some(vec![])), Err(Error::MissingField));
    let leaf = JsonLeaf { text: Some("m".to_string()), signed: None, unsigned: None };
    assert_eq!(message_from(&Some(vec![leaf])), Ok("m"));
}

#[test]
fn entities_and_nested_markup_are_read_as_the_parser_reads_them() {
    let client: RackhostClient<NotAuthed> = RackhostClient::default();
    let page = r#"<input name=rackhost-csrf value="a&amp;b">"#;
    assert_eq!(client.get_csrf_token(page), Ok("a&b".to_string()));
    let session = client.authenticate(303, Some("/account")).unwrap();
    let page = r#"<div id="dns-zone-grid"><table><tr><td><a href="/dnsZone/5"><b>bold.hu</b> rest</a></td></tr></table></div>"#;
    let zones = session.get_dns_zones(page).unwrap();
    assert_eq!(zones.len(), 1);
    assert_eq!(zones[0].id, "5");
    assert_eq!(zones[0].name, "bold.hu");
}
