use rackhost::auth::Authed;
use rackhost::base::RackhostClient;
use rackhost::error::{Error, ErrorKind};
use rackhost::record::{submission_result, DnsRecord, HasId, NoId, RecordType, TTL};
use rackhost::request::Method;
use rackhost::zone::DnsZone;

fn session() -> RackhostClient<Authed> {
    RackhostClient::default().authenticate(302, Some("/")).unwrap()
}

fn zone() -> DnsZone {
    DnsZone { id: "101".to_string(), name: "cs-z.hu".to_string() }
}

const RECORD_PAGE: &str = r#"<!DOCTYPE html>
<html><body>
<div id="dns-record-grid-0" class="grid-view">
<table class="table">
<thead><tr><th>Név</th><th>Típus</th><th>Cél</th><th>TTL</th><th></th></tr></thead>
<tbody>
<tr><td>cs-z.hu</td><td>A</td><td>185.43.206.10</td><td>3600</td><td><a href="/dnsRecord/updateOther/9001">Szerkesztés</a></td></tr>
<tr><td>www.cs-z.hu</td><td>CNAME</td><td>cs-z.hu</td><td>300</td><td><a href="/dnsRecord/updateOther/9002">Szerkesztés</a></td></tr>
<tr><td>cs-z.hu</td><td>AAAA</td><td>2a00:1450:400d:80c::200e</td><td>86400</td><td><a href="/dnsRecord/updateOther/9003">Szerkesztés</a></td></tr>
<tr><td>cs-z.hu</td><td>TXT</td><td>v=spf1 -all</td><td>604800</td><td><a href="/dnsRecord/updateOther/9004">Szerkesztés</a></td></tr>
</tbody>
</table>
</div>
</body></html>"#;

const ACCEPTED: &str = r#"{"success":true,"message":"<div class=\"alert alert-success\">A rekord mentése sikeres.<\/div>"}"#;

const REFUSED: &str = r#"{"success":false,"message":"<div class=\"alert alert-danger\">Hibás cél.<\/div>"}"#;

#[test]
fn test_dns_records() {
    session().get_dns_records(RECORD_PAGE).expect("Failed to get dns records");
}

#[test]
fn every_row_gives_its_record() {
    let records = session().get_dns_records(RECORD_PAGE).unwrap();
    assert_eq!(records.len(), 4);
    assert_eq!(records[0].host_name, "cs-z.hu");
    assert_eq!(records[0].record_type, RecordType::A);
    assert_eq!(records[0].target, "185.43.206.10");
    assert_eq!(records[0].ttl.into_inner(), 3600);
    assert_eq!(records[0].id(), 9001);
    assert_eq!(records[1].host_name, "www.cs-z.hu");
    assert_eq!(records[1].record_type, RecordType::Cname);
    assert_eq!(records[1].target, "cs-z.hu");
    assert_eq!(records[1].ttl.into_inner(), 300);
    assert_eq!(records[1].id(), 9002);
    assert_eq!(records[2].record_type, RecordType::Aaaa);
    assert_eq!(records[2].target, "2a00:1450:400d:80c::200e");
    assert_eq!(records[2].id(), 9003);
    assert_eq!(records[3].record_type, RecordType::Txt);
    assert_eq!(records[3].target, "v=spf1 -all");
    assert_eq!(records[3].ttl.into_inner(), 604800);
    assert_eq!(records[3].id(), 9004);
}

#[test]
fn a_page_without_the_grid_lists_no_record() {
    assert_eq!(session().get_dns_records("<p>nothing</p>").unwrap().len(), 0);
}

#[test]
fn an_unknown_type_fails_the_whole_listing() {
    let page = RECORD_PAGE.replace("<td>CNAME</td>", "<td>MX</td>");
    assert_eq!(session().get_dns_records(&page).err(), Some(Error::InvalidRecordType));
}

#[test]
fn a_ttl_outside_the_set_fails_the_whole_listing() {
    let page = RECORD_PAGE.replace("<td>300</td>", "<td>301</td>");
    assert_eq!(session().get_dns_records(&page).err(), Some(Error::InvalidTtl));
}

#[test]
fn a_ttl_that_is_no_number_fails_the_whole_listing() {
    let page = RECORD_PAGE.replace("<td>300</td>", "<td>5 perc</td>");
    assert_eq!(session().get_dns_records(&page).err(), Some(Error::InvalidNumber));
}

#[test]
fn an_identity_that_is_no_number_fails_the_whole_listing() {
    let page = RECORD_PAGE.replace("updateOther/9002", "updateOther/new");
    assert_eq!(session().get_dns_records(&page).err(), Some(Error::InvalidNumber));
}

#[test]
fn a_row_without_a_link_fails_the_whole_listing() {
    let page = RECORD_PAGE
        .replace(r#"<a href="/dnsRecord/updateOther/9003">Szerkesztés</a>"#, "Szerkesztés");
    assert_eq!(session().get_dns_records(&page).err(), Some(Error::MissingElement));
    let page = RECORD_PAGE.replace(r#"<a href="/dnsRecord/updateOther/9003">"#, "<a>");
    assert_eq!(session().get_dns_records(&page).err(), Some(Error::MissingAttribute));
}

#[test]
fn an_empty_or_missing_cell_fails_the_whole_listing() {
    let page = RECORD_PAGE.replace("<td>185.43.206.10</td>", "<td></td>");
    assert_eq!(session().get_dns_records(&page).err(), Some(Error::MissingText));
    let page = RECORD_PAGE.replace(
        "<tr><td>cs-z.hu</td><td>TXT</td><td>v=spf1 -all</td><td>604800</td>",
        "<tr><td>cs-z.hu</td><td>TXT</td>",
    );
    assert_eq!(session().get_dns_records(&page).err(), Some(Error::MissingElement));
}

#[test]
fn the_failure_of_the_first_bad_row_is_reported() {
    let page = RECORD_PAGE.replace("<td>A</td>", "<td>MX</td>").replace("<td>300</td>", "<td>1</td>");
    assert_eq!(session().get_dns_records(&page).err(), Some(Error::InvalidRecordType));
}

#[test]
fn the_records_of_a_zone_are_fetched_from_its_path() {
    let request = session().dns_records_request(&zone()).unwrap();
    assert_eq!(request.method, Method::Get);
    assert_eq!(request.url, "https://www.rackhost.hu/dnsZone/101");
}

#[test]
fn test_create_dns_record() {
    let record: DnsRecord<NoId> = DnsRecord {
        id: NoId,
        host_name: "test.cs-z.hu".to_string(),
        record_type: RecordType::A,
        ttl: TTL::try_new(3600).expect("Failed to create TTL"),
        target: "8.8.8.8".to_string(),
    };
    let request = session()
        .create_dns_record_request(&zone(), &record, "tok".to_string())
        .expect("Failed to create dns record");
    assert_eq!(request.method, Method::Post);
    assert_eq!(request.url, "https://www.rackhost.hu/dnsRecord/createOther?dnsZoneId=101");
    assert_eq!(
        request.headers,
        vec![("X-Requested-With".to_string(), "XMLHttpRequest".to_string())]
    );
    assert_eq!(
        request.form,
        vec![
            ("rackhost-csrf".to_string(), "tok".to_string()),
            ("DnsRecordForm[name]".to_string(), "test".to_string()),
            ("DnsRecordForm[type]".to_string(), "A".to_string()),
            ("DnsRecordForm[target]".to_string(), "8.8.8.8".to_string()),
            ("DnsRecordForm[ttl]".to_string(), "3600".to_string()),
        ]
    );
    session().create_dns_record(ACCEPTED).expect("Failed to create dns record");
}

#[test]
fn test_update_dns_record() {
    let records = session().get_dns_records(RECORD_PAGE).expect("Failed to get dns records");
    let mut record = records[0].clone();
    record.ttl = TTL::try_new(900).expect("Failed to create TTL");
    let request = session()
        .update_dns_record_request(&record, "tok".to_string())
        .expect("Failed to update dns record");
    assert_eq!(request.method, Method::Post);
    assert_eq!(request.url, "https://www.rackhost.hu/dnsRecord/updateOther/9001");
    assert_eq!(
        request.form,
        vec![
            ("rackhost-csrf".to_string(), "tok".to_string()),
            ("DnsRecordForm[name]".to_string(), "cs-z".to_string()),
            ("DnsRecordForm[type]".to_string(), "A".to_string()),
            ("DnsRecordForm[target]".to_string(), "185.43.206.10".to_string()),
            ("DnsRecordForm[ttl]".to_string(), "900".to_string()),
        ]
    );
    session().update_dns_record(ACCEPTED).expect("Failed to update dns record");
}

#[test]
fn a_change_is_submitted_with_the_fields_of_a_creation() {
    for record in session().get_dns_records(RECORD_PAGE).unwrap() {
        let update = session().update_dns_record_request(&record, "tok".to_string()).unwrap();
        let stripped: DnsRecord<NoId> = DnsRecord::from(record.clone());
        let create =
            session().create_dns_record_request(&zone(), &stripped, "tok".to_string()).unwrap();
        assert_eq!(update.form, create.form);
        assert_eq!(update.headers, create.headers);
        assert_eq!(update.method, create.method);
        assert_ne!(update.url, create.url);
        assert!(update.url.ends_with(&format!("/{}", record.id())));
        let copy = record.without_id();
        assert_eq!(copy.host_name, stripped.host_name);
        assert_eq!(copy.target, stripped.target);
        assert_eq!(copy.ttl, stripped.ttl);
        assert_eq!(copy.record_type, stripped.record_type);
    }
}

#[test]
fn a_new_record_holds_what_it_is_given() {
    let record = DnsRecord::new(
        "mail.cs-z.hu".to_string(),
        RecordType::Txt,
        "v=spf1".to_string(),
        TTL::try_new(600).unwrap(),
    );
    assert_eq!(record.host_name, "mail.cs-z.hu");
    assert_eq!(record.record_type, RecordType::Txt);
    assert_eq!(record.target, "v=spf1");
    assert_eq!(record.ttl.into_inner(), 600);
}

#[test]
fn only_the_first_label_of_the_name_is_submitted() {
    let record = DnsRecord::new(
        "a.b.cs-z.hu".to_string(),
        RecordType::Cname,
        "c.cs-z.hu".to_string(),
        TTL::try_new(300).unwrap(),
    );
    let request = session()
        .create_or_update_dns_record("https://www.rackhost.hu/x".to_string(), &record, "t".to_string());
    assert_eq!(request.url, "https://www.rackhost.hu/x");
    assert_eq!(request.form[1], ("DnsRecordForm[name]".to_string(), "a".to_string()));
    assert_eq!(request.form[2], ("DnsRecordForm[type]".to_string(), "CNAME".to_string()));
    assert_eq!(request.form[4], ("DnsRecordForm[ttl]".to_string(), "300".to_string()));
}

#[test]
fn the_zone_is_named_in_the_query_as_the_url_writes_it() {
    let record =
        DnsRecord::new("a.hu".to_string(), RecordType::A, "1.1.1.1".to_string(), TTL::try_new(300).unwrap());
    let odd = DnsZone { id: "1 2#3".to_string(), name: "odd".to_string() };
    let request = session().create_dns_record_request(&odd, &record, "t".to_string()).unwrap();
    assert_eq!(request.url, "https://www.rackhost.hu/dnsRecord/createOther?dnsZoneId=1%202%233");
}

#[test]
fn a_zone_whose_identifier_is_far_too_long_has_no_address() {
    let record =
        DnsRecord::new("a.hu".to_string(), RecordType::A, "1.1.1.1".to_string(), TTL::try_new(300).unwrap());
    let endless = DnsZone { id: "9".repeat(0x100_0000), name: "endless".to_string() };
    assert_eq!(
        session().create_dns_record_request(&endless, &record, "t".to_string()),
        Err(Error::InvalidUrl)
    );
    assert_eq!(Error::InvalidUrl.kind(), ErrorKind::Structure);
}

#[test]
fn a_record_page_too_long_for_the_parser_is_refused_unread() {
    let endless = RECORD_PAGE.to_string() + &" ".repeat(rackhost::html::PAGE_LIMIT);
    assert_eq!(session().get_dns_records(&endless).err(), Some(Error::PageTooLong));
}

#[test]
fn a_message_too_long_for_the_parser_is_refused_unread() {
    let answer = format!(
        "{{\"message\":\"<div class='alert-success'>ok</div>{}\"}}",
        " ".repeat(rackhost::html::PAGE_LIMIT)
    );
    assert_eq!(submission_result(&answer), Err(Error::PageTooLong));
}

#[test]
fn an_answer_with_the_mark_of_success_is_a_success() {
    assert_eq!(session().create_dns_record(ACCEPTED), Ok(()));
    assert_eq!(session().update_dns_record(ACCEPTED), Ok(()));
    assert_eq!(submission_result(ACCEPTED), Ok(()));
}

#[test]
fn an_answer_without_the_mark_of_success_is_a_rejection() {
    assert_eq!(session().create_dns_record(REFUSED), Err(Error::Rejected));
    assert_eq!(session().update_dns_record(REFUSED), Err(Error::Rejected));
    assert_eq!(Error::Rejected.kind(), ErrorKind::Rejection);
    assert_eq!(submission_result(r#"{"message":""}"#), Err(Error::Rejected));
    assert_eq!(
        submission_result(r#"{"message":"<span class=\"alert-success\">ok</span>"}"#),
        Err(Error::Rejected)
    );
}

#[test]
fn an_answer_that_is_not_the_expected_json_is_a_structural_failure() {
    assert_eq!(submission_result("<html>502</html>"), Err(Error::InvalidJson));
    assert_eq!(submission_result(""), Err(Error::InvalidJson));
    assert_eq!(submission_result(r#"{"success":true}"#), Err(Error::MissingField));
    assert_eq!(submission_result(r#"{"message":17}"#), Err(Error::MissingField));
    assert_eq!(submission_result(r#"["message"]"#), Err(Error::MissingField));
}

#[test]
fn an_identity_is_kept_by_a_copy() {
    let records = session().get_dns_records(RECORD_PAGE).unwrap();
    let copy: DnsRecord<HasId> = records[1].clone();
    assert_eq!(copy.id(), 9002);
    assert_eq!(copy.id.0, 9002);
}
