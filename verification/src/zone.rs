//! The zones of an account.

use crate::auth::Authed;
use crate::base::{page_request, page_request_of, RackhostClient};
use crate::endpoints::DNS_ZONE_PATH;
use crate::error::Error;
use crate::html::{
    attr_at, check_page_fits, find_rows, found_rows, first_cell, on_page, Element,
    ElementView, Row, RowView,
};
use crate::outcome::{
    lemma_try_map_fails, lemma_try_map_result, lemma_try_map_step, result_view, try_map,
};
use crate::request::Request;
use crate::text::{last_segment, last_segment_of};
use vstd::prelude::*;
use vstd::string::*;

verus! {

/// A zone as the console lists it. It stands for a resource of the console:
/// the identifier is the console's, and nothing here changes one.
#[derive(Debug, Clone, PartialEq, Eq)]
pub struct DnsZone {
    /// The identifier under which the console knows the zone.
    pub id: String,
    /// The zone's name.
    pub name: String,
}

/// The mathematical value of a [`DnsZone`].
pub struct DnsZoneView {
    pub id: Seq<char>,
    pub name: Seq<char>,
}

impl DeepView for DnsZone {
    type V = DnsZoneView;

    open spec fn deep_view(&self) -> DnsZoneView {
        DnsZoneView { id: self.id@, name: self.name@ }
    }
}

/// Finds the row of each zone in the list of zones.
pub const ZONE_ROWS: &'static str = "#dns-zone-grid table tbody tr";

/// Finds, below a row, the link that names the zone.
pub const ZONE_LINK: &'static str = "td:nth-child(1) a";

/// The attribute of a link that holds its target.
pub const LINK_TARGET: &'static str = "href";

/// The zone that a link of the list stands for: its identifier is the last
/// segment of the link's target, its name the link's text. A link without a
/// target or without a text is refused.
pub open spec fn zone_of_link(link: ElementView) -> Result<DnsZoneView, Error> {
    match attr_at(link, 0) {
        None => Err(Error::MissingAttribute),
        Some(target) => match link.text {
            None => Err(Error::MissingText),
            Some(name) => Ok(DnsZoneView { id: last_segment(target, '/'), name }),
        },
    }
}

/// The zone that a row of the list stands for: that of the first link in
/// its first cell. A row without such a link is refused.
pub open spec fn zone_of_row(row: RowView) -> Result<DnsZoneView, Error> {
    match first_cell(row, 0) {
        None => Err(Error::MissingElement),
        Some(link) => zone_of_link(link),
    }
}

/// [`zone_of_row`] as a step over rows.
pub open spec fn zone_step() -> spec_fn(RowView) -> Result<DnsZoneView, Error> {
    |row: RowView| zone_of_row(row)
}

/// The zones that the rows found stand for, one for each row and in the
/// order of the rows; the first row that is refused fails the whole list.
pub open spec fn zones_of(found: Option<Seq<RowView>>) -> Result<Seq<DnsZoneView>, Error> {
    match found {
        None => Err(Error::InvalidSelector),
        Some(rows) => try_map(rows, zone_step()),
    }
}

/// A listing that succeeds holds one zone for each row, in the order of the
/// rows: every row has its link, the identifier is the last segment of the
/// link's target, and the name is the link's text.
pub proof fn lemma_zones_follow_rows(rows: Seq<RowView>)
    requires
        zones_of(Some(rows)) is Ok,
    ensures
        zones_of(Some(rows))->Ok_0.len() == rows.len(),
        forall|i: int|
            0 <= i < rows.len() ==> {
                &&& first_cell(#[trigger] rows[i], 0) matches Some(link)
                &&& attr_at(link, 0) matches Some(target)
                &&& link.text matches Some(name)
                &&& zones_of(Some(rows))->Ok_0[i] == (DnsZoneView {
                    id: last_segment(target, '/'),
                    name,
                })
            },
{
    lemma_try_map_result(rows, zone_step());
    let zones = zones_of(Some(rows))->Ok_0;
    assert forall|i: int| 0 <= i < rows.len() implies {
        &&& first_cell(#[trigger] rows[i], 0) matches Some(link)
        &&& attr_at(link, 0) matches Some(target)
        &&& link.text matches Some(name)
        &&& zones[i] == (DnsZoneView { id: last_segment(target, '/'), name })
    } by {
        assert(zone_step()(rows[i]) == Ok::<DnsZoneView, Error>(zones[i]));
    }
}

/// A listing with a row that lacks its link, the link's target or the
/// link's text fails as a whole.
pub proof fn lemma_row_without_link_fails(rows: Seq<RowView>, bad: int)
    requires
        0 <= bad < rows.len(),
        zone_of_row(rows[bad]) is Err,
    ensures
        zones_of(Some(rows)) is Err,
{
    lemma_try_map_result(rows, zone_step());
    if zones_of(Some(rows)) is Ok {
        assert(zone_step()(rows[bad]) is Ok);
    }
}

/// What the page `body` holds of zone rows.
pub open spec fn zone_rows(body: Seq<char>) -> Option<Seq<RowView>> {
    found_rows(body, ZONE_ROWS@, seq![ZONE_LINK@], seq![LINK_TARGET@])
}

/// The zone that one link stands for.
pub fn zone_from_link(link: &Element) -> (zone: Result<DnsZone, Error>)
    ensures
        result_view(zone) == zone_of_link(link.deep_view()),
{
    match link.attr(0) {
        None => Err(Error::MissingAttribute),
        Some(target) => match link.first_text() {
            None => Err(Error::MissingText),
            Some(name) => Ok(
                DnsZone {
                    id: String::from_str(last_segment_of(target, '/')),
                    name: String::from_str(name),
                },
            ),
        },
    }
}

/// The zone that one row of the list stands for.
pub fn zone_from_row(row: &Row) -> (zone: Result<DnsZone, Error>)
    ensures
        result_view(zone) == zone_of_row(row.deep_view()),
{
    match row.first_cell(0) {
        None => Err(Error::MissingElement),
        Some(link) => zone_from_link(link),
    }
}

/// The zones that the rows found on a page stand for.
pub fn zones_from_rows(found: &Option<Vec<Row>>) -> (zones: Result<Vec<DnsZone>, Error>)
    ensures
        result_view(zones) == zones_of(found.deep_view()),
{
    match found {
        None => Err(Error::InvalidSelector),
        Some(rows) => {
            let ghost step = zone_step();
            let ghost all = rows.deep_view();
            let mut zones: Vec<DnsZone> = Vec::new();
            let mut done: usize = 0;
            proof {
                assert(all.take(0) =~= Seq::<RowView>::empty());
                assert(zones.deep_view() =~= Seq::<DnsZoneView>::empty());
            }
            while done < rows.len()
                invariant
                    done <= rows.len(),
                    all == rows.deep_view(),
                    found.deep_view() == Some(all),
                    step == zone_step(),
                    try_map(all.take(done as int), step) == Ok::<Seq<DnsZoneView>, Error>(
                        zones.deep_view(),
                    ),
                decreases rows.len() - done,
            {
                proof {
                    lemma_try_map_step(all, step, done as int);
                    assert(all[done as int] == rows@[done as int].deep_view());
                }
                match zone_from_row(&rows[done]) {
                    Err(error) => {
                        proof {
                            lemma_try_map_fails(all, step, done + 1);
                        }
                        return Err(error);
                    },
                    Ok(zone) => {
                        let ghost before = zones.deep_view();
                        zones.push(zone);
                        proof {
                            assert(zones.deep_view() =~= before.push(zone.deep_view()));
                        }
                    },
                }
                done = done + 1;
            }
            proof {
                assert(all.take(done as int) =~= all);
            }
            Ok(zones)
        },
    }
}

impl RackhostClient<Authed> {
    /// The request that fetches the list of zones.
    pub fn dns_zones_request(&self) -> (request: Result<Request, Error>)
        ensures
            result_view(request) == page_request_of(DNS_ZONE_PATH@),
    {
        page_request(DNS_ZONE_PATH)
    }

    /// The zones listed on the page `body`, one for each row of the list
    /// and in the order in which the parser yields the rows. A row without the
    /// expected link fails the whole listing. A page of more than
    /// [`PAGE_LIMIT`](crate::html::PAGE_LIMIT) bytes is refused unread.
    pub fn get_dns_zones(&self, body: &str) -> (zones: Result<Vec<DnsZone>, Error>)
        ensures
            result_view(zones) == on_page(body@, zones_of(zone_rows(body@))),
    {
        if !check_page_fits(body) {
            return Err(Error::PageTooLong);
        }
        let cells: Vec<&str> = vec![ZONE_LINK];
        let attrs: Vec<&str> = vec![LINK_TARGET];
        proof {
            assert(cells.deep_view() =~= seq![ZONE_LINK@]);
            assert(attrs.deep_view() =~= seq![LINK_TARGET@]);
        }
        let found = find_rows(body, ZONE_ROWS, &cells, &attrs);
        zones_from_rows(&found)
    }
}

} // verus!
