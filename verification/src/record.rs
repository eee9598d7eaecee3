//! The records of a zone: their values, how the console lists them, and how
//! a record is submitted to it.

use crate::auth::Authed;
use crate::base::{page_request, page_request_of, RackhostClient, BASE_URL};
use crate::csrf::CSRF_FIELD;
use crate::error::Error;
use crate::html::{
    attr_at, check_page_fits, find_in_fragment, find_rows, first_cell, found_in_fragment,
    found_rows, on_page, page_fits, Element, ElementView, Row, RowView,
};
use crate::json::{json_leaves, read_json, JsonKey, JsonKeyView, JsonLeaf, JsonLeafView};
use crate::outcome::{
    lemma_try_map_fails, lemma_try_map_result, lemma_try_map_step, result_view, try_map,
};
use crate::request::{
    check_url_fits, join_url, join_url_with_query, joined_url, joined_url_with_query, url_fits,
    Method, Request, RequestView,
};
use crate::seal::Sealed;
use crate::text::{
    decimal_digits, first_segment, first_segment_of, last_segment, last_segment_of, parse_u32,
    parsed_u32, u32_to_string,
};
use crate::zone::{DnsZone, DnsZoneView, LINK_TARGET};
use vstd::prelude::*;
use vstd::string::*;

verus! {

/// The identity of a record that the console knows: the number it gave it.
#[derive(Debug, Clone)]
pub struct HasId(pub u32);

/// The identity of a record that the console does not know yet.
#[derive(Debug, Clone)]
pub struct NoId;

/// The two states of a record's identity. No type outside this crate has it.
pub trait IdState: Sealed {
    /// The number that the console gave the record, where it gave one.
    spec fn remote_id(&self) -> Option<u32>;
}

impl Sealed for HasId {

}

impl Sealed for NoId {

}

impl IdState for HasId {
    open spec fn remote_id(&self) -> Option<u32> {
        Some(self.0)
    }
}

impl IdState for NoId {
    open spec fn remote_id(&self) -> Option<u32> {
        None
    }
}

impl HasId {
    /// The number in decimal notation, as it stands in the console's addresses.
    pub fn to_string(&self) -> (text: String)
        ensures
            text@ == decimal_digits(self.0 as nat),
    {
        u32_to_string(self.0)
    }
}

/// Whether `value` is one of the thirteen times to live, in seconds, that the
/// console accepts.
pub open spec fn is_valid_ttl_value(value: u32) -> bool {
    value == 300 || value == 600 || value == 900 || value == 1800 || value == 3600 || value == 7200
        || value == 14400 || value == 21600 || value == 43200 || value == 86400 || value == 172800
        || value == 432000 || value == 604800
}

/// Whether `value` is one of the times to live that the console accepts.
pub fn is_valid_ttl(value: &u32) -> (valid: bool)
    ensures
        valid == is_valid_ttl_value(*value),
{
    match *value {
        300 | 600 | 900 | 1800 | 3600 | 7200 | 14400 | 21600 | 43200 | 86400 | 172800 | 432000
        | 604800 => true,
        _ => false,
    }
}

/// The rule that a time to live obeys.
#[derive(Debug, Clone)]
pub struct IsTTL;

/// A value that the rule of a time to live refused.
#[derive(Debug, Clone, Copy, PartialEq, Eq)]
pub struct RefusedTtl {
    /// The value that was refused.
    pub item: u32,
}

impl IsTTL {
    /// Hands `item` back where it is an accepted time to live, and refuses it
    /// where it is not; the refusal holds the value that was refused.
    pub fn validate(item: u32) -> (checked: Result<u32, RefusedTtl>)
        ensures
            checked == if is_valid_ttl_value(item) {
                Ok::<u32, RefusedTtl>(item)
            } else {
                Err((RefusedTtl { item }))
            },
    {
        if is_valid_ttl(&item) {
            Ok(item)
        } else {
            Err(RefusedTtl { item })
        }
    }
}

/// A time to live, in seconds: always one of the accepted values.
#[derive(Debug, Clone, Copy, PartialEq, Eq, PartialOrd, Ord)]
pub struct TTL(u32);

impl View for TTL {
    type V = u32;

    closed spec fn view(&self) -> u32 {
        self.0
    }
}

impl TTL {
    #[verifier::type_invariant]
    spec fn accepted(self) -> bool {
        is_valid_ttl_value(self.0)
    }

    /// A time to live of `value` seconds, where the console accepts that value.
    pub fn try_new(value: u32) -> (ttl: Result<TTL, Error>)
        ensures
            is_valid_ttl_value(value) <==> ttl is Ok,
            ttl matches Ok(made) ==> made@ == value,
            ttl matches Err(error) ==> error == Error::InvalidTtl,
    {
        if is_valid_ttl(&value) {
            Ok(TTL(value))
        } else {
            Err(Error::InvalidTtl)
        }
    }

    /// The number of seconds.
    pub fn into_inner(self) -> (value: u32)
        ensures
            value == self@,
            is_valid_ttl_value(value),
    {
        proof {
            use_type_invariant(&self);
        }
        self.0
    }

    /// The number of seconds in decimal notation.
    pub fn to_string(&self) -> (text: String)
        ensures
            text@ == decimal_digits(self@ as nat),
    {
        u32_to_string(self.0)
    }

    /// Two times to live of the same number of seconds are the same.
    pub proof fn lemma_same_value(self, other: TTL)
        requires
            self@ == other@,
        ensures
            self == other,
    {
    }
}

/// The types of record that the console manages.
#[derive(Debug, Copy, Clone, Ord, PartialOrd, Eq, PartialEq)]
pub enum RecordType {
    A,
    Aaaa,
    Cname,
    Txt,
}

impl RecordType {
    /// The name of the type, as the console shows and takes it.
    pub open spec fn label(self) -> Seq<char> {
        match self {
            RecordType::A => "A"@,
            RecordType::Aaaa => "AAAA"@,
            RecordType::Cname => "CNAME"@,
            RecordType::Txt => "TXT"@,
        }
    }

    /// The type that `label` names, where it names one.
    pub open spec fn labelled(label: Seq<char>) -> Option<RecordType> {
        if label == "A"@ {
            Some(RecordType::A)
        } else if label == "AAAA"@ {
            Some(RecordType::Aaaa)
        } else if label == "CNAME"@ {
            Some(RecordType::Cname)
        } else if label == "TXT"@ {
            Some(RecordType::Txt)
        } else {
            None
        }
    }

    /// The type that `label` names. A label outside the vocabulary is refused.
    pub fn from_str(label: &str) -> (record_type: Result<RecordType, Error>)
        ensures
            record_type == match RecordType::labelled(label@) {
                Some(named) => Ok::<RecordType, Error>(named),
                None => Err(Error::InvalidRecordType),
            },
    {
        if label.eq("A") {
            Ok(RecordType::A)
        } else if label.eq("AAAA") {
            Ok(RecordType::Aaaa)
        } else if label.eq("CNAME") {
            Ok(RecordType::Cname)
        } else if label.eq("TXT") {
            Ok(RecordType::Txt)
        } else {
            Err(Error::InvalidRecordType)
        }
    }

    /// The name of the type.
    pub fn as_str(&self) -> (label: &'static str)
        ensures
            label@ == self.label(),
    {
        match self {
            RecordType::A => "A",
            RecordType::Aaaa => "AAAA",
            RecordType::Cname => "CNAME",
            RecordType::Txt => "TXT",
        }
    }

    /// The name of the type.
    pub fn to_string(&self) -> (label: String)
        ensures
            label@ == self.label(),
    {
        String::from_str(self.as_str())
    }

    /// Every type is found again under its own name.
    pub proof fn lemma_label_round_trip(self)
        ensures
            RecordType::labelled(self.label()) == Some(self),
    {
        reveal_strlit("A");
        reveal_strlit("AAAA");
        reveal_strlit("CNAME");
        reveal_strlit("TXT");
        assert("A"@.len() == 1 && "AAAA"@.len() == 4 && "CNAME"@.len() == 5 && "TXT"@.len() == 3);
    }
}

/// One record of a zone. `I` says whether the console knows it: a record that
/// is to be created has no identity, a listed record has the console's number.
#[derive(Debug, Clone)]
pub struct DnsRecord<I: IdState> {
    /// The full name that the record is for.
    pub host_name: String,
    pub record_type: RecordType,
    /// What the name is to resolve to.
    pub target: String,
    pub ttl: TTL,
    /// The record's identity.
    pub id: I,
}

/// The mathematical value of a [`DnsRecord`] in either state.
pub struct DnsRecordView {
    pub host_name: Seq<char>,
    pub record_type: RecordType,
    pub target: Seq<char>,
    pub ttl: u32,
    pub id: Option<u32>,
}

impl<I: IdState> DeepView for DnsRecord<I> {
    type V = DnsRecordView;

    open spec fn deep_view(&self) -> DnsRecordView {
        DnsRecordView {
            host_name: self.host_name@,
            record_type: self.record_type,
            target: self.target@,
            ttl: self.ttl@,
            id: self.id.remote_id(),
        }
    }
}

/// `record` without its identity.
pub open spec fn without_id(record: DnsRecordView) -> DnsRecordView {
    DnsRecordView { id: None, ..record }
}

impl DnsRecord<NoId> {
    /// A record that the console does not know yet.
    pub fn new(host_name: String, record_type: RecordType, target: String, ttl: TTL) -> (record:
        Self)
        ensures
            record.deep_view() == (DnsRecordView {
                host_name: host_name@,
                record_type,
                target: target@,
                ttl: ttl@,
                id: None,
            }),
    {
        DnsRecord { host_name, record_type, target, ttl, id: NoId }
    }
}

impl DnsRecord<HasId> {
    /// The number under which the console knows the record.
    pub fn id(&self) -> (id: u32)
        ensures
            self.deep_view().id == Some(id),
    {
        self.id.0
    }
}

impl DnsRecord<HasId> {
    /// A copy of the record without its identity: the record as it would be
    /// created.
    pub fn without_id(&self) -> (stripped: DnsRecord<NoId>)
        ensures
            stripped.deep_view() == without_id(self.deep_view()),
    {
        DnsRecord {
            host_name: self.host_name.clone(),
            record_type: self.record_type,
            target: self.target.clone(),
            ttl: self.ttl,
            id: NoId,
        }
    }
}

impl From<DnsRecord<HasId>> for DnsRecord<NoId> {
    /// Strips the identity: what is left is the record as it would be created.
    fn from(record: DnsRecord<HasId>) -> (stripped: Self)
        ensures
            stripped.deep_view() == without_id(record.deep_view()),
    {
        DnsRecord {
            host_name: record.host_name,
            record_type: record.record_type,
            target: record.target,
            ttl: record.ttl,
            id: NoId,
        }
    }
}

impl vstd::std_specs::convert::FromSpecImpl<DnsRecord<HasId>> for DnsRecord<NoId> {
    open spec fn obeys_from_spec() -> bool {
        true
    }

    open spec fn from_spec(record: DnsRecord<HasId>) -> Self {
        DnsRecord {
            host_name: record.host_name,
            record_type: record.record_type,
            target: record.target,
            ttl: record.ttl,
            id: NoId,
        }
    }
}

/// A name with the value that it resolves to.
#[derive(Debug, Clone)]
pub struct Record {
    pub name: String,
    pub value: String,
}

/// Finds the row of each record in the listing of a zone.
pub const RECORD_ROWS: &'static str = "#dns-record-grid-0 table tbody tr";

/// Finds, below a row, the cell with the record's name.
pub const NAME_CELL: &'static str = "td:nth-child(1)";

/// Finds, below a row, the cell with the record's type.
pub const TYPE_CELL: &'static str = "td:nth-child(2)";

/// Finds, below a row, the cell with the record's target.
pub const TARGET_CELL: &'static str = "td:nth-child(3)";

/// Finds, below a row, the cell with the record's time to live.
pub const TTL_CELL: &'static str = "td:nth-child(4)";

/// Finds, below a row, the link that leads to the record's form.
pub const EDIT_LINK: &'static str = "td:nth-child(5) a";

/// The path under which the records of a zone are listed; the zone's
/// identifier follows.
pub const ZONE_RECORDS_PATH: &'static str = "dnsZone/";

/// The selectors of the five cells, in the order in which a row is read.
pub open spec fn record_cells() -> Seq<Seq<char>> {
    seq![NAME_CELL@, TYPE_CELL@, TARGET_CELL@, TTL_CELL@, EDIT_LINK@]
}

/// The text of the cell at place `index` of `row`: the cell must be there
/// and hold a text.
pub open spec fn cell_text_of(row: RowView, index: int) -> Result<Seq<char>, Error> {
    match first_cell(row, index) {
        None => Err(Error::MissingElement),
        Some(cell) => match cell.text {
            None => Err(Error::MissingText),
            Some(text) => Ok(text),
        },
    }
}

/// The target of the link at place `index` of `row`: the link must be there
/// and have a target.
pub open spec fn cell_link_of(row: RowView, index: int) -> Result<Seq<char>, Error> {
    match first_cell(row, index) {
        None => Err(Error::MissingElement),
        Some(cell) => match attr_at(cell, 0) {
            None => Err(Error::MissingAttribute),
            Some(target) => Ok(target),
        },
    }
}

/// The record that the texts of a row stand for: the identity is the number
/// in the last segment of the link, the type is looked up in the vocabulary,
/// and the time to live must be a number that the console accepts.
pub open spec fn record_of_texts(
    host_name: Seq<char>,
    label: Seq<char>,
    target: Seq<char>,
    ttl: u32,
    link: Seq<char>,
) -> Result<DnsRecordView, Error> {
    match parsed_u32(last_segment(link, '/')) {
        None => Err(Error::InvalidNumber),
        Some(id) => match RecordType::labelled(label) {
            None => Err(Error::InvalidRecordType),
            Some(record_type) => if is_valid_ttl_value(ttl) {
                Ok(DnsRecordView { host_name, record_type, target, ttl, id: Some(id) })
            } else {
                Err(Error::InvalidTtl)
            },
        },
    }
}

/// The record that a row of the listing stands for. The cells are read in
/// their order, and the first that fails decides the error.
pub open spec fn record_of_row(row: RowView) -> Result<DnsRecordView, Error> {
    match cell_text_of(row, 0) {
        Err(error) => Err(error),
        Ok(host_name) => match cell_text_of(row, 1) {
            Err(error) => Err(error),
            Ok(label) => match cell_text_of(row, 2) {
                Err(error) => Err(error),
                Ok(target) => match cell_text_of(row, 3) {
                    Err(error) => Err(error),
                    Ok(ttl_text) => match parsed_u32(ttl_text) {
                        None => Err(Error::InvalidNumber),
                        Some(ttl) => match cell_link_of(row, 4) {
                            Err(error) => Err(error),
                            Ok(link) => record_of_texts(host_name, label, target, ttl, link),
                        },
                    },
                },
            },
        },
    }
}

/// [`record_of_row`] as a step over rows.
pub open spec fn record_step() -> spec_fn(RowView) -> Result<DnsRecordView, Error> {
    |row: RowView| record_of_row(row)
}

/// The records that the rows found stand for, in the order of the rows; the
/// first row that is refused fails the whole listing.
pub open spec fn records_of(found: Option<Seq<RowView>>) -> Result<Seq<DnsRecordView>, Error> {
    match found {
        None => Err(Error::InvalidSelector),
        Some(rows) => try_map(rows, record_step()),
    }
}

/// A listing that succeeds holds one record for each row, in the order of
/// the rows, each with a number from the console and a time to live that the
/// console accepts.
pub proof fn lemma_listed_records_are_valid(rows: Seq<RowView>)
    requires
        records_of(Some(rows)) is Ok,
    ensures
        records_of(Some(rows))->Ok_0.len() == rows.len(),
        forall|i: int|
            0 <= i < rows.len() ==> {
                &&& record_of_row(rows[i]) == Ok::<DnsRecordView, Error>(
                    #[trigger] records_of(Some(rows))->Ok_0[i],
                )
                &&& records_of(Some(rows))->Ok_0[i].id is Some
                &&& is_valid_ttl_value(records_of(Some(rows))->Ok_0[i].ttl)
            },
{
    lemma_try_map_result(rows, record_step());
    let records = records_of(Some(rows))->Ok_0;
    assert forall|i: int| 0 <= i < rows.len() implies {
        &&& record_of_row(rows[i]) == Ok::<DnsRecordView, Error>(#[trigger] records[i])
        &&& records[i].id is Some
        &&& is_valid_ttl_value(records[i].ttl)
    } by {
        assert(record_step()(rows[i]) == Ok::<DnsRecordView, Error>(records[i]));
    }
}

/// What the page `body` holds of record rows.
pub open spec fn record_rows(body: Seq<char>) -> Option<Seq<RowView>> {
    found_rows(body, RECORD_ROWS@, record_cells(), seq![LINK_TARGET@])
}

/// The text of the cell at place `index` of `row`.
pub fn cell_text(row: &Row, index: usize) -> (text: Result<&str, Error>)
    ensures
        result_view(text) == cell_text_of(row.deep_view(), index as int),
{
    match row.first_cell(index) {
        None => Err(Error::MissingElement),
        Some(cell) => match cell.first_text() {
            None => Err(Error::MissingText),
            Some(text) => Ok(text),
        },
    }
}

/// The target of the link at place `index` of `row`.
pub fn cell_link(row: &Row, index: usize) -> (target: Result<&str, Error>)
    ensures
        result_view(target) == cell_link_of(row.deep_view(), index as int),
{
    match row.first_cell(index) {
        None => Err(Error::MissingElement),
        Some(cell) => match cell.attr(0) {
            None => Err(Error::MissingAttribute),
            Some(target) => Ok(target),
        },
    }
}

/// The record that one row of the listing stands for.
pub fn record_from_row(row: &Row) -> (record: Result<DnsRecord<HasId>, Error>)
    ensures
        result_view(record) == record_of_row(row.deep_view()),
{
    let host_name = cell_text(row, 0)?;
    let label = cell_text(row, 1)?;
    let target = cell_text(row, 2)?;
    let ttl_text = cell_text(row, 3)?;
    let ttl = match parse_u32(ttl_text) {
        Some(ttl) => ttl,
        None => { return Err(Error::InvalidNumber); },
    };
    let link = cell_link(row, 4)?;
    let id = match parse_u32(last_segment_of(link, '/')) {
        Some(id) => id,
        None => { return Err(Error::InvalidNumber); },
    };
    let record_type = RecordType::from_str(label)?;
    let ttl = TTL::try_new(ttl)?;
    Ok(
        DnsRecord {
            host_name: String::from_str(host_name),
            record_type,
            target: String::from_str(target),
            ttl,
            id: HasId(id),
        },
    )
}

/// The records that the rows found on a page stand for.
pub fn records_from_rows(found: &Option<Vec<Row>>) -> (records: Result<
    Vec<DnsRecord<HasId>>,
    Error,
>)
    ensures
        result_view(records) == records_of(found.deep_view()),
{
    match found {
        None => Err(Error::InvalidSelector),
        Some(rows) => {
            let ghost step = record_step();
            let ghost all = rows.deep_view();
            let mut records: Vec<DnsRecord<HasId>> = Vec::new();
            let mut done: usize = 0;
            proof {
                assert(all.take(0) =~= Seq::<RowView>::empty());
                assert(records.deep_view() =~= Seq::<DnsRecordView>::empty());
            }
            while done < rows.len()
                invariant
                    done <= rows.len(),
                    all == rows.deep_view(),
                    found.deep_view() == Some(all),
                    step == record_step(),
                    try_map(all.take(done as int), step) == Ok::<Seq<DnsRecordView>, Error>(
                        records.deep_view(),
                    ),
                decreases rows.len() - done,
            {
                proof {
                    lemma_try_map_step(all, step, done as int);
                    assert(all[done as int] == rows@[done as int].deep_view());
                }
                match record_from_row(&rows[done]) {
                    Err(error) => {
                        proof {
                            lemma_try_map_fails(all, step, done + 1);
                        }
                        return Err(error);
                    },
                    Ok(record) => {
                        let ghost before = records.deep_view();
                        records.push(record);
                        proof {
                            assert(records.deep_view() =~= before.push(record.deep_view()));
                        }
                    },
                }
                done = done + 1;
            }
            proof {
                assert(all.take(done as int) =~= all);
            }
            Ok(records)
        },
    }
}

/// The path to which a new record is submitted.
pub const CREATE_PATH: &'static str = "dnsRecord/createOther";

/// What stands in the query of that address in front of the zone's identifier.
pub const CREATE_QUERY: &'static str = "dnsZoneId=";

/// The path to which a change is submitted; the record's number follows.
pub const UPDATE_PATH: &'static str = "dnsRecord/updateOther/";

/// The form field for the first label of the record's name.
pub const NAME_FIELD: &'static str = "DnsRecordForm[name]";

/// The form field for the record's type.
pub const TYPE_FIELD: &'static str = "DnsRecordForm[type]";

/// The form field for the record's target.
pub const TARGET_FIELD: &'static str = "DnsRecordForm[target]";

/// The form field for the record's time to live.
pub const TTL_FIELD: &'static str = "DnsRecordForm[ttl]";

/// The header that marks a submission as made from a script.
pub const SCRIPT_HEADER: &'static str = "X-Requested-With";

/// The value of that header.
pub const SCRIPT_HEADER_VALUE: &'static str = "XMLHttpRequest";

/// The member of the console's answer that holds its message.
pub const MESSAGE_KEY: &'static str = "message";

/// Finds, in the message, the mark of a change that was accepted.
pub const SUCCESS_MARKER: &'static str = "div.alert-success";

/// The fields with which a record is submitted: the token, the first label
/// of the name, the name of the type, the target and the time to live in
/// decimal notation. The identity has no part in them.
pub open spec fn record_form(record: DnsRecordView, token: Seq<char>) -> Seq<
    (Seq<char>, Seq<char>),
> {
    seq![
        (CSRF_FIELD@, token),
        (NAME_FIELD@, first_segment(record.host_name, '.')),
        (TYPE_FIELD@, record.record_type.label()),
        (TARGET_FIELD@, record.target),
        (TTL_FIELD@, decimal_digits(record.ttl as nat)),
    ]
}

/// The request that submits `record` to `url`.
pub open spec fn submission_of(url: Seq<char>, record: DnsRecordView, token: Seq<char>)
    -> RequestView {
    RequestView {
        method: Method::Post,
        url,
        headers: seq![(SCRIPT_HEADER@, SCRIPT_HEADER_VALUE@)],
        form: record_form(record, token),
    }
}

/// The query that names the zone in which a record is created.
pub open spec fn create_query(zone: DnsZoneView) -> Seq<char> {
    CREATE_QUERY@ + zone.id
}

/// The request that creates `record` in `zone`, where the address can be formed.
pub open spec fn create_request_of(zone: DnsZoneView, record: DnsRecordView, token: Seq<char>)
    -> Result<RequestView, Error> {
    if !url_fits(BASE_URL@, CREATE_PATH@, create_query(zone)) {
        Err(Error::InvalidUrl)
    } else {
        match joined_url_with_query(BASE_URL@, CREATE_PATH@, create_query(zone)) {
            None => Err(Error::InvalidUrl),
            Some(url) => Ok(submission_of(url, record, token)),
        }
    }
}

/// The path to which a change of the record with the number `id` is submitted.
pub open spec fn update_path(id: u32) -> Seq<char> {
    UPDATE_PATH@ + decimal_digits(id as nat)
}

/// The request that changes the record with the number `id` to `record`,
/// where the address can be formed: the record is submitted as it would be
/// created, to the address that carries the number.
pub open spec fn update_request_of(id: u32, record: DnsRecordView, token: Seq<char>) -> Result<
    RequestView,
    Error,
> {
    match joined_url(BASE_URL@, update_path(id)) {
        None => Err(Error::InvalidUrl),
        Some(url) => Ok(submission_of(url, without_id(record), token)),
    }
}

/// The message in what was read of the console's answer.
pub open spec fn message_of(leaves: Option<Seq<JsonLeafView>>) -> Result<Seq<char>, Error> {
    match leaves {
        None => Err(Error::InvalidJson),
        Some(leaves) => if leaves.len() == 0 {
            Err(Error::MissingField)
        } else {
            match leaves[0].text {
                None => Err(Error::MissingField),
                Some(message) => Ok(message),
            }
        },
    }
}

/// Whether the marks found in a message confirm the change: one mark is enough,
/// none means that the console turned the change down.
pub open spec fn confirmation_of(marks: Option<Seq<ElementView>>) -> Result<(), Error> {
    match marks {
        None => Err(Error::InvalidSelector),
        Some(marks) => if marks.len() > 0 {
            Ok(())
        } else {
            Err(Error::Rejected)
        },
    }
}

/// The paths that are read in the console's answer.
pub open spec fn message_paths() -> Seq<Seq<JsonKeyView>> {
    seq![seq![JsonKeyView::Name(MESSAGE_KEY@)]]
}

/// The outcome of a submission that the console answered with `body`.
pub open spec fn submission_result_of(body: Seq<char>) -> Result<(), Error> {
    match message_of(json_leaves(body, message_paths())) {
        Err(error) => Err(error),
        Ok(message) => on_page(
            message,
            confirmation_of(found_in_fragment(message, SUCCESS_MARKER@, Seq::empty())),
        ),
    }
}

/// Where the console's answer holds a message that can be searched for the
/// mark of success, the submission succeeds exactly where the mark is found
/// in it, and is reported as turned down where it is not. Nothing but the
/// body of the answer has a say.
pub proof fn lemma_outcome_follows_the_mark(
    body: Seq<char>,
    message: Seq<char>,
    marks: Seq<ElementView>,
)
    requires
        message_of(json_leaves(body, message_paths())) == Ok::<Seq<char>, Error>(message),
        page_fits(message),
        found_in_fragment(message, SUCCESS_MARKER@, Seq::empty()) == Some(marks),
    ensures
        marks.len() > 0 ==> submission_result_of(body) == Ok::<(), Error>(()),
        marks.len() == 0 ==> submission_result_of(body) == Err::<(), Error>(Error::Rejected),
        Error::Rejected.spec_kind() == crate::error::ErrorKind::Rejection,
{
}

/// The message in what was read of the console's answer.
pub fn message_from(leaves: &Option<Vec<JsonLeaf>>) -> (message: Result<&str, Error>)
    ensures
        result_view(message) == message_of(leaves.deep_view()),
{
    match leaves {
        None => Err(Error::InvalidJson),
        Some(leaves) => {
            if leaves.len() == 0 {
                Err(Error::MissingField)
            } else {
                match &leaves[0].text {
                    None => Err(Error::MissingField),
                    Some(message) => Ok(message.as_str()),
                }
            }
        },
    }
}

/// Whether the marks found in a message confirm the change.
pub fn confirmation_from(marks: &Option<Vec<Element>>) -> (outcome: Result<(), Error>)
    ensures
        outcome == confirmation_of(marks.deep_view()),
{
    match marks {
        None => Err(Error::InvalidSelector),
        Some(marks) => {
            if marks.len() > 0 {
                Ok(())
            } else {
                Err(Error::Rejected)
            }
        },
    }
}

/// The outcome of a submission that the console answered with `body`: the
/// answer must be JSON with a message, and the message must hold the mark of
/// success. The status of the answer has no say. A message of more than
/// [`PAGE_LIMIT`](crate::html::PAGE_LIMIT) bytes is refused unread.
pub fn submission_result(body: &str) -> (outcome: Result<(), Error>)
    ensures
        outcome == submission_result_of(body@),
{
    let paths: Vec<Vec<JsonKey>> = vec![vec![JsonKey::Name(MESSAGE_KEY)]];
    proof {
        assert(paths@[0].deep_view() =~= seq![JsonKeyView::Name(MESSAGE_KEY@)]);
        assert(paths.deep_view() =~= message_paths());
    }
    let leaves = read_json(body, &paths);
    let message = message_from(&leaves)?;
    if !check_page_fits(message) {
        return Err(Error::PageTooLong);
    }
    let attrs: Vec<&str> = Vec::new();
    proof {
        assert(attrs.deep_view() =~= Seq::<Seq<char>>::empty());
    }
    let marks = find_in_fragment(message, SUCCESS_MARKER, &attrs);
    confirmation_from(&marks)
}

impl RackhostClient<Authed> {
    /// The request that fetches the listing of the records of `zone`.
    pub fn dns_records_request(&self, zone: &DnsZone) -> (request: Result<Request, Error>)
        ensures
            result_view(request) == page_request_of(ZONE_RECORDS_PATH@ + zone.id@),
    {
        let mut reference = String::from_str(ZONE_RECORDS_PATH);
        reference.append(zone.id.as_str());
        page_request(reference.as_str())
    }

    /// The records listed on the page `body`, in the order in which the
    /// parser yields the rows, each with the number that the console gave it. A row that
    /// does not have the expected form fails the whole listing. A page of
    /// more than [`PAGE_LIMIT`](crate::html::PAGE_LIMIT) bytes is refused unread.
    pub fn get_dns_records(&self, body: &str) -> (records: Result<Vec<DnsRecord<HasId>>, Error>)
        ensures
            result_view(records) == on_page(body@, records_of(record_rows(body@))),
    {
        if !check_page_fits(body) {
            return Err(Error::PageTooLong);
        }
        let cells: Vec<&str> = vec![NAME_CELL, TYPE_CELL, TARGET_CELL, TTL_CELL, EDIT_LINK];
        let attrs: Vec<&str> = vec![LINK_TARGET];
        proof {
            assert(cells.deep_view() =~= record_cells());
            assert(attrs.deep_view() =~= seq![LINK_TARGET@]);
        }
        let found = find_rows(body, RECORD_ROWS, &cells, &attrs);
        records_from_rows(&found)
    }

    /// The request that submits `record` to `url`, with the token of a login
    /// page that was fetched for it. Creating and changing a record both end here.
    pub fn create_or_update_dns_record(
        &self,
        url: String,
        record: &DnsRecord<NoId>,
        csrf_token: String,
    ) -> (request: Request)
        ensures
            request.deep_view() == submission_of(url@, record.deep_view(), csrf_token@),
    {
        let mut form: Vec<(String, String)> = Vec::new();
        form.push((String::from_str(CSRF_FIELD), csrf_token));
        form.push(
            (
                String::from_str(NAME_FIELD),
                String::from_str(first_segment_of(record.host_name.as_str(), '.')),
            ),
        );
        form.push((String::from_str(TYPE_FIELD), record.record_type.to_string()));
        form.push((String::from_str(TARGET_FIELD), record.target.clone()));
        form.push((String::from_str(TTL_FIELD), record.ttl.to_string()));
        let mut headers: Vec<(String, String)> = Vec::new();
        headers.push((String::from_str(SCRIPT_HEADER), String::from_str(SCRIPT_HEADER_VALUE)));
        let request = Request { method: Method::Post, url, headers, form };
        proof {
            assert(request.form.deep_view() =~= record_form(record.deep_view(), csrf_token@));
            assert(request.headers.deep_view() =~= seq![(SCRIPT_HEADER@, SCRIPT_HEADER_VALUE@)]);
        }
        request
    }

    /// The request that creates `record` in `zone`.
    pub fn create_dns_record_request(
        &self,
        zone: &DnsZone,
        record: &DnsRecord<NoId>,
        csrf_token: String,
    ) -> (request: Result<Request, Error>)
        ensures
            result_view(request) == create_request_of(
                zone.deep_view(),
                record.deep_view(),
                csrf_token@,
            ),
    {
        let mut query = String::from_str(CREATE_QUERY);
        query.append(zone.id.as_str());
        if !check_url_fits(BASE_URL, CREATE_PATH, query.as_str()) {
            return Err(Error::InvalidUrl);
        }
        match join_url_with_query(BASE_URL, CREATE_PATH, query.as_str()) {
            None => Err(Error::InvalidUrl),
            Some(url) => Ok(self.create_or_update_dns_record(url, record, csrf_token)),
        }
    }

    /// The request that changes the record that the console knows under the
    /// number of `record` to what `record` holds now.
    pub fn update_dns_record_request(&self, record: &DnsRecord<HasId>, csrf_token: String) -> (request:
        Result<Request, Error>)
        ensures
            result_view(request) == update_request_of(
                record.id.0,
                record.deep_view(),
                csrf_token@,
            ),
    {
        let mut reference = String::from_str(UPDATE_PATH);
        let id = record.id.to_string();
        reference.append(id.as_str());
        match join_url(BASE_URL, reference.as_str()) {
            None => Err(Error::InvalidUrl),
            Some(url) => {
                let stripped = record.without_id();
                Ok(self.create_or_update_dns_record(url, &stripped, csrf_token))
            },
        }
    }

    /// Whether the console, in its answer `response`, confirmed that it
    /// created the record.
    pub fn create_dns_record(&self, response: &str) -> (outcome: Result<(), Error>)
        ensures
            outcome == submission_result_of(response@),
    {
        submission_result(response)
    }

    /// Whether the console, in its answer `response`, confirmed that it
    /// changed the record.
    pub fn update_dns_record(&self, response: &str) -> (outcome: Result<(), Error>)
        ensures
            outcome == submission_result_of(response@),
    {
        submission_result(response)
    }
}

/// A record that is changed is submitted with the fields with which the same
/// record, stripped of its identity, would be created: field for field the
/// same names and values, under the same method and headers. Only the
/// address differs, which carries the record's number.
pub proof fn lemma_update_submits_as_create(
    record: DnsRecord<HasId>,
    zone: DnsZone,
    token: Seq<char>,
)
    ensures
        match (
            update_request_of(record.id.0, record.deep_view(), token),
            create_request_of(
                zone.deep_view(),
                <DnsRecord<NoId> as vstd::std_specs::convert::FromSpec<
                    DnsRecord<HasId>,
                >>::from_spec(record).deep_view(),
                token,
            ),
        ) {
            (Ok(update), Ok(create)) => {
                &&& update.form == create.form
                &&& update.headers == create.headers
                &&& update.method == create.method
            },
            _ => true,
        },
{
}

} // verus!
