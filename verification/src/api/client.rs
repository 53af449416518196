//! What the Cloudflare API client decides: the addresses it calls, how it
//! authenticates, how it reads each answer, and how it walks the pages of a
//! record listing. Sending the requests is left to the caller.
use vstd::prelude::*;
use crate::api::error::CloudflareError;
use crate::api::models::{
    spec_record_from_response, ApiError, ApiResponse, DnsRecord, DnsRecordResponse, ZoneResponse,
};
use crate::utils::text::{decimal, int_decimal, push_decimal, push_int};

verus! {

/// The number of records asked for per page of a listing.
pub const RECORDS_PER_PAGE: u64 = 100;

/// The address of the Cloudflare API v4.
pub open spec fn default_base_url() -> Seq<char> {
    "https://api.cloudflare.com/client/v4"@
}

/// Where and as whom the client talks to the API.
pub struct ApiEndpoint {
    pub api_token: String,
    pub zone_id: String,
    pub base_url: String,
}

/// The result of one HTTP exchange, as the sender hands it over.
pub enum HttpOutcome<T> {
    /// The request could not be sent, or its answer not read; the client's message.
    Failed(String),
    /// The server answered with a status that is not a success, and this body.
    Status { status: u16, body: String },
    /// The server answered with a success status, and this API envelope.
    Answer(ApiResponse<T>),
}

impl ApiEndpoint {
    /// An endpoint on the Cloudflare API for the given token and zone.
    pub fn new(api_token: String, zone_id: String) -> (e: Self)
        ensures
            e.api_token == api_token,
            e.zone_id == zone_id,
            e.base_url@ == default_base_url(),
    {
        ApiEndpoint {
            api_token,
            zone_id,
            base_url: String::from_str("https://api.cloudflare.com/client/v4"),
        }
    }

    /// An endpoint with another base address (a test server, for example).
    pub fn with_base_url(api_token: String, zone_id: String, base_url: String) -> (e: Self)
        ensures
            e.api_token == api_token,
            e.zone_id == zone_id,
            e.base_url == base_url,
    {
        ApiEndpoint { api_token, zone_id, base_url }
    }

    /// The address of the zone: `{base}/zones/{zone}`.
    pub fn zone_url(&self) -> (u: String)
        ensures
            u@ == self.base_url@ + "/zones/"@ + self.zone_id@,
    {
        let mut u = self.base_url.clone();
        u.append("/zones/");
        u.append(self.zone_id.as_str());
        u
    }

    /// The address of the zone's records: `{base}/zones/{zone}/dns_records`.
    pub fn records_url(&self) -> (u: String)
        ensures
            u@ == self.base_url@ + "/zones/"@ + self.zone_id@ + "/dns_records"@,
    {
        let mut u = self.zone_url();
        u.append("/dns_records");
        u
    }

    /// The address of one page of the zone's records, 100 records per page.
    pub fn records_page_url(&self, page: u64) -> (u: String)
        ensures
            u@ == self.base_url@ + "/zones/"@ + self.zone_id@ + "/dns_records"@ + "?page="@
                + decimal(page as nat) + "&per_page="@ + decimal(RECORDS_PER_PAGE as nat),
    {
        let mut u = self.records_url();
        u.append("?page=");
        push_decimal(&mut u, page);
        u.append("&per_page=");
        push_decimal(&mut u, RECORDS_PER_PAGE);
        u
    }

    /// The address of one record: `{base}/zones/{zone}/dns_records/{id}`.
    pub fn record_url(&self, record_id: &str) -> (u: String)
        ensures
            u@ == self.base_url@ + "/zones/"@ + self.zone_id@ + "/dns_records"@ + "/"@
                + record_id@,
    {
        let mut u = self.records_url();
        u.append("/");
        u.append(record_id);
        u
    }

    /// The value of the Authorization header: `Bearer {token}`.
    pub fn authorization(&self) -> (h: String)
        ensures
            h@ == "Bearer "@ + self.api_token@,
    {
        let mut h = String::from_str("Bearer ");
        h.append(self.api_token.as_str());
        h
    }
}

/// An HTTP status of the success class, 200 to 299.
pub fn is_success_status(status: u16) -> (r: bool)
    ensures
        r == (200 <= status <= 299),
{
    200 <= status && status <= 299
}

/// One API error written out: `{message} (code: {code})`.
pub open spec fn api_error_line(e: ApiError) -> Seq<char> {
    e.message@ + " (code: "@ + int_decimal(e.code as int) + ")"@
}

/// The API errors of an answer, each written out, in order.
pub fn api_error_lines(errors: &Vec<ApiError>) -> (lines: Vec<String>)
    ensures
        lines@.len() == errors@.len(),
        forall|i: int| 0 <= i < errors@.len() ==> #[trigger] lines@[i]@ == api_error_line(errors@[i]),
{
    let mut lines: Vec<String> = Vec::new();
    let mut i: usize = 0;
    while i < errors.len()
        invariant
            i <= errors@.len(),
            lines@.len() == i,
            forall|k: int| 0 <= k < i ==> #[trigger] lines@[k]@ == api_error_line(errors@[k]),
        decreases errors@.len() - i,
    {
        let e = &errors[i];
        let mut s = e.message.clone();
        s.append(" (code: ");
        push_int(&mut s, e.code);
        s.append(")");
        lines.push(s);
        i = i + 1;
    }
    lines
}

/// The error that a refused answer stands for: its errors, written out.
pub open spec fn refusal_of<T>(r: ApiResponse<T>, e: CloudflareError) -> bool {
    match e {
        CloudflareError::ApiErrors(lines) => lines@.len() == r.errors@.len() && forall|i: int|
            0 <= i < r.errors@.len() ==> #[trigger] lines@[i]@ == api_error_line(r.errors@[i]),
        _ => false,
    }
}

/// What the answer to a zone lookup gives: the zone's name when the server
/// answered with one; the zone ID itself in every other case (the request
/// failed, the server refused, or the answer holds no zone). It is never an
/// error.
pub fn zone_name_from(outcome: HttpOutcome<ZoneResponse>, zone_id: &str) -> (r: Result<
    String,
    CloudflareError,
>)
    ensures
        r matches Ok(n) && n@ == match outcome {
            HttpOutcome::Answer(a) => match a.result {
                Some(z) => z.name@,
                None => zone_id@,
            },
            _ => zone_id@,
        },
{
    match outcome {
        HttpOutcome::Answer(a) => match a.result {
            Some(z) => Ok(z.name),
            None => Ok(String::from_str(zone_id)),
        },
        _ => Ok(String::from_str(zone_id)),
    }
}

/// What the answer to a record creation or update gives: the record as
/// stored, or the error that the answer stands for.
pub fn record_from(outcome: HttpOutcome<DnsRecordResponse>) -> (r: Result<
    DnsRecord,
    CloudflareError,
>)
    ensures
        match outcome {
            HttpOutcome::Failed(m) => r matches Err(CloudflareError::RequestError(e)) && e == m,
            HttpOutcome::Status { status, body } => r matches Err(
                CloudflareError::HttpError { status: s, body: b },
            ) && s == status && b == body,
            HttpOutcome::Answer(a) => if !a.success {
                r matches Err(e) && refusal_of(a, e)
            } else {
                match a.result {
                    Some(rec) => r == Ok::<DnsRecord, CloudflareError>(
                        spec_record_from_response(rec),
                    ),
                    None => r matches Err(CloudflareError::NoResult),
                }
            },
        },
{
    match outcome {
        HttpOutcome::Failed(m) => Err(CloudflareError::RequestError(m)),
        HttpOutcome::Status { status, body } => Err(CloudflareError::HttpError { status, body }),
        HttpOutcome::Answer(a) => {
            if !a.success {
                Err(CloudflareError::ApiErrors(api_error_lines(&a.errors)))
            } else {
                match a.result {
                    Some(rec) => Ok(rec.into_record()),
                    None => Err(CloudflareError::NoResult),
                }
            }
        },
    }
}

/// What the answer to a deletion gives: nothing on success, else the error
/// that the answer stands for.
pub fn deletion_from<T>(outcome: HttpOutcome<T>) -> (r: Result<(), CloudflareError>)
    ensures
        match outcome {
            HttpOutcome::Failed(m) => r matches Err(CloudflareError::RequestError(e)) && e == m,
            HttpOutcome::Status { status, body } => r matches Err(
                CloudflareError::HttpError { status: s, body: b },
            ) && s == status && b == body,
            HttpOutcome::Answer(a) => if !a.success {
                r matches Err(e) && refusal_of(a, e)
            } else {
                r is Ok
            },
        },
{
    match outcome {
        HttpOutcome::Failed(m) => Err(CloudflareError::RequestError(m)),
        HttpOutcome::Status { status, body } => Err(CloudflareError::HttpError { status, body }),
        HttpOutcome::Answer(a) => {
            if !a.success {
                Err(CloudflareError::ApiErrors(api_error_lines(&a.errors)))
            } else {
                Ok(())
            }
        },
    }
}

/// The id of a record to update; a record without one cannot be updated.
pub fn update_record_id(record: &DnsRecord) -> (r: Result<String, CloudflareError>)
    ensures
        match record.id {
            Some(id) => r == Ok::<String, CloudflareError>(id),
            None => r matches Err(CloudflareError::MissingRecordId),
        },
{
    match &record.id {
        Some(id) => Ok(id.clone()),
        None => Err(CloudflareError::MissingRecordId),
    }
}

/// The walk through the pages of a record listing: the page to ask for next
/// and the records gathered so far.
pub struct RecordPager {
    page: u64,
    records: Vec<DnsRecord>,
}

/// What to do after a page: ask for the next one, finish with all records,
/// or fail.
pub enum PageStep {
    Fetch(u64),
    Done(Vec<DnsRecord>),
    Fail(CloudflareError),
}

/// The records that a page of returned records stands for.
pub open spec fn page_records(rs: Seq<DnsRecordResponse>) -> Seq<DnsRecord> {
    rs.map_values(|r: DnsRecordResponse| spec_record_from_response(r))
}

/// A page shorter than a full page is the last one of a listing.
pub open spec fn ends_listing(got: Seq<DnsRecordResponse>) -> bool {
    got.len() < RECORDS_PER_PAGE
}

/// Where a listing that has gathered `gathered` ends when the API answers
/// with `pages`, one after the other: each page's records are added, and the
/// first page that is not full ends it. `None` while it has not ended.
pub open spec fn walk_pages(gathered: Seq<DnsRecord>, pages: Seq<Seq<DnsRecordResponse>>) -> Option<
    Seq<DnsRecord>,
>
    decreases pages.len(),
{
    if pages.len() == 0 {
        None
    } else {
        let all = gathered + page_records(pages[0]);
        if ends_listing(pages[0]) {
            Some(all)
        } else {
            walk_pages(all, pages.drop_first())
        }
    }
}

/// The records of all `pages`, page after page, in order.
pub open spec fn all_page_records(pages: Seq<Seq<DnsRecordResponse>>) -> Seq<DnsRecord>
    decreases pages.len(),
{
    if pages.len() == 0 {
        Seq::empty()
    } else {
        page_records(pages[0]) + all_page_records(pages.drop_first())
    }
}

/// A listing whose pages are all full but the last gathers every record of
/// every page, in order, and ends at the last page.
pub proof fn law_listing_gathers_every_page(pages: Seq<Seq<DnsRecordResponse>>)
    requires
        pages.len() > 0,
        forall|i: int| 0 <= i < pages.len() - 1 ==> !ends_listing(#[trigger] pages[i]),
        ends_listing(pages.last()),
    ensures
        walk_pages(Seq::empty(), pages) == Some(all_page_records(pages)),
{
    lemma_walk_from(Seq::empty(), pages);
    assert(Seq::<DnsRecord>::empty() + all_page_records(pages) =~= all_page_records(pages));
}

/// The walk from any gathered records adds the records of every page.
proof fn lemma_walk_from(gathered: Seq<DnsRecord>, pages: Seq<Seq<DnsRecordResponse>>)
    requires
        pages.len() > 0,
        forall|i: int| 0 <= i < pages.len() - 1 ==> !ends_listing(#[trigger] pages[i]),
        ends_listing(pages.last()),
    ensures
        walk_pages(gathered, pages) == Some(gathered + all_page_records(pages)),
    decreases pages.len(),
{
    let rest = pages.drop_first();
    if pages.len() == 1 {
        assert(rest.len() == 0);
        assert(all_page_records(pages) =~= page_records(pages[0]));
    } else {
        assert(!ends_listing(pages[0]));
        assert forall|i: int| 0 <= i < rest.len() - 1 implies !ends_listing(#[trigger] rest[i]) by {
            assert(rest[i] == pages[i + 1]);
        }
        assert(rest.last() == pages.last());
        lemma_walk_from(gathered + page_records(pages[0]), rest);
        assert(gathered + page_records(pages[0]) + all_page_records(rest) =~= gathered
            + all_page_records(pages));
    }
}

impl RecordPager {
    /// The page to ask for next.
    pub closed spec fn spec_page(&self) -> int {
        self.page as int
    }

    /// The records gathered so far.
    pub closed spec fn spec_records(&self) -> Seq<DnsRecord> {
        self.records@
    }

    /// A walk that starts at the first page with nothing gathered.
    pub fn new() -> (p: Self)
        ensures
            p.spec_page() == 1,
            p.spec_records() == Seq::<DnsRecord>::empty(),
    {
        RecordPager { page: 1, records: Vec::new() }
    }

    /// The page to ask for next.
    pub fn page(&self) -> (n: u64)
        ensures
            n == self.spec_page(),
    {
        self.page
    }

    /// Takes the answer for the current page. A failed exchange or a refused
    /// answer fails the listing and leaves the walk as it was; a page's records
    /// are added in order, and a page shorter than 100 records (an empty one
    /// too) ends the listing, handing over everything gathered and leaving the
    /// walk empty; a full one asks for the next page.
    pub fn on_page(&mut self, outcome: HttpOutcome<Vec<DnsRecordResponse>>) -> (step: PageStep)
        requires
            old(self).spec_page() < u64::MAX,
        ensures
            match outcome {
                HttpOutcome::Failed(m) => step matches PageStep::Fail(
                    CloudflareError::RequestError(e),
                ) && e == m,
                HttpOutcome::Status { status, body } => step matches PageStep::Fail(
                    CloudflareError::HttpError { status: s, body: b },
                ) && s == status && b == body,
                HttpOutcome::Answer(a) => if !a.success {
                    step matches PageStep::Fail(e) && refusal_of(a, e)
                } else {
                    let got = match a.result {
                        Some(v) => v@,
                        None => Seq::empty(),
                    };
                    let all = old(self).spec_records() + page_records(got);
                    if ends_listing(got) {
                        &&& step matches PageStep::Done(v) && v@ == all
                        &&& final(self).spec_page() == old(self).spec_page()
                        &&& final(self).spec_records() == Seq::<DnsRecord>::empty()
                    } else {
                        &&& step == PageStep::Fetch((old(self).spec_page() + 1) as u64)
                        &&& final(self).spec_page() == old(self).spec_page() + 1
                        &&& final(self).spec_records() == all
                    }
                },
            },
            step is Fail ==> final(self).spec_page() == old(self).spec_page()
                && final(self).spec_records() == old(self).spec_records(),
    {
        match outcome {
            HttpOutcome::Failed(m) => PageStep::Fail(CloudflareError::RequestError(m)),
            HttpOutcome::Status { status, body } => PageStep::Fail(
                CloudflareError::HttpError { status, body },
            ),
            HttpOutcome::Answer(a) => {
                if !a.success {
                    return PageStep::Fail(CloudflareError::ApiErrors(api_error_lines(&a.errors)));
                }
                let got: Vec<DnsRecordResponse> = match a.result {
                    Some(v) => v,
                    None => Vec::new(),
                };
                let count = got.len();
                if count == 0 {
                    let mut done: Vec<DnsRecord> = Vec::new();
                    std::mem::swap(&mut done, &mut self.records);
                    assert(done@ + page_records(got@) =~= done@);
                    return PageStep::Done(done);
                }
                let ghost start = self.records@;
                let mut i: usize = 0;
                while i < count
                    invariant
                        count == got@.len(),
                        i <= count,
                        self.records@ == start + page_records(got@.take(i as int)),
                        self.page == old(self).page,
                    decreases count - i,
                {
                    self.records.push(got[i].to_record());
                    proof {
                        assert(page_records(got@.take(i + 1)) =~= page_records(got@.take(i as int)).push(
                            spec_record_from_response(got@[i as int]),
                        ));
                    }
                    i = i + 1;
                }
                assert(got@.take(count as int) =~= got@);
                if (count as u64) < RECORDS_PER_PAGE {
                    let mut done: Vec<DnsRecord> = Vec::new();
                    std::mem::swap(&mut done, &mut self.records);
                    PageStep::Done(done)
                } else {
                    self.page = self.page + 1;
                    PageStep::Fetch(self.page)
                }
            },
        }
    }
}

} // verus!
