//! Pagination planning and the windowed-query model: user-supplied
//! page/per_page parameters are validated and normalized into an
//! offset+limit window, and a read query executed under that window
//! returns each row together with the total matching row count, computed
//! in the same pass as the rows themselves.

use vstd::prelude::*;
use vstd::string::StringExecFns;

use crate::errors::PaginationError;
use crate::strutil::spec_decimal;
use crate::strutil::spec_parse_i64;
use crate::strutil::parse_i64;
use crate::strutil::u64_to_decimal;

verus! {

pub const DEFAULT_PER_PAGE: i64 = 10;

pub const MAX_PER_PAGE: i64 = 25;

/// User-supplied pagination parameters, both optional.
#[derive(Clone, Copy, Debug, PartialEq, Eq)]
pub struct PaginationParams {
    pub page: Option<i64>,
    pub per_page: Option<i64>,
}

/// A validated, normalized pagination window.
#[derive(Clone, Copy, Debug, PartialEq, Eq)]
pub struct PaginationOptions {
    pub page: i64,
    pub per_page: i64,
}

/// What planning owes for every request: `per_page` outside its window is
/// rejected first, then a `page` below one; otherwise defaults are filled
/// in.
pub open spec fn spec_plan(params: PaginationParams) -> Result<PaginationOptions, PaginationError> {
    if params.per_page matches Some(pp) && !(1 <= pp <= MAX_PER_PAGE) {
        Err(PaginationError::InvalidPerPage)
    } else if params.page matches Some(p) && p < 1 {
        Err(PaginationError::InvalidPage)
    } else {
        Ok(
            PaginationOptions {
                page: match params.page {
                    Some(p) => p,
                    None => 1,
                },
                per_page: match params.per_page {
                    Some(pp) => pp,
                    None => DEFAULT_PER_PAGE,
                },
            },
        )
    }
}

impl PaginationOptions {
    /// A well-formed window: page at least one, per_page within bounds.
    pub open spec fn wf(self) -> bool {
        self.page >= 1 && 1 <= self.per_page <= MAX_PER_PAGE
    }

    pub open spec fn spec_offset(self) -> int {
        (self.page - 1) * self.per_page
    }

    /// Validates and normalizes user-supplied parameters. Succeeds exactly
    /// when the supplied values are acceptable; no upper bound is placed
    /// on `page` (a page past the data legitimately yields zero rows).
    pub fn new(params: PaginationParams) -> (r: Result<PaginationOptions, PaginationError>)
        ensures
            r == spec_plan(params),
            r matches Ok(o) ==> o.wf(),
    {
        match params.per_page {
            Some(pp) => {
                if !(1 <= pp && pp <= MAX_PER_PAGE) {
                    return Err(PaginationError::InvalidPerPage);
                }
            },
            None => {},
        }
        match params.page {
            Some(p) => {
                if p < 1 {
                    return Err(PaginationError::InvalidPage);
                }
            },
            None => {},
        }
        Ok(
            PaginationOptions {
                page: match params.page {
                    Some(p) => p,
                    None => 1,
                },
                per_page: match params.per_page {
                    Some(pp) => pp,
                    None => DEFAULT_PER_PAGE,
                },
            },
        )
    }

    /// The window's starting row, `(page - 1) * per_page`. The product is
    /// bounded by the caller because the machine cannot represent a larger
    /// offset.
    pub fn offset(&self) -> (r: Option<i64>)
        requires
            self.wf(),
            self.spec_offset() <= i64::MAX,
        ensures
            r == Some((self.spec_offset()) as i64),
    {
        proof {
            assert((self.page - 1) * self.per_page >= 0) by (nonlinear_arith)
                requires
                    self.page >= 1,
                    self.per_page >= 1,
            ;
        }
        let pp = self.per_page;
        Some((self.page - 1) * pp)
    }
}

/// One returned row of a windowed query: the record itself and the total
/// matching row count that the database attached to every row.
#[derive(Clone, Copy, Debug, PartialEq, Eq)]
pub struct WithCount<T> {
    pub record: T,
    pub total: i64,
}

/// The rows a windowed query returns over the full ordered matching row
/// set `rows`: the window `[offset, offset + limit)`, clipped to the data.
pub open spec fn windowed_rows<T>(rows: Seq<T>, offset: int, limit: int) -> Seq<T> {
    if offset < 0 || offset >= rows.len() {
        Seq::<T>::empty()
    } else if offset + limit <= rows.len() {
        rows.subrange(offset, offset + limit)
    } else {
        rows.subrange(offset, rows.len() as int)
    }
}

/// The total count reported by a page of windowed rows: carried by the
/// first row, and zero when there is no row to carry it.
pub open spec fn page_total<T>(page: Seq<WithCount<T>>) -> int {
    if page.len() == 0 {
        0
    } else {
        page[0].total as int
    }
}

/// Splits windowed rows into the bare records and the reported total.
pub trait WithCountExtension<T> {
    fn records_and_total(self) -> (r: (Vec<T>, i64));
}

impl<T> WithCountExtension<T> for Vec<WithCount<T>> {
    /// The records in order, and the total carried by the first row (zero
    /// for an empty page).
    fn records_and_total(self) -> (r: (Vec<T>, i64))
        ensures
            r.0@ == self@.map_values(|wc: WithCount<T>| wc.record),
            r.1 == page_total(self@),
    {
        let ghost orig = self@;
        let cnt: i64 = if self.len() == 0 {
            0
        } else {
            self[0].total
        };
        let mut rows = self;
        let mut records: Vec<T> = Vec::new();
        while rows.len() > 0
            invariant
                orig.len() == records@.len() + rows@.len(),
                records@ == orig.take(records@.len() as int).map_values(
                    |wc: WithCount<T>| wc.record,
                ),
                rows@ == orig.skip(records@.len() as int),
            decreases rows.len(),
        {
            let ghost done = records@.len() as int;
            let wc = rows.remove(0);
            proof {
                assert(orig.skip(done).drop_first() =~= orig.skip(done + 1));
                assert(wc == orig[done]);
            }
            records.push(wc.record);
            proof {
                assert(orig.take(done + 1).drop_last() =~= orig.take(done));
                assert(records@ =~= orig.take(done + 1).map_values(|wc: WithCount<T>| wc.record));
            }
        }
        proof {
            assert(orig.take(orig.len() as int) =~= orig);
        }
        (records, cnt)
    }
}

/// The result of one windowed query: the page's rows, each carrying the
/// total.
#[derive(Debug)]
pub struct Paginated<T> {
    records_and_total: Vec<WithCount<T>>,
}

impl<T> Paginated<T> {
    /// The rows of this page, with their attached totals.
    pub closed spec fn rows(self) -> Seq<WithCount<T>> {
        self.records_and_total@
    }

    /// Wraps the raw rows a windowed query produced.
    pub fn from_rows(records_and_total: Vec<WithCount<T>>) -> (r: Paginated<T>)
        ensures
            r.rows() == records_and_total@,
    {
        Paginated { records_and_total }
    }

    /// The total matching row count before windowing, as reported by this
    /// page: zero exactly when the page itself is empty.
    pub fn total(&self) -> (t: i64)
        ensures
            t == page_total(self.rows()),
    {
        if self.records_and_total.len() == 0 {
            0
        } else {
            self.records_and_total[0].total
        }
    }

    /// The page's records, in order, without their counts.
    pub fn records(self) -> (r: Vec<T>)
        ensures
            r@ == self.rows().map_values(|wc: WithCount<T>| wc.record),
    {
        let (records, _) = self.records_and_total.records_and_total();
        records
    }

    /// The response envelope: the records and the reported total.
    pub fn into_response(self) -> (r: PaginatedResponse<T>)
        ensures
            r.data@ == self.rows().map_values(|wc: WithCount<T>| wc.record),
            r.meta.total == page_total(self.rows()),
    {
        let (data, total) = self.records_and_total.records_and_total();
        PaginatedResponse { data, meta: PaginationMeta { total } }
    }
}

#[derive(Clone, Copy, Debug, PartialEq, Eq)]
pub struct PaginationMeta {
    pub total: i64,
}

/// The pagination response envelope: the page's records under `data` and
/// the unwindowed total under `meta`.
#[derive(Debug)]
pub struct PaginatedResponse<T> {
    pub data: Vec<T>,
    pub meta: PaginationMeta,
}

impl<T> PaginatedResponse<T> {
    pub fn new(data: Vec<T>, total: i64) -> (r: PaginatedResponse<T>)
        ensures
            r.data == data,
            r.meta.total == total,
    {
        PaginatedResponse { data, meta: PaginationMeta { total } }
    }
}

/// Models the windowed query executor: the database computes the full
/// ordered matching row set, attaches the unwindowed total to every row
/// in the same pass, and returns only the window's rows. Callers that
/// run the real query hand its raw rows to [`Paginated::from_rows`]; this
/// function is the executable model those rows are held against.
pub fn execute_windowed<T>(rows: Vec<T>, options: &PaginationOptions) -> (r: Paginated<T>)
    requires
        options.wf(),
        options.spec_offset() <= i64::MAX,
        rows@.len() <= i64::MAX,
    ensures
        r.rows().len() == windowed_rows(rows@, options.spec_offset(), options.per_page as int).len(),
        forall|i: int|
            0 <= i < r.rows().len() ==> r.rows()[i].record == windowed_rows(
                rows@,
                options.spec_offset(),
                options.per_page as int,
            )[i] && (#[trigger] r.rows()[i]).total == rows@.len(),
{
    let ghost orig = rows@;
    let ghost off = options.spec_offset();
    let ghost lim = options.per_page as int;
    proof {
        assert(off >= 0) by (nonlinear_arith)
            requires
                options.page >= 1,
                options.per_page >= 1,
                off == (options.page - 1) * options.per_page,
        ;
    }
    let total: i64 = rows.len() as i64;
    let offset_i64: i64 = match options.offset() {
        Some(o) => o,
        None => 0,
    };
    let mut rows = rows;
    let mut out: Vec<WithCount<T>> = Vec::new();
    if offset_i64 >= total {
        proof {
            assert(windowed_rows(orig, off, lim) =~= Seq::<T>::empty());
        }
        return Paginated::from_rows(out);
    }
    let offset: usize = offset_i64 as usize;
    let limit: i64 = options.per_page;
    let mut taken: usize = 0;
    proof {
        assert(rows@ =~= orig.take(offset as int) + orig.skip(offset as int));
    }
    while offset < rows.len() && (taken as i64) < limit
        invariant
            off == offset as int,
            lim == limit as int,
            0 <= offset < orig.len(),
            1 <= limit <= MAX_PER_PAGE,
            taken as int <= lim,
            orig.len() <= i64::MAX,
            total == orig.len() as i64,
            offset + taken <= orig.len(),
            rows@ == orig.take(offset as int) + orig.skip(offset + taken),
            out@.len() == taken as int,
            forall|i: int|
                0 <= i < out@.len() ==> (#[trigger] out@[i]).record == orig[offset + i]
                    && out@[i].total == orig.len(),
        decreases lim - taken,
    {
        let ghost t = taken as int;
        let record = rows.remove(offset);
        proof {
            assert(rows@ =~= orig.take(offset as int) + orig.skip(offset + t + 1));
            assert(record == orig[offset + t]);
        }
        out.push(WithCount { record, total });
        taken = taken + 1;
    }
    proof {
        let w = windowed_rows(orig, off, lim);
        assert(out@.len() == w.len());
    }
    Paginated::from_rows(out)
}

/// The windowing decorator: any value standing for a read query can be
/// wrapped with a window, and the wrapped pair is what gets executed.
pub trait Paginate: Sized {
    fn pages_pagination(self, options: PaginationOptions) -> (r: PaginatedQuery<Self>)
        ensures
            r.query == self,
            r.options == options,
    ;
}

impl<T> Paginate for T {
    fn pages_pagination(self, options: PaginationOptions) -> (r: PaginatedQuery<Self>)
        ensures
            r.query == self,
            r.options == options,
    {
        PaginatedQuery { query: self, options }
    }
}

/// A read query wrapped with its pagination window.
#[derive(Debug)]
pub struct PaginatedQuery<T> {
    pub query: T,
    pub options: PaginationOptions,
}

impl<U> PaginatedQuery<Vec<U>> {
    /// Runs the wrapped query: the window's rows come back, each carrying
    /// the unwindowed total, in one pass over the matching row set.
    pub fn load(self) -> (r: Paginated<U>)
        requires
            self.options.wf(),
            self.options.spec_offset() <= i64::MAX,
            self.query@.len() <= i64::MAX,
        ensures
            r.rows().len() == windowed_rows(
                self.query@,
                self.options.spec_offset(),
                self.options.per_page as int,
            ).len(),
            forall|i: int|
                0 <= i < r.rows().len() ==> r.rows()[i].record == windowed_rows(
                    self.query@,
                    self.options.spec_offset(),
                    self.options.per_page as int,
                )[i] && (#[trigger] r.rows()[i]).total == self.query@.len(),
    {
        let PaginatedQuery { query, options } = self;
        execute_windowed(query, &options)
    }
}

/// Every request whose `per_page` lies outside the accepted window is
/// refused as InvalidPerPage, whatever its page says; every request whose
/// `per_page` lies within it (or is absent) and whose page is not below
/// one is planned, with that per_page as the window's limit.
pub proof fn lemma_per_page_validation(params: PaginationParams)
    ensures
        match params.per_page {
            Some(pp) => if !(1 <= pp <= MAX_PER_PAGE) {
                spec_plan(params) == Err::<PaginationOptions, PaginationError>(
                    PaginationError::InvalidPerPage,
                )
            } else if !(params.page matches Some(p) && p < 1) {
                spec_plan(params) matches Ok(o) && o.per_page == pp
            } else {
                spec_plan(params) == Err::<PaginationOptions, PaginationError>(
                    PaginationError::InvalidPage,
                )
            },
            None => true,
        },
{
}

/// A windowed query over zero matching rows reports a total of zero, and
/// any page that starts inside the data reports the exact unwindowed
/// match count, whatever the page number.
pub proof fn lemma_windowed_total<T>(
    rows: Seq<T>,
    page: Seq<WithCount<T>>,
    offset: int,
    limit: int,
)
    requires
        0 <= offset,
        1 <= limit,
        page.len() == windowed_rows(rows, offset, limit).len(),
        forall|i: int| 0 <= i < page.len() ==> (#[trigger] page[i]).total == rows.len(),
    ensures
        rows.len() == 0 ==> page_total(page) == 0,
        offset < rows.len() ==> page_total(page) == rows.len(),
{
    if rows.len() == 0 {
        assert(windowed_rows(rows, offset, limit) =~= Seq::<T>::empty());
    }
    if offset < rows.len() {
        assert(windowed_rows(rows, offset, limit).len() >= 1);
        assert(page[0].total == rows.len());
    }
}

/// The SQL text of the windowed decorator around an arbitrary inner read
/// query: one statement that yields the window's rows, each carrying the
/// unwindowed total via an unbounded analytic count.
pub open spec fn spec_windowed_sql(inner: Seq<char>, limit: int, offset: int) -> Seq<char> {
    "SELECT *, COUNT(*) OVER () FROM ("@ + inner + ") t LIMIT "@ + spec_decimal(limit)
        + " OFFSET "@ + spec_decimal(offset)
}

/// Renders the windowed decorator around the inner query's SQL text.
pub fn windowed_sql(inner: &str, limit: i64, offset: i64) -> (r: String)
    requires
        0 <= limit,
        0 <= offset,
    ensures
        r@ == spec_windowed_sql(inner@, limit as int, offset as int),
{
    let mut q = "SELECT *, COUNT(*) OVER () FROM (".to_owned();
    q.append(inner);
    q.append(") t LIMIT ");
    let l = u64_to_decimal(limit as u64);
    q.append(l.as_str());
    q.append(" OFFSET ");
    let o = u64_to_decimal(offset as u64);
    q.append(o.as_str());
    proof {
        assert(q@ =~= spec_windowed_sql(inner@, limit as int, offset as int));
    }
    q
}

/// The value of the first query parameter named `key`, if any.
pub open spec fn first_value(pairs: Seq<(String, String)>, key: Seq<char>) -> Option<Seq<char>>
    decreases pairs.len(),
{
    if pairs.len() == 0 {
        None
    } else if pairs[0].0@ == key {
        Some(pairs[0].1@)
    } else {
        first_value(pairs.drop_first(), key)
    }
}

/// The pagination parameters carried by a query string: each of `page`
/// and `per_page`, when present, must denote an `i64`, else the whole
/// query is rejected.
pub open spec fn spec_params_from_query(pairs: Seq<(String, String)>) -> Option<PaginationParams> {
    let page_v = first_value(pairs, "page"@);
    let per_v = first_value(pairs, "per_page"@);
    if (page_v matches Some(s) && spec_parse_i64(s) is None) || (per_v matches Some(s)
        && spec_parse_i64(s) is None) {
        None
    } else {
        Some(
            PaginationParams {
                page: match page_v {
                    Some(s) => spec_parse_i64(s),
                    None => None,
                },
                per_page: match per_v {
                    Some(s) => spec_parse_i64(s),
                    None => None,
                },
            },
        )
    }
}

/// A request's query string, decoded into key/value pairs in order.
#[derive(Debug)]
pub struct QueryHmExt(pub Vec<(String, String)>);

impl QueryHmExt {
    /// The pagination parameters this query string supplies, if the
    /// supplied values are integers at all.
    pub fn pagination(&self) -> (r: Option<PaginationParams>)
        ensures
            r == spec_params_from_query(self.0@),
    {
        params_from_query(&self.0)
    }
}

fn find_first(pairs: &Vec<(String, String)>, key: &str) -> (r: Option<String>)
    ensures
        match r {
            Some(v) => first_value(pairs@, key@) == Some(v@),
            None => first_value(pairs@, key@) is None,
        },
{
    let owned_key: String = key.to_owned();
    let mut i: usize = 0;
    proof {
        assert(pairs@.skip(0) =~= pairs@);
    }
    while i < pairs.len()
        invariant
            i <= pairs@.len(),
            owned_key@ == key@,
            first_value(pairs@, key@) == first_value(pairs@.skip(i as int), key@),
        decreases pairs@.len() - i,
    {
        proof {
            assert(pairs@.skip(i as int).drop_first() =~= pairs@.skip(i + 1));
            assert(pairs@.skip(i as int)[0] == pairs@[i as int]);
        }
        if pairs[i].0 == owned_key {
            return Some(pairs[i].1.clone());
        }
        i = i + 1;
    }
    None
}

/// Reads `page` and `per_page` out of the decoded query parameters;
/// reports nothing exactly when a supplied value is not an integer.
pub fn params_from_query(pairs: &Vec<(String, String)>) -> (r: Option<PaginationParams>)
    ensures
        r == spec_params_from_query(pairs@),
{
    let page_raw = find_first(pairs, "page");
    let per_raw = find_first(pairs, "per_page");
    let page: Option<i64> = match page_raw {
        Some(s) => {
            match parse_i64(s.as_str()) {
                Some(v) => Some(v),
                None => {
                    return None;
                },
            }
        },
        None => None,
    };
    let per_page: Option<i64> = match per_raw {
        Some(s) => {
            match parse_i64(s.as_str()) {
                Some(v) => Some(v),
                None => {
                    return None;
                },
            }
        },
        None => None,
    };
    Some(PaginationParams { page, per_page })
}

} // verus!
