//! Rendering list results for a terminal.
//!
//! A non-empty list renders either as a bordered table (for reading) or as
//! tab-separated lines with an optional header (for scripting); an empty
//! list renders as a plain "none found" line instead of an empty table.
use vstd::prelude::*;
use vstd::string::StrSliceExecFns;
use vstd::string::StringExecFns;
use crate::model::DnsRecord;
use crate::model::DomainInfo;

verus! {

/// How list results are rendered.
#[derive(Clone, Copy)]
pub enum OutputMode {
    /// A bordered table with a header row.
    Table,
    /// Tab-separated fields, one line per item, headed when asked.
    Tsv { header: bool },
}

/// The text an optional field shows: its value, or blank when absent.
pub open spec fn opt_or_empty(o: Option<String>) -> Seq<char> {
    match o {
        Some(s) => s@,
        None => Seq::<char>::empty(),
    }
}

/// One row of the domain table.
pub struct DomainRow {
    pub domain: String,
    pub status: String,
    pub created: String,
    pub expires: String,
}

/// One row of the record table: every field of the record as text, with
/// blank cells for absent `prio` and `notes`.
pub struct DnsRow {
    pub id: String,
    pub name: String,
    pub record_type: String,
    pub content: String,
    pub ttl: String,
    pub prio: String,
    pub notes: String,
}

/// Turn a listed domain into its table row, preserving each field verbatim.
pub fn domain_row(d: DomainInfo) -> (row: DomainRow)
    ensures
        row.domain@ == d.domain@,
        row.status@ == d.status@,
        row.created@ == d.create_date@,
        row.expires@ == d.expire_date@,
{
    DomainRow { domain: d.domain, status: d.status, created: d.create_date, expires: d.expire_date }
}

/// Turn a DNS record into its table row, preserving each field's text
/// verbatim; absent `prio` and `notes` become blank cells.
pub fn dns_row(r: DnsRecord) -> (row: DnsRow)
    ensures
        row.id@ == r.id@,
        row.name@ == r.name@,
        row.record_type@ == r.record_type@,
        row.content@ == r.content@,
        row.ttl@ == r.ttl@,
        row.prio@ == opt_or_empty(r.prio),
        row.notes@ == opt_or_empty(r.notes),
{
    DnsRow {
        id: r.id,
        name: r.name,
        record_type: r.record_type,
        content: r.content,
        ttl: r.ttl,
        prio: match r.prio {
            Some(p) => p,
            None => String::new(),
        },
        notes: match r.notes {
            Some(n) => n,
            None => String::new(),
        },
    }
}

/// The header cells of the domain table.
pub open spec fn domain_header() -> Seq<Seq<char>> {
    seq!["Domain"@, "Status"@, "Created"@, "Expires"@]
}

/// The cells of one domain's row.
pub open spec fn domain_cells(d: DomainInfo) -> Seq<Seq<char>> {
    seq![d.domain@, d.status@, d.create_date@, d.expire_date@]
}

/// The header cells of the record table.
pub open spec fn dns_header() -> Seq<Seq<char>> {
    seq!["ID"@, "Name"@, "Type"@, "Content"@, "TTL"@, "Prio"@, "Notes"@]
}

/// The cells of one record's row.
pub open spec fn dns_cells(r: DnsRecord) -> Seq<Seq<char>> {
    seq![r.id@, r.name@, r.record_type@, r.content@, r.ttl@, opt_or_empty(r.prio), opt_or_empty(
        r.notes,
    )]
}

/// Each domain's row cells, in the provider's order.
pub open spec fn domain_cells_seq(ds: Seq<DomainInfo>) -> Seq<Seq<Seq<char>>>
    decreases ds.len(),
{
    if ds.len() == 0 {
        Seq::empty()
    } else {
        domain_cells_seq(ds.drop_last()).push(domain_cells(ds.last()))
    }
}

/// Each record's row cells, in the provider's order.
pub open spec fn dns_cells_seq(rs: Seq<DnsRecord>) -> Seq<Seq<Seq<char>>>
    decreases rs.len(),
{
    if rs.len() == 0 {
        Seq::empty()
    } else {
        dns_cells_seq(rs.drop_last()).push(dns_cells(rs.last()))
    }
}

/// The full cell grid for a domain listing: header row (when asked), then
/// one row per domain, in the provider's order.
pub open spec fn domain_rows_model(ds: Seq<DomainInfo>, header: bool) -> Seq<Seq<Seq<char>>> {
    (if header {
        seq![domain_header()]
    } else {
        Seq::<Seq<Seq<char>>>::empty()
    }) + domain_cells_seq(ds)
}

/// The full cell grid for a record listing: header row (when asked), then
/// one row per record, in the provider's order.
pub open spec fn dns_rows_model(rs: Seq<DnsRecord>, header: bool) -> Seq<Seq<Seq<char>>> {
    (if header {
        seq![dns_header()]
    } else {
        Seq::<Seq<Seq<char>>>::empty()
    }) + dns_cells_seq(rs)
}

/// What the bordered table over a cell grid looks like. The text depends on
/// the cells alone; nothing further is assumed of it.
pub uninterp spec fn table_text(rows: Seq<Seq<Seq<char>>>) -> Seq<char>;

/// Relies on tabled: `Builder::from` keeps the rows as given, and the built
/// `Table`'s rendering depends on the cell contents alone (default theme).
#[verifier::external_body]
fn render_table(rows: &Vec<Vec<String>>) -> (r: String)
    ensures
        r@ == table_text(rows.deep_view()),
{
    tabled::builder::Builder::from(rows.clone()).build().to_string()
}

/// The parts joined by the separator: empty for no parts.
pub open spec fn joined(parts: Seq<Seq<char>>, sep: char) -> Seq<char>
    decreases parts.len(),
{
    if parts.len() == 0 {
        Seq::empty()
    } else if parts.len() == 1 {
        parts[0]
    } else {
        joined(parts.drop_last(), sep) + seq![sep] + parts.last()
    }
}

/// Each row of a cell grid joined into one line by the separator.
pub open spec fn joined_rows(rows: Seq<Seq<Seq<char>>>, sep: char) -> Seq<Seq<char>>
    decreases rows.len(),
{
    if rows.len() == 0 {
        Seq::empty()
    } else {
        joined_rows(rows.drop_last(), sep).push(joined(rows.last(), sep))
    }
}

/// Tab-separated lines: each row's cells joined by tabs, rows joined by
/// newlines.
pub open spec fn tsv_text(rows: Seq<Seq<Seq<char>>>) -> Seq<char> {
    joined(joined_rows(rows, '\t'), '\n')
}

proof fn lemma_joined_snoc(parts: Seq<Seq<char>>, i: int, sep: char)
    requires
        0 <= i < parts.len(),
    ensures
        i == 0 ==> joined(parts.take(1), sep) == parts[0],
        i > 0 ==> joined(parts.take(i + 1), sep) == joined(parts.take(i), sep) + seq![sep]
            + parts[i],
{
    let t = parts.take(i + 1);
    assert(t.drop_last() =~= parts.take(i));
    assert(t.last() == parts[i]);
}

/// Join the given cells with the separator, in order.
fn join_cells(cells: &Vec<String>, sep: char) -> (r: String)
    ensures
        r@ == joined(cells.deep_view(), sep),
{
    let mut out = String::new();
    let n = cells.len();
    let mut i: usize = 0;
    while i < n
        invariant
            n == cells@.len(),
            i <= n,
            out@ == joined(cells.deep_view().take(i as int), sep),
        decreases n - i,
    {
        if i > 0 {
            out.push(sep);
        }
        out.append(cells[i].as_str());
        proof {
            lemma_joined_snoc(cells.deep_view(), i as int, sep);
            assert(out@ =~= joined(cells.deep_view().take(i + 1), sep));
        }
        i += 1;
    }
    proof {
        assert(cells.deep_view().take(n as int) =~= cells.deep_view());
    }
    out
}

proof fn lemma_joined_rows_snoc(rows: Seq<Seq<Seq<char>>>, i: int, sep: char)
    requires
        0 <= i < rows.len(),
    ensures
        joined_rows(rows.take(i + 1), sep) == joined_rows(rows.take(i), sep).push(
            joined(rows[i], sep),
        ),
{
    let t = rows.take(i + 1);
    assert(t.drop_last() =~= rows.take(i));
    assert(t.last() == rows[i]);
}

/// Render a cell grid as tab-separated lines.
fn tsv_string(rows: &Vec<Vec<String>>) -> (r: String)
    ensures
        r@ == tsv_text(rows.deep_view()),
{
    let mut lines: Vec<String> = Vec::new();
    let n = rows.len();
    let mut i: usize = 0;
    while i < n
        invariant
            n == rows@.len(),
            i <= n,
            lines.deep_view() == joined_rows(rows.deep_view().take(i as int), '\t'),
        decreases n - i,
    {
        let line = join_cells(&rows[i], '\t');
        lines.push(line);
        proof {
            lemma_joined_rows_snoc(rows.deep_view(), i as int, '\t');
            assert(lines.deep_view() =~= joined_rows(rows.deep_view().take(i + 1), '\t'));
        }
        i += 1;
    }
    proof {
        assert(rows.deep_view().take(n as int) =~= rows.deep_view());
    }
    join_cells(&lines, '\n')
}

proof fn lemma_domain_cells_snoc(ds: Seq<DomainInfo>, i: int)
    requires
        0 <= i < ds.len(),
    ensures
        domain_cells_seq(ds.take(i + 1)) == domain_cells_seq(ds.take(i)).push(
            domain_cells(ds[i]),
        ),
{
    let t = ds.take(i + 1);
    assert(t.drop_last() =~= ds.take(i));
    assert(t.last() == ds[i]);
}

proof fn lemma_dns_cells_snoc(rs: Seq<DnsRecord>, i: int)
    requires
        0 <= i < rs.len(),
    ensures
        dns_cells_seq(rs.take(i + 1)) == dns_cells_seq(rs.take(i)).push(dns_cells(rs[i])),
{
    let t = rs.take(i + 1);
    assert(t.drop_last() =~= rs.take(i));
    assert(t.last() == rs[i]);
}

/// Build the exec cell grid for a domain listing.
fn domain_table_rows(ds: &Vec<DomainInfo>, header: bool) -> (rows: Vec<Vec<String>>)
    ensures
        rows.deep_view() == domain_rows_model(ds@, header),
{
    let mut rows: Vec<Vec<String>> = Vec::new();
    if header {
        let mut h: Vec<String> = Vec::new();
        h.push(String::from_str("Domain"));
        h.push(String::from_str("Status"));
        h.push(String::from_str("Created"));
        h.push(String::from_str("Expires"));
        proof {
            assert(h.deep_view() =~~= domain_header());
        }
        rows.push(h);
    }
    proof {
        assert(rows.deep_view() =~~= domain_rows_model(ds@.take(0), header));
    }
    let n = ds.len();
    let mut i: usize = 0;
    while i < n
        invariant
            n == ds@.len(),
            i <= n,
            rows.deep_view() == domain_rows_model(ds@.take(i as int), header),
        decreases n - i,
    {
        let d = &ds[i];
        let mut cells: Vec<String> = Vec::new();
        cells.push(d.domain.clone());
        cells.push(d.status.clone());
        cells.push(d.create_date.clone());
        cells.push(d.expire_date.clone());
        proof {
            assert(cells.deep_view() =~~= domain_cells(ds@[i as int]));
        }
        let ghost prev = rows.deep_view();
        rows.push(cells);
        proof {
            lemma_domain_cells_snoc(ds@, i as int);
            assert(rows.deep_view() =~= prev.push(domain_cells(ds@[i as int])));
            assert(rows.deep_view() =~= domain_rows_model(ds@.take(i + 1), header));
        }
        i += 1;
    }
    proof {
        assert(ds@.take(n as int) =~= ds@);
    }
    rows
}

/// Build the exec cell grid for a record listing.
fn dns_table_rows(rs: &Vec<DnsRecord>, header: bool) -> (rows: Vec<Vec<String>>)
    ensures
        rows.deep_view() == dns_rows_model(rs@, header),
{
    let mut rows: Vec<Vec<String>> = Vec::new();
    if header {
        let mut h: Vec<String> = Vec::new();
        h.push(String::from_str("ID"));
        h.push(String::from_str("Name"));
        h.push(String::from_str("Type"));
        h.push(String::from_str("Content"));
        h.push(String::from_str("TTL"));
        h.push(String::from_str("Prio"));
        h.push(String::from_str("Notes"));
        proof {
            assert(h.deep_view() =~~= dns_header());
        }
        rows.push(h);
    }
    proof {
        assert(rows.deep_view() =~~= dns_rows_model(rs@.take(0), header));
    }
    let n = rs.len();
    let mut i: usize = 0;
    while i < n
        invariant
            n == rs@.len(),
            i <= n,
            rows.deep_view() == dns_rows_model(rs@.take(i as int), header),
        decreases n - i,
    {
        let rec = &rs[i];
        let mut cells: Vec<String> = Vec::new();
        cells.push(rec.id.clone());
        cells.push(rec.name.clone());
        cells.push(rec.record_type.clone());
        cells.push(rec.content.clone());
        cells.push(rec.ttl.clone());
        cells.push(
            match &rec.prio {
                Some(p) => p.clone(),
                None => String::new(),
            },
        );
        cells.push(
            match &rec.notes {
                Some(nt) => nt.clone(),
                None => String::new(),
            },
        );
        proof {
            assert(cells.deep_view() =~~= dns_cells(rs@[i as int]));
        }
        let ghost prev = rows.deep_view();
        rows.push(cells);
        proof {
            lemma_dns_cells_snoc(rs@, i as int);
            assert(rows.deep_view() =~= prev.push(dns_cells(rs@[i as int])));
            assert(rows.deep_view() =~= dns_rows_model(rs@.take(i + 1), header));
        }
        i += 1;
    }
    proof {
        assert(rs@.take(n as int) =~= rs@);
    }
    rows
}

/// What a domain listing shows: a "none found" line for an empty list, else
/// the table or the tab-separated lines over the domains in order.
pub open spec fn domains_listing_text(ds: Seq<DomainInfo>, mode: OutputMode) -> Seq<char> {
    if ds.len() == 0 {
        "No domains found."@
    } else {
        match mode {
            OutputMode::Table => table_text(domain_rows_model(ds, true)),
            OutputMode::Tsv { header } => tsv_text(domain_rows_model(ds, header)),
        }
    }
}

/// What a record listing shows for a domain: a "none found" line for an
/// empty list, else the table or the tab-separated lines over the records
/// in order.
pub open spec fn records_listing_text(domain: Seq<char>, rs: Seq<DnsRecord>, mode: OutputMode) -> Seq<
    char,
> {
    if rs.len() == 0 {
        "No DNS records found for "@ + domain + "."@
    } else {
        match mode {
            OutputMode::Table => table_text(dns_rows_model(rs, true)),
            OutputMode::Tsv { header } => tsv_text(dns_rows_model(rs, header)),
        }
    }
}

/// Render a domain listing.
pub fn domains_listing(ds: &Vec<DomainInfo>, mode: OutputMode) -> (r: String)
    ensures
        r@ == domains_listing_text(ds@, mode),
{
    if ds.len() == 0 {
        String::from_str("No domains found.")
    } else {
        match mode {
            OutputMode::Table => {
                let rows = domain_table_rows(ds, true);
                render_table(&rows)
            },
            OutputMode::Tsv { header } => {
                let rows = domain_table_rows(ds, header);
                tsv_string(&rows)
            },
        }
    }
}

/// Render a record listing for a domain.
pub fn records_listing(domain: &str, rs: &Vec<DnsRecord>, mode: OutputMode) -> (r: String)
    ensures
        r@ == records_listing_text(domain@, rs@, mode),
{
    if rs.len() == 0 {
        let mut out = String::from_str("No DNS records found for ");
        out.append(domain);
        out.append(".");
        proof {
            assert(out@ =~= "No DNS records found for "@ + domain@ + "."@);
        }
        out
    } else {
        match mode {
            OutputMode::Table => {
                let rows = dns_table_rows(rs, true);
                render_table(&rows)
            },
            OutputMode::Tsv { header } => {
                let rows = dns_table_rows(rs, header);
                tsv_string(&rows)
            },
        }
    }
}

proof fn lemma_dns_cells_seq_index(rs: Seq<DnsRecord>, j: int)
    requires
        0 <= j < rs.len(),
    ensures
        dns_cells_seq(rs)[j] == dns_cells(rs[j]),
    decreases rs.len(),
{
    lemma_dns_cells_seq_len(rs.drop_last());
    if j + 1 < rs.len() {
        lemma_dns_cells_seq_index(rs.drop_last(), j);
    }
}

/// A record's row in the rendered cell grid carries each of its fields'
/// text verbatim: the id, name, type, content and ttl exactly as decoded,
/// and a blank cell (nothing else) for an absent `prio` or `notes`.
pub proof fn lemma_record_cells_verbatim(rs: Seq<DnsRecord>, j: int, header: bool)
    requires
        0 <= j < rs.len(),
    ensures
        dns_rows_model(rs, header)[j + (if header {
            1int
        } else {
            0int
        })] == seq![
            rs[j].id@,
            rs[j].name@,
            rs[j].record_type@,
            rs[j].content@,
            rs[j].ttl@,
            opt_or_empty(rs[j].prio),
            opt_or_empty(rs[j].notes),
        ],
{
    lemma_dns_cells_seq_index(rs, j);
    assert(dns_cells_seq(rs).len() == rs.len()) by {
        lemma_dns_cells_seq_len(rs);
    }
}

proof fn lemma_dns_cells_seq_len(rs: Seq<DnsRecord>)
    ensures
        dns_cells_seq(rs).len() == rs.len(),
    decreases rs.len(),
{
    if rs.len() > 0 {
        lemma_dns_cells_seq_len(rs.drop_last());
    }
}

/// Listing is read-only and its output is a function of the response
/// content alone: rendering the same response again, in the same mode,
/// yields character-for-character identical output.
pub proof fn lemma_domains_listing_idempotent(
    d1: Seq<DomainInfo>,
    d2: Seq<DomainInfo>,
    mode: OutputMode,
)
    requires
        d1 == d2,
    ensures
        domains_listing_text(d1, mode) == domains_listing_text(d2, mode),
{
}

} // verus!
