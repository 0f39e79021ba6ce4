//! CSV exports of leads, appointments, conversations, clients and properties.
use vstd::prelude::*;
use vstd::utf8::encode_utf8;
use crate::ids::{uuid_text, uuid_to_text};
use crate::dates::{instant_text, instant_to_text};
use crate::money::Amount;
use crate::text::{decimal_text, owned, trim, trim_seq};

verus! {

// ---------------------------------------------------------------------------
// CSV encoding
// ---------------------------------------------------------------------------

/// A field needs quotes when it holds the delimiter, the quote or a line break.
pub open spec fn needs_quotes(f: Seq<char>) -> bool {
    f.contains(',') || f.contains('"') || f.contains('\r') || f.contains('\n')
}

/// `f` with every quote doubled.
pub open spec fn escape_quotes(f: Seq<char>) -> Seq<char>
    decreases f.len(),
{
    if f.len() == 0 {
        seq![]
    } else {
        (if f[0] == '"' { seq!['"', '"'] } else { seq![f[0]] }) + escape_quotes(f.skip(1))
    }
}

/// A field as written: quoted (quotes doubled) only when needed.
pub open spec fn csv_field(f: Seq<char>) -> Seq<char> {
    if needs_quotes(f) {
        seq!['"'] + escape_quotes(f) + seq!['"']
    } else {
        f
    }
}

/// Fields separated by commas.
pub open spec fn csv_fields(fs: Seq<Seq<char>>) -> Seq<char>
    decreases fs.len(),
{
    if fs.len() == 0 {
        seq![]
    } else if fs.len() == 1 {
        csv_field(fs[0])
    } else {
        csv_field(fs[0]) + seq![','] + csv_fields(fs.skip(1))
    }
}

/// A record and its line terminator; a record whose only field is empty is written as `""`.
pub open spec fn csv_record(fs: Seq<Seq<char>>) -> Seq<char> {
    (if fs.len() == 0 || (fs.len() == 1 && fs[0].len() == 0) { seq!['"', '"'] } else { csv_fields(fs) })
        + seq!['\n']
}

/// A whole CSV document.
pub open spec fn csv_text(rows: Seq<Seq<Seq<char>>>) -> Seq<char>
    decreases rows.len(),
{
    if rows.len() == 0 {
        seq![]
    } else {
        csv_record(rows[0]) + csv_text(rows.skip(1))
    }
}

/// Number of line breaks (`\n`) in `s`.
pub open spec fn line_breaks(s: Seq<char>) -> nat
    decreases s.len(),
{
    if s.len() == 0 {
        0
    } else {
        (if s.last() == '\n' { 1nat } else { 0nat }) + line_breaks(s.drop_last())
    }
}

/// `s` holds no line break.
pub open spec fn no_break(s: Seq<char>) -> bool {
    forall|i: int| 0 <= i < s.len() ==> s[i] != '\n'
}

proof fn lemma_line_breaks_concat(a: Seq<char>, b: Seq<char>)
    ensures
        line_breaks(a + b) == line_breaks(a) + line_breaks(b),
    decreases b.len(),
{
    if b.len() == 0 {
        assert(a + b =~= a);
    } else {
        assert((a + b).drop_last() =~= a + b.drop_last());
        lemma_line_breaks_concat(a, b.drop_last());
    }
}

proof fn lemma_no_break_count(s: Seq<char>)
    requires
        no_break(s),
    ensures
        line_breaks(s) == 0,
    decreases s.len(),
{
    if s.len() > 0 {
        assert(s.last() == s[s.len() - 1]);
        assert(no_break(s.drop_last()));
        lemma_no_break_count(s.drop_last());
    }
}

proof fn lemma_escape_no_break(f: Seq<char>)
    requires
        no_break(f),
    ensures
        no_break(escape_quotes(f)),
    decreases f.len(),
{
    if f.len() > 0 {
        assert(no_break(f.skip(1))) by {
            assert forall|i: int| 0 <= i < f.skip(1).len() implies f.skip(1)[i] != '\n' by {
                assert(f.skip(1)[i] == f[i + 1]);
            }
        }
        lemma_escape_no_break(f.skip(1));
        let head: Seq<char> = if f[0] == '"' { seq!['"', '"'] } else { seq![f[0]] };
        assert(escape_quotes(f) == head + escape_quotes(f.skip(1)));
        assert forall|i: int| 0 <= i < escape_quotes(f).len() implies escape_quotes(f)[i] != '\n' by {
            if i < head.len() {
                assert(escape_quotes(f)[i] == head[i]);
            } else {
                assert(escape_quotes(f)[i] == escape_quotes(f.skip(1))[i - head.len()]);
            }
        }
    }
}

proof fn lemma_field_no_break(f: Seq<char>)
    requires
        no_break(f),
    ensures
        no_break(csv_field(f)),
{
    if needs_quotes(f) {
        lemma_escape_no_break(f);
        let e = escape_quotes(f);
        let q = seq!['"'] + e + seq!['"'];
        assert forall|i: int| 0 <= i < q.len() implies q[i] != '\n' by {
            if 0 < i < q.len() - 1 {
                assert(q[i] == e[i - 1]);
            }
        }
    }
}

proof fn lemma_fields_no_break(fs: Seq<Seq<char>>)
    requires
        forall|j: int| 0 <= j < fs.len() ==> no_break(#[trigger] fs[j]),
    ensures
        no_break(csv_fields(fs)),
    decreases fs.len(),
{
    if fs.len() == 1 {
        lemma_field_no_break(fs[0]);
    } else if fs.len() > 1 {
        lemma_field_no_break(fs[0]);
        assert forall|j: int| 0 <= j < fs.skip(1).len() implies no_break(#[trigger] fs.skip(1)[j]) by {
            assert(fs.skip(1)[j] == fs[j + 1]);
        }
        lemma_fields_no_break(fs.skip(1));
        let a = csv_field(fs[0]);
        let b = csv_fields(fs.skip(1));
        let t = a + seq![','] + b;
        assert forall|i: int| 0 <= i < t.len() implies t[i] != '\n' by {
            if i < a.len() {
                assert(t[i] == a[i]);
            } else if i > a.len() {
                assert(t[i] == b[i - a.len() - 1]);
            }
        }
    }
}

/// A CSV document whose fields hold no line break has exactly one line per record: its line
/// breaks are the terminators of its records.
pub proof fn lemma_csv_lines(rows: Seq<Seq<Seq<char>>>)
    requires
        forall|i: int, j: int| 0 <= i < rows.len() && 0 <= j < rows[i].len() ==> no_break(#[trigger] rows[i][j]),
    ensures
        line_breaks(csv_text(rows)) == rows.len(),
    decreases rows.len(),
{
    if rows.len() > 0 {
        let fs = rows[0];
        assert forall|j: int| 0 <= j < fs.len() implies no_break(#[trigger] fs[j]) by {
            assert(no_break(rows[0][j]));
        }
        lemma_fields_no_break(fs);
        let body: Seq<char> = if fs.len() == 0 || (fs.len() == 1 && fs[0].len() == 0) { seq!['"', '"'] } else { csv_fields(fs) };
        assert(no_break(body));
        lemma_no_break_count(body);
        lemma_line_breaks_concat(body, seq!['\n']);
        assert(line_breaks(seq!['\n']) == 1) by {
            let nl: Seq<char> = seq!['\n'];
            assert(nl.drop_last() =~= Seq::<char>::empty());
            assert(nl.last() == '\n');
            assert(line_breaks(nl.drop_last()) == 0);
        }
        let rest = rows.skip(1);
        assert forall|i: int, j: int| 0 <= i < rest.len() && 0 <= j < rest[i].len() implies no_break(#[trigger] rest[i][j]) by {
            assert(rest[i] == rows[i + 1]);
        }
        lemma_csv_lines(rest);
        lemma_line_breaks_concat(csv_record(fs), csv_text(rest));
    }
}

/// The character views of the fields of `rows`.
pub open spec fn row_views(rows: Seq<Vec<String>>) -> Seq<Seq<Seq<char>>> {
    rows.map_values(|r: Vec<String>| r@.map_values(|f: String| f@))
}

/// A csv writer into memory (csv's `Writer` over a `Vec<u8>`), kept in a private field; what it
/// holds is known through `csv_records`.
#[verifier::external_body]
pub struct CsvBuffer {
    wtr: csv::Writer<Vec<u8>>,
}

/// The records that a csv writer into memory has been given so far, each as its fields' text.
pub uninterp spec fn csv_records(w: CsvBuffer) -> Seq<Seq<Seq<char>>>;

/// A csv writer into an empty buffer, with csv's defaults (csv's `Writer::from_writer`): comma
/// delimiter, `"` quotes doubled inside quoted fields, quotes only where needed, `\n` after each
/// record, and every record of the first record's length. It has been given no record yet.
#[verifier::external_body]
fn csv_writer() -> (w: CsvBuffer)
    ensures
        csv_records(w) == Seq::<Seq<Seq<char>>>::empty(),
{
    CsvBuffer { wtr: csv::Writer::from_writer(vec![]) }
}

/// Writes one record (csv's `Writer::write_record`). Into memory the write cannot fail but for
/// a record whose length differs from the first one's, which `requires` leaves out.
#[verifier::external_body]
fn csv_write_record(w: &mut CsvBuffer, row: &Vec<String>)
    requires
        csv_records(*old(w)).len() > 0 ==> row.len() == csv_records(*old(w))[0].len(),
    ensures
        csv_records(*final(w)) == csv_records(*old(w)).push(row@.map_values(|f: String| f@)),
{
    w.wtr.write_record(row).unwrap()
}

/// The bytes written (csv's `Writer::into_inner`, which flushes into the buffer and cannot fail
/// there): the UTF-8 encoding of the CSV text of the records given.
#[verifier::external_body]
fn csv_into_bytes(w: CsvBuffer) -> (r: Vec<u8>)
    ensures
        r@ == encode_utf8(csv_text(csv_records(w))),
{
    w.wtr.into_inner().unwrap()
}

// ---------------------------------------------------------------------------
// Reports
// ---------------------------------------------------------------------------

/// Filters of an export: a time range (milliseconds since the Unix epoch) and an agent.
pub struct ReportFilters {
    pub date_from: Option<i64>,
    pub date_to: Option<i64>,
    pub assigned_to: Option<u128>,
}

/// The exports offered.
#[derive(Clone, Copy, Debug, PartialEq, Eq, Structural)]
pub enum ReportKind {
    Leads,
    Appointments,
    Whatsapp,
    Clients,
    Properties,
}

impl ReportKind {
    /// Name of the export, as the audit log records it.
    pub open spec fn spec_name(self) -> Seq<char> {
        match self {
            ReportKind::Leads => "leads"@,
            ReportKind::Appointments => "appointments"@,
            ReportKind::Whatsapp => "whatsapp"@,
            ReportKind::Clients => "clients"@,
            ReportKind::Properties => "properties"@,
        }
    }

    pub fn name(&self) -> (r: &'static str)
        ensures
            r@ == self.spec_name(),
    {
        match self {
            ReportKind::Leads => "leads",
            ReportKind::Appointments => "appointments",
            ReportKind::Whatsapp => "whatsapp",
            ReportKind::Clients => "clients",
            ReportKind::Properties => "properties",
        }
    }

    /// Each kind of export has its own name, so no export is downloaded or logged as another.
    pub proof fn lemma_names_distinct(self, other: ReportKind)
        requires
            self != other,
        ensures
            self.spec_name() != other.spec_name(),
            "attachment; filename=\""@ + self.spec_name() + "_report.csv\""@
                != "attachment; filename=\""@ + other.spec_name() + "_report.csv\""@,
    {
        reveal_strlit("leads");
        reveal_strlit("appointments");
        reveal_strlit("whatsapp");
        reveal_strlit("clients");
        reveal_strlit("properties");
        let a = self.spec_name();
        let b = other.spec_name();
        assert(a.len() != b.len());
        let p = "attachment; filename=\""@;
        let q = "_report.csv\""@;
        assert((p + a + q).len() != (p + b + q).len());
    }

    /// The name of an export is a non-empty lower-case word, fit for a file name.
    pub proof fn lemma_name_is_lower_word(self)
        ensures
            self.spec_name().len() > 0,
            forall|i: int| 0 <= i < self.spec_name().len() ==> 'a' <= #[trigger] self.spec_name()[i] <= 'z',
    {
        reveal_strlit("leads");
        reveal_strlit("appointments");
        reveal_strlit("whatsapp");
        reveal_strlit("clients");
        reveal_strlit("properties");
    }

    /// `Content-Disposition` of the export: an attachment named `<name>_report.csv`.
    pub fn content_disposition(&self) -> (r: String)
        ensures
            r@ == "attachment; filename=\""@ + self.spec_name() + "_report.csv\""@,
    {
        let mut r = owned("attachment; filename=\"");
        r.append(self.name());
        r.append("_report.csv\"");
        r
    }

    /// Column titles of the export.
    pub open spec fn spec_header(self) -> Seq<Seq<char>> {
        match self {
            ReportKind::Leads => seq!["ID"@, "Status"@, "Source"@, "Created At"@, "Assigned To"@],
            ReportKind::Appointments => seq!["ID"@, "Status"@, "Scheduled At"@, "Created At"@, "Assigned To"@],
            ReportKind::Whatsapp => seq!["ID"@, "Status"@, "Created At"@, "Last Message At"@, "Assigned To"@],
            ReportKind::Clients => seq!["ID"@, "Name"@, "Email"@, "Phone"@, "Created At"@],
            ReportKind::Properties => seq!["ID"@, "Title"@, "Type"@, "Price"@, "Status"@, "Created At"@],
        }
    }

    pub fn header(&self) -> (r: Vec<String>)
        ensures
            r@.map_values(|f: String| f@) == self.spec_header(),
            r.len() == self.width(),
    {
        let mut r: Vec<String> = Vec::new();
        r.push(owned("ID"));
        match self {
            ReportKind::Leads => {
                r.push(owned("Status"));
                r.push(owned("Source"));
                r.push(owned("Created At"));
                r.push(owned("Assigned To"));
            },
            ReportKind::Appointments => {
                r.push(owned("Status"));
                r.push(owned("Scheduled At"));
                r.push(owned("Created At"));
                r.push(owned("Assigned To"));
            },
            ReportKind::Whatsapp => {
                r.push(owned("Status"));
                r.push(owned("Created At"));
                r.push(owned("Last Message At"));
                r.push(owned("Assigned To"));
            },
            ReportKind::Clients => {
                r.push(owned("Name"));
                r.push(owned("Email"));
                r.push(owned("Phone"));
                r.push(owned("Created At"));
            },
            ReportKind::Properties => {
                r.push(owned("Title"));
                r.push(owned("Type"));
                r.push(owned("Price"));
                r.push(owned("Status"));
                r.push(owned("Created At"));
            },
        }
        assert(r@.map_values(|f: String| f@) =~= self.spec_header());
        r
    }

    /// Number of columns of the export.
    pub open spec fn width(self) -> nat {
        match self {
            ReportKind::Properties => 6,
            _ => 5,
        }
    }
}

/// The text of an optional value, empty when absent.
pub open spec fn or_empty(v: Option<String>) -> Seq<char> {
    match v {
        Some(s) => s@,
        None => Seq::<char>::empty(),
    }
}

/// The text of an optional id, empty when absent.
pub open spec fn id_or_empty(v: Option<u128>) -> Seq<char> {
    match v {
        Some(id) => uuid_text(id),
        None => Seq::<char>::empty(),
    }
}

/// The RFC 3339 text of an optional instant (microseconds since the Unix epoch), empty when absent.
pub open spec fn time_or_empty(t: Option<i64>) -> Seq<char> {
    match t {
        Some(us) => instant_text(us),
        None => Seq::<char>::empty(),
    }
}

fn time_text_or_empty(t: Option<i64>) -> (r: String)
    ensures
        r@ == time_or_empty(t),
{
    match t {
        Some(us) => instant_to_text(us),
        None => String::new(),
    }
}

fn text_or_empty(v: &Option<String>) -> (r: String)
    ensures
        r@ == or_empty(*v),
{
    match v {
        Some(s) => owned(s.as_str()),
        None => String::new(),
    }
}

fn id_text_or_empty(v: Option<u128>) -> (r: String)
    ensures
        r@ == id_or_empty(v),
{
    match v {
        Some(id) => uuid_to_text(id),
        None => String::new(),
    }
}

/// One record of an appointment or conversation export: id, status, two times (microseconds
/// since the Unix epoch, written as RFC 3339 text; empty when unknown) and the assigned agent.
pub struct ActivityRow {
    pub id: u128,
    pub status: Option<String>,
    pub first_time: Option<i64>,
    pub second_time: Option<i64>,
    pub assigned_to: Option<u128>,
}

/// A lead's record for the leads export: id, status, source, creation time (microseconds since
/// the Unix epoch) and the assigned agent.
pub struct LeadRow {
    pub id: u128,
    pub status: Option<String>,
    pub source: Option<String>,
    pub created_at: Option<i64>,
    pub assigned_to: Option<u128>,
}

/// A client's record: names, email, phone and creation time (microseconds since the Unix epoch).
pub struct ClientRow {
    pub id: u128,
    pub first_name: Option<String>,
    pub last_name: Option<String>,
    pub email: Option<String>,
    pub phone: String,
    pub created_at: Option<i64>,
}

/// A property's record: title, type, price, status and creation time (microseconds since the
/// Unix epoch).
pub struct PropertyRow {
    pub id: u128,
    pub title: String,
    pub property_type: String,
    pub price: Amount,
    pub status: Option<String>,
    pub created_at: Option<i64>,
}

/// The decimal digits of the magnitude of an amount's mantissa, none for zero.
pub open spec fn magnitude_digits(a: Amount) -> Seq<char> {
    let n: int = if a.mantissa < 0 { -a.mantissa } else { a.mantissa as int };
    if n == 0 { Seq::<char>::empty() } else { decimal_text(n as nat) }
}

/// What rust_decimal's `Display` writes for an amount: `-` when the mantissa is negative, then
/// the mantissa's digits, padded with leading zeros to at least `scale` digits, with a `.` before
/// the last `scale` of them (and a `0` before the `.` when no digit is left in front of it); `0`
/// for zero at scale zero.
pub open spec fn decimal_display(a: Amount) -> Seq<char> {
    let d = magnitude_digits(a);
    let s = a.scale as nat;
    let p = if d.len() < s { Seq::new((s - d.len()) as nat, |i: int| '0') + d } else { d };
    let w: int = p.len() - s;
    let body = if s == 0 {
        if p.len() == 0 { seq!['0'] } else { p }
    } else {
        (if w == 0 { seq!['0'] } else { p.take(w) }) + seq!['.'] + p.skip(w)
    };
    (if a.mantissa < 0 { seq!['-'] } else { Seq::<char>::empty() }) + body
}

#[verifier::external_body]
fn amount_text(a: Amount) -> (r: String)
    requires
        a.wf(),
    ensures
        r@ == decimal_display(a),
{
    rust_decimal::Decimal::from_i128_with_scale(a.mantissa, a.scale).to_string()
}

/// Fields of a lead record.
pub open spec fn lead_fields(r: LeadRow) -> Seq<Seq<char>> {
    seq![uuid_text(r.id), or_empty(r.status), or_empty(r.source), time_or_empty(r.created_at), id_or_empty(r.assigned_to)]
}

/// Fields of an appointment or conversation record.
pub open spec fn activity_fields(r: ActivityRow) -> Seq<Seq<char>> {
    seq![uuid_text(r.id), or_empty(r.status), time_or_empty(r.first_time), time_or_empty(r.second_time), id_or_empty(r.assigned_to)]
}

/// Display name of a client: first and last name joined by a space, trimmed.
pub open spec fn client_display_name(first: Option<String>, last: Option<String>) -> Seq<char> {
    trim_seq(or_empty(first) + " "@ + or_empty(last))
}

/// Fields of a client record.
pub open spec fn client_fields(r: ClientRow) -> Seq<Seq<char>> {
    seq![uuid_text(r.id), client_display_name(r.first_name, r.last_name), or_empty(r.email), r.phone@, time_or_empty(r.created_at)]
}

/// Fields of a property record.
pub open spec fn property_fields(r: PropertyRow) -> Seq<Seq<char>> {
    seq![uuid_text(r.id), r.title@, r.property_type@, decimal_display(r.price), or_empty(r.status), time_or_empty(r.created_at)]
}

pub open spec fn fields_of(v: Vec<String>) -> Seq<Seq<char>> {
    v@.map_values(|f: String| f@)
}

fn lead_record(l: &LeadRow) -> (r: Vec<String>)
    ensures
        r.len() == 5,
        fields_of(r) == lead_fields(*l),
{
    let mut r: Vec<String> = Vec::new();
    r.push(uuid_to_text(l.id));
    r.push(text_or_empty(&l.status));
    r.push(text_or_empty(&l.source));
    r.push(time_text_or_empty(l.created_at));
    r.push(id_text_or_empty(l.assigned_to));
    assert(fields_of(r) =~= lead_fields(*l));
    r
}

fn activity_record(a: &ActivityRow) -> (r: Vec<String>)
    ensures
        r.len() == 5,
        fields_of(r) == activity_fields(*a),
{
    let mut r: Vec<String> = Vec::new();
    r.push(uuid_to_text(a.id));
    r.push(text_or_empty(&a.status));
    r.push(time_text_or_empty(a.first_time));
    r.push(time_text_or_empty(a.second_time));
    r.push(id_text_or_empty(a.assigned_to));
    assert(fields_of(r) =~= activity_fields(*a));
    r
}

/// Display name of a client, as the clients export writes it.
pub fn client_name(first: &Option<String>, last: &Option<String>) -> (r: String)
    ensures
        r@ == client_display_name(*first, *last),
{
    let mut full = text_or_empty(first);
    full.append(" ");
    let l = text_or_empty(last);
    full.append(l.as_str());
    trim(full.as_str())
}

fn client_record(c: &ClientRow) -> (r: Vec<String>)
    ensures
        r.len() == 5,
        fields_of(r) == client_fields(*c),
{
    let mut r: Vec<String> = Vec::new();
    r.push(uuid_to_text(c.id));
    r.push(client_name(&c.first_name, &c.last_name));
    r.push(text_or_empty(&c.email));
    r.push(owned(c.phone.as_str()));
    r.push(time_text_or_empty(c.created_at));
    assert(fields_of(r) =~= client_fields(*c));
    r
}

fn property_record(p: &PropertyRow) -> (r: Vec<String>)
    requires
        p.price.wf(),
    ensures
        r.len() == 6,
        fields_of(r) == property_fields(*p),
{
    let mut r: Vec<String> = Vec::new();
    r.push(uuid_to_text(p.id));
    r.push(owned(p.title.as_str()));
    r.push(owned(p.property_type.as_str()));
    r.push(amount_text(p.price));
    r.push(text_or_empty(&p.status));
    r.push(time_text_or_empty(p.created_at));
    assert(fields_of(r) =~= property_fields(*p));
    r
}

proof fn lemma_row_views_push(rows: Seq<Vec<String>>, x: Vec<String>)
    ensures
        row_views(rows.push(x)) == row_views(rows).push(fields_of(x)),
{
    assert(row_views(rows.push(x)) =~= row_views(rows).push(fields_of(x)));
}

/// Writes a header and its records, all of the header's width, as a CSV document.
fn finish_report(rows: &Vec<Vec<String>>, Ghost(width): Ghost<nat>) -> (r: Vec<u8>)
    requires
        rows.len() > 0,
        forall|i: int| 0 <= i < rows.len() ==> (#[trigger] rows[i]).len() == width,
    ensures
        r@ == encode_utf8(csv_text(row_views(rows@))),
{
    let mut w = csv_writer();
    let mut i: usize = 0;
    while i < rows.len()
        invariant
            i <= rows.len(),
            rows.len() > 0,
            forall|k: int| 0 <= k < rows.len() ==> (#[trigger] rows[k]).len() == width,
            csv_records(w) == row_views(rows@.take(i as int)),
        decreases rows.len() - i,
    {
        proof {
            if i > 0 {
                assert(csv_records(w)[0] == fields_of(rows@[0]));
                assert(fields_of(rows@[0]).len() == rows@[0].len());
            }
        }
        csv_write_record(&mut w, &rows[i]);
        proof {
            lemma_row_views_push(rows@.take(i as int), rows@[i as int]);
            assert(rows@.take(i + 1) =~= rows@.take(i as int).push(rows@[i as int]));
        }
        i += 1;
    }
    assert(rows@.take(rows.len() as int) =~= rows@);
    csv_into_bytes(w)
}

/// An item of an export, and how it becomes one record.
pub trait ReportRow: Sized {
    /// Fields of the item's record.
    spec fn fields(self) -> Seq<Seq<char>>;

    /// Whether the item can be written (its amounts are valid).
    spec fn writable(self) -> bool;

    /// Number of fields of a record.
    spec fn width() -> nat;

    /// The item's record.
    fn record(&self) -> (r: Vec<String>)
        requires
            self.writable(),
        ensures
            r.len() == Self::width(),
            fields_of(r) == self.fields(),
    ;
}

impl ReportRow for LeadRow {
    open spec fn fields(self) -> Seq<Seq<char>> {
        lead_fields(self)
    }

    open spec fn writable(self) -> bool {
        true
    }

    open spec fn width() -> nat {
        5
    }

    fn record(&self) -> (r: Vec<String>) {
        lead_record(self)
    }
}

impl ReportRow for ActivityRow {
    open spec fn fields(self) -> Seq<Seq<char>> {
        activity_fields(self)
    }

    open spec fn writable(self) -> bool {
        true
    }

    open spec fn width() -> nat {
        5
    }

    fn record(&self) -> (r: Vec<String>) {
        activity_record(self)
    }
}

impl ReportRow for ClientRow {
    open spec fn fields(self) -> Seq<Seq<char>> {
        client_fields(self)
    }

    open spec fn writable(self) -> bool {
        true
    }

    open spec fn width() -> nat {
        5
    }

    fn record(&self) -> (r: Vec<String>) {
        client_record(self)
    }
}

impl ReportRow for PropertyRow {
    open spec fn fields(self) -> Seq<Seq<char>> {
        property_fields(self)
    }

    open spec fn writable(self) -> bool {
        self.price.wf()
    }

    open spec fn width() -> nat {
        6
    }

    fn record(&self) -> (r: Vec<String>) {
        property_record(self)
    }
}

/// A CSV export: the header, then one record per item.
fn export<R: ReportRow>(header: Vec<String>, items: &Vec<R>) -> (r: Vec<u8>)
    requires
        header.len() == R::width(),
        forall|k: int| 0 <= k < items.len() ==> (#[trigger] items[k]).writable(),
    ensures
        r@ == encode_utf8(csv_text(seq![fields_of(header)] + items@.map_values(|x: R| x.fields()))),
{
    let mut rows: Vec<Vec<String>> = Vec::new();
    let ghost head = fields_of(header);
    rows.push(header);
    let mut i: usize = 0;
    while i < items.len()
        invariant
            forall|k: int| 0 <= k < items.len() ==> (#[trigger] items[k]).writable(),
            i <= items.len(),
            rows.len() == i + 1,
            forall|k: int| 0 <= k < rows.len() ==> (#[trigger] rows[k]).len() == R::width(),
            row_views(rows@) == seq![head] + items@.take(i as int).map_values(|x: R| x.fields()),
        decreases items.len() - i,
    {
        let rec = items[i].record();
        proof {
            lemma_row_views_push(rows@, rec);
            assert(items@.take(i + 1).map_values(|x: R| x.fields()) =~= items@.take(i as int).map_values(|x: R| x.fields()).push(items@[i as int].fields()));
        }
        rows.push(rec);
        assert(row_views(rows@) =~= seq![head] + items@.take(i + 1).map_values(|x: R| x.fields()));
        i += 1;
    }
    assert(items@.take(items.len() as int) =~= items@);
    finish_report(&rows, Ghost(R::width()))
}

/// The CSV export of the leads: header, then one record per lead.
pub fn leads_report(leads: &Vec<LeadRow>) -> (r: Vec<u8>)
    ensures
        r@ == encode_utf8(csv_text(seq![ReportKind::Leads.spec_header()] + leads@.map_values(|l: LeadRow| lead_fields(l)))),
{
    let r = export(ReportKind::Leads.header(), leads);
    assert(leads@.map_values(|x: LeadRow| x.fields()) =~= leads@.map_values(|l: LeadRow| lead_fields(l)));
    r
}

/// The CSV export of appointments or conversations (`kind` picks the header).
pub fn activity_report(kind: ReportKind, items: &Vec<ActivityRow>) -> (r: Vec<u8>)
    requires
        kind == ReportKind::Appointments || kind == ReportKind::Whatsapp,
    ensures
        r@ == encode_utf8(csv_text(seq![kind.spec_header()] + items@.map_values(|a: ActivityRow| activity_fields(a)))),
{
    let r = export(kind.header(), items);
    assert(items@.map_values(|x: ActivityRow| x.fields()) =~= items@.map_values(|a: ActivityRow| activity_fields(a)));
    r
}

/// The CSV export of the clients.
pub fn clients_report(clients: &Vec<ClientRow>) -> (r: Vec<u8>)
    ensures
        r@ == encode_utf8(csv_text(seq![ReportKind::Clients.spec_header()] + clients@.map_values(|c: ClientRow| client_fields(c)))),
{
    let r = export(ReportKind::Clients.header(), clients);
    assert(clients@.map_values(|x: ClientRow| x.fields()) =~= clients@.map_values(|c: ClientRow| client_fields(c)));
    r
}

/// The CSV export of the properties.
pub fn properties_report(props: &Vec<PropertyRow>) -> (r: Vec<u8>)
    requires
        forall|k: int| 0 <= k < props.len() ==> (#[trigger] props[k]).price.wf(),
    ensures
        r@ == encode_utf8(csv_text(seq![ReportKind::Properties.spec_header()] + props@.map_values(|p: PropertyRow| property_fields(p)))),
{
    let r = export(ReportKind::Properties.header(), props);
    assert(props@.map_values(|x: PropertyRow| x.fields()) =~= props@.map_values(|p: PropertyRow| property_fields(p)));
    r
}

} // verus!
