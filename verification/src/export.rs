use vstd::prelude::*;

use crate::model::{Publication, Scholar};
use crate::text::{decimal, decimal_text, is_digit, lemma_decimal_digits};

verus! {

/// The column names that start every header line, one per scholar field.
pub open spec fn header_prefix() -> Seq<char> {
    "google_id,name,affiliation,document_count,cited_by,cited_5_years,h_index,h_index_5_years,i10_index,i10_index_5_years"@
}

/// The four header columns of the publication numbered `i`.
pub open spec fn header_block(i: nat) -> Seq<char> {
    ",publication_title_"@ + decimal(i) + ",journal,year,cited_by"@
}

/// The header columns of the first `n` publications.
pub open spec fn header_blocks(n: nat) -> Seq<char>
    decreases n,
{
    if n == 0 {
        Seq::empty()
    } else {
        header_blocks((n - 1) as nat) + header_block((n - 1) as nat)
    }
}

/// The header line for rows of up to `size` publications.
pub open spec fn header_line(size: nat) -> Seq<char> {
    header_prefix() + header_blocks(size) + seq!['\n']
}

/// A field between double quotes, as the export writes titles and journals.
pub open spec fn quoted(field: Seq<char>) -> Seq<char> {
    seq!['"'] + field + seq!['"']
}

/// The cells that one publication adds to its scholar's row.
pub open spec fn publication_cells(p: Publication) -> Seq<char> {
    seq![','] + quoted(p.title@) + seq![','] + quoted(p.journal@) + seq![','] + p.year@ + seq![
        ',',
    ] + p.cited_by@
}

/// The cells of a list of publications, in order.
pub open spec fn publications_cells(ps: Seq<Publication>) -> Seq<char>
    decreases ps.len(),
{
    if ps.len() == 0 {
        Seq::empty()
    } else {
        publications_cells(ps.drop_last()) + publication_cells(ps.last())
    }
}

/// The ten scholar fields of a row, separated by commas.
pub open spec fn scholar_cells(s: Scholar) -> Seq<char> {
    s.google_id@ + seq![','] + s.name@ + seq![','] + s.affiliation@ + seq![','] + decimal(
        s.document_count as nat,
    ) + seq![','] + s.cited_by@ + seq![','] + s.cited_5_years@ + seq![','] + s.h_index@ + seq![
        ',',
    ] + s.h_index_5_years@ + seq![','] + s.i10_index@ + seq![','] + s.i10_index_5_years@
}

/// The line that the export writes for one scholar.
pub open spec fn row_line(s: Scholar) -> Seq<char> {
    scholar_cells(s) + publications_cells(s.publication@) + seq!['\n']
}

/// The lines of a list of scholars, in order.
pub open spec fn row_lines(ss: Seq<Scholar>) -> Seq<char>
    decreases ss.len(),
{
    if ss.len() == 0 {
        Seq::empty()
    } else {
        row_lines(ss.drop_last()) + row_line(ss.last())
    }
}

/// Whether `size` is the largest number of publications of any scholar in `ss`
/// (zero where there is none).
pub open spec fn is_publication_size(ss: Seq<Scholar>, size: nat) -> bool {
    &&& forall|i: int| 0 <= i < ss.len() ==> #[trigger] ss[i].publication.len() <= size
    &&& (size == 0 || exists|i: int| 0 <= i < ss.len() && #[trigger] ss[i].publication.len() == size)
}

/// The largest number of publications of any scholar in `ss`, zero for none.
pub open spec fn publication_size(ss: Seq<Scholar>) -> nat
    decreases ss.len(),
{
    if ss.len() == 0 {
        0
    } else if publication_size(ss.drop_last()) < ss.last().publication.len() {
        ss.last().publication.len() as nat
    } else {
        publication_size(ss.drop_last())
    }
}

/// The largest number of publications of any scholar, zero for no scholar: the
/// number of publication column groups in the header.
pub fn get_publication_size(scholars: &Vec<Scholar>) -> (max: usize)
    ensures
        max == publication_size(scholars@),
        is_publication_size(scholars@, max as nat),
{
    let mut max: usize = 0;
    let mut k: usize = 0;
    assert(scholars@.subrange(0, 0) =~= Seq::<Scholar>::empty());
    while k < scholars.len()
        invariant
            k <= scholars.len(),
            max == publication_size(scholars@.subrange(0, k as int)),
            forall|i: int| 0 <= i < k ==> #[trigger] scholars@[i].publication.len() <= max,
            max == 0 || exists|i: int|
                0 <= i < k && #[trigger] scholars@[i].publication.len() == max,
        decreases scholars.len() - k,
    {
        assert(scholars@.subrange(0, k + 1).drop_last() =~= scholars@.subrange(0, k as int));
        if max < scholars[k].publication.len() {
            max = scholars[k].publication.len();
        }
        k = k + 1;
    }
    assert(scholars@.subrange(0, scholars.len() as int) =~= scholars@);
    max
}

/// Puts a field between double quotes.
pub fn escape_csv(field: String) -> (r: String)
    ensures
        r@ == quoted(field@),
{
    proof {
        reveal_strlit("\"");
    }
    let mut r = String::from_str("\"");
    r.append(field.as_str());
    r.append("\"");
    r
}

/// The header line for rows of up to `size` publications.
pub fn csv_header(size: usize) -> (r: String)
    ensures
        r@ == header_line(size as nat),
{
    proof {
        reveal_strlit("\n");
    }
    let mut r = String::from_str(
        "google_id,name,affiliation,document_count,cited_by,cited_5_years,h_index,h_index_5_years,i10_index,i10_index_5_years",
    );
    let mut i: usize = 0;
    while i < size
        invariant
            i <= size,
            r@ == header_prefix() + header_blocks(i as nat),
        decreases size - i,
    {
        r.append(",publication_title_");
        let digits = decimal_text(i);
        r.append(digits.as_str());
        r.append(",journal,year,cited_by");
        i = i + 1;
    }
    r.append("\n");
    r
}

/// The line that the export writes for one scholar: its ten fields, then for
/// each publication its quoted title, quoted journal, year and citation count.
pub fn csv_row(scholar: &Scholar) -> (r: String)
    ensures
        r@ == row_line(*scholar),
{
    proof {
        reveal_strlit(",");
        reveal_strlit("\n");
    }
    let mut r = String::from_str(scholar.google_id.as_str());
    r.append(",");
    r.append(scholar.name.as_str());
    r.append(",");
    r.append(scholar.affiliation.as_str());
    r.append(",");
    let count = decimal_text(scholar.document_count);
    r.append(count.as_str());
    r.append(",");
    r.append(scholar.cited_by.as_str());
    r.append(",");
    r.append(scholar.cited_5_years.as_str());
    r.append(",");
    r.append(scholar.h_index.as_str());
    r.append(",");
    r.append(scholar.h_index_5_years.as_str());
    r.append(",");
    r.append(scholar.i10_index.as_str());
    r.append(",");
    r.append(scholar.i10_index_5_years.as_str());
    assert(r@ == scholar_cells(*scholar));
    let pubs = &scholar.publication;
    let mut i: usize = 0;
    assert(pubs@.subrange(0, 0) =~= Seq::<Publication>::empty());
    while i < pubs.len()
        invariant
            i <= pubs.len(),
            r@ == scholar_cells(*scholar) + publications_cells(pubs@.subrange(0, i as int)),
        decreases pubs.len() - i,
    {
        let p = &pubs[i];
        let ghost before = r@;
        proof {
            reveal_strlit(",");
        }
        r.append(",");
        let title = escape_csv(p.title.clone());
        r.append(title.as_str());
        r.append(",");
        let journal = escape_csv(p.journal.clone());
        r.append(journal.as_str());
        r.append(",");
        r.append(p.year.as_str());
        r.append(",");
        r.append(p.cited_by.as_str());
        assert(r@ =~= before + publication_cells(*p));
        assert(pubs@.subrange(0, i + 1).drop_last() =~= pubs@.subrange(0, i as int));
        assert(pubs@.subrange(0, i + 1).last() == *p);
        i = i + 1;
    }
    assert(pubs@.subrange(0, pubs.len() as int) =~= pubs@);
    r.append("\n");
    r
}

/// The whole export file: the header line sized for the scholar with the most
/// publications, then one line per scholar in order.
pub fn csv_content(scholars: &Vec<Scholar>) -> (r: String)
    ensures
        r@ == header_line(publication_size(scholars@)) + row_lines(scholars@),
{
    let size = get_publication_size(scholars);
    let mut r = csv_header(size);
    let mut k: usize = 0;
    assert(scholars@.subrange(0, 0) =~= Seq::<Scholar>::empty());
    while k < scholars.len()
        invariant
            k <= scholars.len(),
            r@ == header_line(size as nat) + row_lines(scholars@.subrange(0, k as int)),
        decreases scholars.len() - k,
    {
        let row = csv_row(&scholars[k]);
        r.append(row.as_str());
        assert(scholars@.subrange(0, k + 1).drop_last() =~= scholars@.subrange(0, k as int));
        k = k + 1;
    }
    assert(scholars@.subrange(0, scholars.len() as int) =~= scholars@);
    r
}

/// The name of the export file for a timestamp text.
pub fn export_file_name(now: &str) -> (r: String)
    ensures
        r@ == "scholar_data_"@ + now@ + ".csv"@,
{
    let mut r = String::from_str("scholar_data_");
    r.append(now);
    r.append(".csv");
    r
}


/// The number of times `c` occurs in `s`.
pub open spec fn count_char(s: Seq<char>, c: char) -> nat
    decreases s.len(),
{
    if s.len() == 0 {
        0
    } else {
        count_char(s.drop_last(), c) + if s.last() == c {
            1nat
        } else {
            0nat
        }
    }
}

/// The number of times `c` occurs among the first `k` characters of `s`.
spec fn count_prefix(s: Seq<char>, c: char, k: nat) -> nat
    decreases k,
{
    if k == 0 {
        0
    } else {
        count_prefix(s, c, (k - 1) as nat) + if s[k - 1] == c {
            1nat
        } else {
            0nat
        }
    }
}

proof fn lemma_count_prefix(s: Seq<char>, c: char, k: nat)
    requires
        k <= s.len(),
    ensures
        count_prefix(s, c, k) == count_char(s.subrange(0, k as int), c),
    decreases k,
{
    if k > 0 {
        lemma_count_prefix(s, c, (k - 1) as nat);
        assert(s.subrange(0, k as int).drop_last() =~= s.subrange(0, k - 1));
    }
}

proof fn lemma_count_whole(s: Seq<char>, c: char)
    ensures
        count_prefix(s, c, s.len()) == count_char(s, c),
{
    lemma_count_prefix(s, c, s.len());
    assert(s.subrange(0, s.len() as int) =~= s);
}

/// Counting over a concatenation adds the counts of its parts.
pub broadcast proof fn lemma_count_concat(a: Seq<char>, b: Seq<char>, c: char)
    ensures
        #[trigger] count_char(a + b, c) == count_char(a, c) + count_char(b, c),
    decreases b.len(),
{
    if b.len() == 0 {
        assert(a + b =~= a);
    } else {
        lemma_count_concat(a, b.drop_last(), c);
        assert((a + b).drop_last() =~= a + b.drop_last());
    }
}

broadcast proof fn lemma_count_single(x: char, c: char)
    ensures
        #[trigger] count_char(seq![x], c) == if x == c {
            1nat
        } else {
            0nat
        },
{
    assert(seq![x].drop_last() =~= Seq::<char>::empty());
    reveal_with_fuel(count_char, 2);
}

proof fn lemma_count_digits(s: Seq<char>, c: char)
    requires
        !is_digit(c),
        forall|i: int| 0 <= i < s.len() ==> is_digit(#[trigger] s[i]),
    ensures
        count_char(s, c) == 0,
    decreases s.len(),
{
    if s.len() > 0 {
        assert(is_digit(s[s.len() - 1]));
        lemma_count_digits(s.drop_last(), c);
    }
}

proof fn lemma_decimal_counts(n: nat)
    ensures
        count_char(decimal(n), ',') == 0,
        count_char(decimal(n), '\n') == 0,
{
    lemma_decimal_digits(n);
    lemma_count_digits(decimal(n), ',');
    lemma_count_digits(decimal(n), '\n');
}

#[verifier::rlimit(50)]
proof fn lemma_header_prefix_counts()
    ensures
        count_char(header_prefix(), ',') == 9,
        count_char(header_prefix(), '\n') == 0,
{
    reveal_strlit(
        "google_id,name,affiliation,document_count,cited_by,cited_5_years,h_index,h_index_5_years,i10_index,i10_index_5_years",
    );
    let s = header_prefix();
    assert(s.len() == 116);
    reveal_with_fuel(count_prefix, 30);
    assert(count_prefix(s, '\n', 29) == 0);
    assert(count_prefix(s, '\n', 58) == 0);
    assert(count_prefix(s, '\n', 87) == 0);
    assert(count_prefix(s, '\n', 116) == 0);
    assert(count_prefix(s, ',', 29) == 3);
    assert(count_prefix(s, ',', 58) == 5);
    assert(count_prefix(s, ',', 87) == 7);
    assert(count_prefix(s, ',', 116) == 9);
    lemma_count_whole(s, ',');
    lemma_count_whole(s, '\n');
}

proof fn lemma_header_block_counts(i: nat)
    ensures
        count_char(header_block(i), ',') == 4,
        count_char(header_block(i), '\n') == 0,
{
    reveal_strlit(",publication_title_");
    reveal_strlit(",journal,year,cited_by");
    let a = ",publication_title_"@;
    let b = ",journal,year,cited_by"@;
    assert(a.len() == 19);
    assert(b.len() == 22);
    reveal_with_fuel(count_prefix, 25);
    assert(count_prefix(a, ',', 19) == 1);
    assert(count_prefix(a, '\n', 19) == 0);
    assert(count_prefix(b, ',', 22) == 3);
    assert(count_prefix(b, '\n', 22) == 0);
    lemma_count_whole(a, ',');
    lemma_count_whole(a, '\n');
    lemma_count_whole(b, ',');
    lemma_count_whole(b, '\n');
    lemma_decimal_counts(i);
    lemma_count_concat(a, decimal(i), ',');
    lemma_count_concat(a + decimal(i), b, ',');
    lemma_count_concat(a, decimal(i), '\n');
    lemma_count_concat(a + decimal(i), b, '\n');
}

proof fn lemma_header_blocks_counts(n: nat)
    ensures
        count_char(header_blocks(n), ',') == 4 * n,
        count_char(header_blocks(n), '\n') == 0,
    decreases n,
{
    if n > 0 {
        let m = (n - 1) as nat;
        lemma_header_blocks_counts(m);
        lemma_header_block_counts(m);
        lemma_count_concat(header_blocks(m), header_block(m), ',');
        lemma_count_concat(header_blocks(m), header_block(m), '\n');
    }
}

/// The header names ten scholar columns and four columns per publication: it has
/// `9 + 4 * size` commas and a single line break, at its end.
pub proof fn lemma_header_columns(size: nat)
    ensures
        count_char(header_line(size), ',') == 9 + 4 * size,
        count_char(header_line(size), '\n') == 1,
        header_line(size).last() == '\n',
{
    lemma_header_prefix_counts();
    lemma_header_blocks_counts(size);
    lemma_count_single('\n', ',');
    lemma_count_single('\n', '\n');
    lemma_count_concat(header_prefix(), header_blocks(size), ',');
    lemma_count_concat(header_prefix() + header_blocks(size), seq!['\n'], ',');
    lemma_count_concat(header_prefix(), header_blocks(size), '\n');
    lemma_count_concat(header_prefix() + header_blocks(size), seq!['\n'], '\n');
}

/// Whether a text holds no line break.
pub open spec fn is_single_line(t: Seq<char>) -> bool {
    count_char(t, '\n') == 0
}

/// Whether no field of a publication holds a line break.
pub open spec fn publication_is_single_line(p: Publication) -> bool {
    &&& is_single_line(p.title@)
    &&& is_single_line(p.journal@)
    &&& is_single_line(p.year@)
    &&& is_single_line(p.cited_by@)
}

/// Whether no text field of a scholar or of its publications holds a line break.
pub open spec fn scholar_is_single_line(s: Scholar) -> bool {
    &&& is_single_line(s.google_id@)
    &&& is_single_line(s.name@)
    &&& is_single_line(s.affiliation@)
    &&& is_single_line(s.cited_by@)
    &&& is_single_line(s.cited_5_years@)
    &&& is_single_line(s.h_index@)
    &&& is_single_line(s.h_index_5_years@)
    &&& is_single_line(s.i10_index@)
    &&& is_single_line(s.i10_index_5_years@)
    &&& forall|i: int|
        0 <= i < s.publication@.len() ==> publication_is_single_line(#[trigger] s.publication@[i])
}

proof fn lemma_publications_cells_lines(ps: Seq<Publication>)
    requires
        forall|i: int| 0 <= i < ps.len() ==> publication_is_single_line(#[trigger] ps[i]),
    ensures
        count_char(publications_cells(ps), '\n') == 0,
    decreases ps.len(),
{
    broadcast use {lemma_count_concat, lemma_count_single};

    if ps.len() > 0 {
        assert(publication_is_single_line(ps[ps.len() - 1]));
        lemma_publications_cells_lines(ps.drop_last());
    }
}

proof fn lemma_row_line_lines(s: Scholar)
    requires
        scholar_is_single_line(s),
    ensures
        count_char(row_line(s), '\n') == 1,
{
    broadcast use {lemma_count_concat, lemma_count_single};

    lemma_decimal_counts(s.document_count as nat);
    lemma_publications_cells_lines(s.publication@);
}

proof fn lemma_row_lines_lines(ss: Seq<Scholar>)
    requires
        forall|i: int| 0 <= i < ss.len() ==> scholar_is_single_line(#[trigger] ss[i]),
    ensures
        count_char(row_lines(ss), '\n') == ss.len(),
    decreases ss.len(),
{
    broadcast use lemma_count_concat;

    if ss.len() > 0 {
        lemma_row_line_lines(ss[ss.len() - 1]);
        lemma_row_lines_lines(ss.drop_last());
    }
}

/// The export has one line for the header and one per scholar, each ended by a
/// line break, as long as no text field holds a line break of its own.
pub proof fn lemma_export_lines(scholars: Seq<Scholar>)
    requires
        forall|i: int| 0 <= i < scholars.len() ==> scholar_is_single_line(#[trigger] scholars[i]),
    ensures
        count_char(header_line(publication_size(scholars)) + row_lines(scholars), '\n')
            == scholars.len() + 1,
{
    broadcast use lemma_count_concat;

    lemma_header_columns(publication_size(scholars));
    lemma_row_lines_lines(scholars);
}

/// Whether no field of a publication holds a comma.
pub open spec fn publication_has_no_comma(p: Publication) -> bool {
    &&& count_char(p.title@, ',') == 0
    &&& count_char(p.journal@, ',') == 0
    &&& count_char(p.year@, ',') == 0
    &&& count_char(p.cited_by@, ',') == 0
}

/// Whether no text field of a scholar or of its publications holds a comma.
pub open spec fn scholar_has_no_comma(s: Scholar) -> bool {
    &&& count_char(s.google_id@, ',') == 0
    &&& count_char(s.name@, ',') == 0
    &&& count_char(s.affiliation@, ',') == 0
    &&& count_char(s.cited_by@, ',') == 0
    &&& count_char(s.cited_5_years@, ',') == 0
    &&& count_char(s.h_index@, ',') == 0
    &&& count_char(s.h_index_5_years@, ',') == 0
    &&& count_char(s.i10_index@, ',') == 0
    &&& count_char(s.i10_index_5_years@, ',') == 0
    &&& forall|i: int|
        0 <= i < s.publication@.len() ==> publication_has_no_comma(#[trigger] s.publication@[i])
}

proof fn lemma_publications_cells_commas(ps: Seq<Publication>)
    requires
        forall|i: int| 0 <= i < ps.len() ==> publication_has_no_comma(#[trigger] ps[i]),
    ensures
        count_char(publications_cells(ps), ',') == 4 * ps.len(),
    decreases ps.len(),
{
    broadcast use {lemma_count_concat, lemma_count_single};

    if ps.len() > 0 {
        assert(publication_has_no_comma(ps[ps.len() - 1]));
        lemma_publications_cells_commas(ps.drop_last());
    }
}

/// A scholar's row has ten cells and four per publication, so the header, sized
/// for the scholar with the most publications, names at least as many columns as
/// any row fills, as long as no text field holds a comma of its own.
pub proof fn lemma_row_columns(scholars: Seq<Scholar>, i: int)
    requires
        0 <= i < scholars.len(),
        scholar_has_no_comma(scholars[i]),
    ensures
        count_char(row_line(scholars[i]), ',') == 9 + 4 * scholars[i].publication.len(),
        count_char(row_line(scholars[i]), ',') <= count_char(
            header_line(publication_size(scholars)),
            ',',
        ),
{
    broadcast use {lemma_count_concat, lemma_count_single};

    let s = scholars[i];
    lemma_decimal_counts(s.document_count as nat);
    lemma_publications_cells_commas(s.publication@);
    lemma_header_columns(publication_size(scholars));
    lemma_publication_size_is_max(scholars, i);
}

proof fn lemma_publication_size_is_max(ss: Seq<Scholar>, i: int)
    requires
        0 <= i < ss.len(),
    ensures
        ss[i].publication.len() <= publication_size(ss),
    decreases ss.len(),
{
    if i < ss.len() - 1 {
        lemma_publication_size_is_max(ss.drop_last(), i);
    }
}

proof fn lemma_header_blocks_prefix(m: nat, n: nat)
    requires
        m <= n,
    ensures
        header_blocks(m).len() <= header_blocks(n).len(),
        header_blocks(n).subrange(0, header_blocks(m).len() as int) == header_blocks(m),
    decreases n,
{
    if m < n {
        let n1 = (n - 1) as nat;
        lemma_header_blocks_prefix(m, n1);
        let a = header_blocks(n1);
        let whole = a + header_block(n1);
        assert(whole.subrange(0, header_blocks(m).len() as int) =~= a.subrange(
            0,
            header_blocks(m).len() as int,
        ));
    } else {
        assert(header_blocks(n).subrange(0, header_blocks(n).len() as int) =~= header_blocks(n));
    }
}

/// Every publication `k` below `size` has its own column group in the header,
/// named with the number `k` itself: `,publication_title_k,journal,year,cited_by`.
pub proof fn lemma_header_names_publication(size: nat, k: nat)
    requires
        k < size,
    ensures
        ({
            let h = header_line(size);
            let group = ",publication_title_"@ + decimal(k) + ",journal,year,cited_by"@;
            exists|p: int|
                0 <= p && p + group.len() <= h.len() && #[trigger] h.subrange(p, p + group.len())
                    == group
        }),
{
    let h = header_line(size);
    let group = ",publication_title_"@ + decimal(k) + ",journal,year,cited_by"@;
    lemma_header_blocks_prefix(k + 1, size);
    let before = header_blocks(k);
    let upto = header_blocks(k + 1);
    assert(upto == before + header_block(k));
    let blocks = header_blocks(size);
    let p: int = (header_prefix().len() + before.len()) as int;
    assert(upto.subrange(before.len() as int, upto.len() as int) =~= group);
    assert(blocks.subrange(before.len() as int, upto.len() as int) =~= upto.subrange(
        before.len() as int,
        upto.len() as int,
    )) by {
        assert forall|t: int| before.len() <= t < upto.len() implies blocks[t] == upto[t] by {
            assert(blocks.subrange(0, upto.len() as int)[t] == blocks[t]);
        }
    }
    assert(h.subrange(p, p + group.len()) =~= blocks.subrange(
        before.len() as int,
        upto.len() as int,
    ));
}

/// Quoting puts one double quote before the field and one after it, and keeps
/// the field whole in between.
pub proof fn lemma_quoted_wraps_field(field: Seq<char>)
    ensures
        quoted(field).len() == field.len() + 2,
        quoted(field)[0] == '"',
        quoted(field).last() == '"',
        quoted(field).subrange(1, field.len() as int + 1) == field,
{
    assert(quoted(field).subrange(1, field.len() as int + 1) =~= field);
}

/// A scholar's row starts with its id and a comma, ends with a line break, and
/// holds, right after the ten scholar fields, each publication's quoted title in
/// turn: the first publication's cells start with `,"title","journal",`.
pub proof fn lemma_row_layout(s: Scholar)
    ensures
        row_line(s).subrange(0, s.google_id@.len() as int + 1) == s.google_id@ + seq![','],
        row_line(s).last() == '\n',
        s.publication@.len() > 0 ==> ({
            let p = s.publication@[0];
            let start = scholar_cells(s).len() as int;
            let lead = seq![','] + quoted(p.title@) + seq![','] + quoted(p.journal@) + seq![','];
            row_line(s).subrange(start, start + lead.len()) == lead
        }),
{
    let id = s.google_id@;
    assert(row_line(s).subrange(0, id.len() as int + 1) =~= id + seq![',']);
    if s.publication@.len() > 0 {
        let ps = s.publication@;
        let p = ps[0];
        let start = scholar_cells(s).len() as int;
        let lead = seq![','] + quoted(p.title@) + seq![','] + quoted(p.journal@) + seq![','];
        lemma_publications_cells_first(ps);
        let cells = publications_cells(ps);
        assert(cells.subrange(0, lead.len() as int) =~= publication_cells(p).subrange(
            0,
            lead.len() as int,
        ));
        assert(publication_cells(p).subrange(0, lead.len() as int) =~= lead);
        assert(row_line(s).subrange(start, start + lead.len()) =~= cells.subrange(
            0,
            lead.len() as int,
        ));
    }
}

proof fn lemma_publications_cells_first(ps: Seq<Publication>)
    requires
        ps.len() > 0,
    ensures
        publication_cells(ps[0]).len() <= publications_cells(ps).len(),
        publications_cells(ps).subrange(0, publication_cells(ps[0]).len() as int)
            == publication_cells(ps[0]),
    decreases ps.len(),
{
    if ps.len() == 1 {
        assert(ps.drop_last() =~= Seq::<Publication>::empty());
        assert(publications_cells(ps) =~= publication_cells(ps[0]));
    } else {
        lemma_publications_cells_first(ps.drop_last());
        assert(ps.drop_last()[0] == ps[0]);
        let a = publications_cells(ps.drop_last());
        let n = publication_cells(ps[0]).len() as int;
        assert((a + publication_cells(ps.last())).subrange(0, n) =~= a.subrange(0, n));
    }
}

} // verus!
