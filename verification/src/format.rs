//! The formatter: renders a package record as a fixed-width two-column
//! report or as one selected field, character for character.

use vstd::prelude::*;

use crate::args::Field;
use crate::record::{PackageRecord, RecordView};
use crate::text::{join_spec, join_with, pad_spec, pad_to, scrub_newlines, scrub_spec};

verus! {

/// The placeholder printed for an optional field the registry left out.
pub open spec fn placeholder() -> Seq<char> {
    "- - -"@
}

/// An optional field's text: the value when present, the placeholder
/// when absent.
pub open spec fn opt_text(o: Option<Seq<char>>) -> Seq<char> {
    match o {
        Some(s) => s,
        None => placeholder(),
    }
}

/// One column of the report: the value with newlines scrubbed, then
/// left-justified in a column of width `w`.
pub open spec fn cell_spec(s: Seq<char>, w: nat) -> Seq<char> {
    pad_spec(scrub_spec(s), w)
}

/// One report line: the label in a 15-wide column, a single space, and
/// the value in a 65-wide column.
pub open spec fn line_spec(label: Seq<char>, value: Seq<char>) -> Seq<char> {
    cell_spec(label, 15) + seq![' '] + cell_spec(value, 65)
}

/// The eight lines of the full report, in their fixed order.
pub open spec fn report_lines_spec(v: RecordView) -> Seq<Seq<char>> {
    seq![
        line_spec("Name:"@, v.name),
        line_spec("Description:"@, v.description),
        line_spec("Keywords:"@, join_spec(v.keywords, ", "@)),
        line_spec("Stable Version:"@, v.max_stable_version),
        line_spec("Latest Version:"@, v.max_version),
        line_spec("Homepage:"@, opt_text(v.homepage)),
        line_spec("Repository:"@, opt_text(v.repository)),
        line_spec("Documentation:"@, opt_text(v.documentation)),
    ]
}

/// The full report: the eight lines joined with single newlines.
pub open spec fn report_spec(v: RecordView) -> Seq<char> {
    join_spec(report_lines_spec(v), seq!['\n'])
}

/// The raw text of one selected field: the version strings verbatim,
/// optional fields through the placeholder.
pub open spec fn select_spec(v: RecordView, f: Field) -> Seq<char> {
    match f {
        Field::Latest => v.max_version,
        Field::Stable => v.max_stable_version,
        Field::Homepage => opt_text(v.homepage),
        Field::Repository => opt_text(v.repository),
        Field::Documentation => opt_text(v.documentation),
    }
}

/// The message reported when the registry knows no package under `id`.
pub open spec fn no_crate_spec(id: Seq<char>) -> Seq<char> {
    "No crate found for '"@ + id + "'!"@
}

/// The record of a successful lookup, as mathematics, or `None` when the
/// registry reported no match.
pub open spec fn opt_record_view(target: Option<PackageRecord>) -> Option<RecordView> {
    match target {
        Some(c) => Some(c@),
        None => None,
    }
}

/// Everything a completed lookup prints: the no-match message, the full
/// report, or the one selected field.
pub open spec fn lookup_spec(target: Option<RecordView>, field: Option<Field>, id: Seq<char>) -> Seq<
    char,
> {
    match target {
        None => no_crate_spec(id),
        Some(v) => match field {
            None => report_spec(v),
            Some(f) => select_spec(v, f),
        },
    }
}

/// A report line is the label column, exactly 15 characters wide, one
/// space, then the value column, exactly 65 characters wide unless the
/// scrubbed value is longer — then the value stands whole, unpadded and
/// untruncated.
pub proof fn lemma_line_shape(label: Seq<char>, value: Seq<char>)
    requires
        label.len() <= 15,
        forall|i: int| 0 <= i < label.len() ==> label[i] != '\n',
    ensures
        line_spec(label, value).len() == 16 + pad_spec(scrub_spec(value), 65).len(),
        pad_spec(scrub_spec(value), 65).len() == if scrub_spec(value).len() >= 65 {
            scrub_spec(value).len()
        } else {
            65nat
        },
        line_spec(label, value).subrange(0, 15) == pad_spec(label, 15),
        line_spec(label, value)[15] == ' ',
        line_spec(label, value).subrange(16, line_spec(label, value).len() as int) == cell_spec(
            value,
            65,
        ),
{
    crate::text::lemma_scrub_no_newline(label);
    assert(scrub_spec(label) =~= label);
    crate::text::lemma_pad_exact(label, 15);
    crate::text::lemma_pad_exact(scrub_spec(value), 65);
    assert(line_spec(label, value).subrange(0, 15) =~= pad_spec(label, 15));
    assert(line_spec(label, value).subrange(16, line_spec(label, value).len() as int) =~= cell_spec(
        value,
        65,
    ));
}

/// Rendering the full report is deterministic: records with equal
/// contents produce the identical text, every time.
pub proof fn lemma_report_deterministic(a: &PackageRecord, b: &PackageRecord)
    requires
        a@ == b@,
    ensures
        report_spec(a@) == report_spec(b@),
{
}

/// Each of the eight report labels fits its 15-wide column, so every
/// line of the report starts with a column exactly 15 characters wide
/// followed by one separating space.
pub proof fn lemma_report_line_columns(v: RecordView)
    ensures
        report_lines_spec(v).len() == 8,
        forall|i: int| 0 <= i < 8 ==> #[trigger] report_lines_spec(v)[i].len() >= 81,
        forall|i: int| 0 <= i < 8 ==> #[trigger] report_lines_spec(v)[i][15] == ' ',
{
    reveal_strlit("Name:");
    reveal_strlit("Description:");
    reveal_strlit("Keywords:");
    reveal_strlit("Stable Version:");
    reveal_strlit("Latest Version:");
    reveal_strlit("Homepage:");
    reveal_strlit("Repository:");
    reveal_strlit("Documentation:");
    lemma_line_shape("Name:"@, v.name);
    lemma_line_shape("Description:"@, v.description);
    lemma_line_shape("Keywords:"@, join_spec(v.keywords, ", "@));
    lemma_line_shape("Stable Version:"@, v.max_stable_version);
    lemma_line_shape("Latest Version:"@, v.max_version);
    lemma_line_shape("Homepage:"@, opt_text(v.homepage));
    lemma_line_shape("Repository:"@, opt_text(v.repository));
    lemma_line_shape("Documentation:"@, opt_text(v.documentation));
}

/// An optional field's text as a value: the value when present, the
/// literal placeholder when absent.
pub fn option_text(o: &Option<String>) -> (r: String)
    ensures
        r@ == opt_text(o.deep_view()),
{
    match o {
        Some(s) => s.clone(),
        None => String::from_str("- - -"),
    }
}

/// One report line: the label padded to 15 characters, a single space,
/// then the scrubbed value padded to 65 characters.
pub fn report_line(label: &str, value: &str) -> (r: String)
    ensures
        r@ == line_spec(label@, value@),
{
    let mut r = pad_to(scrub_newlines(label), 15);
    r.append(" ");
    let cell = pad_to(scrub_newlines(value), 65);
    r.append(cell.as_str());
    proof {
        reveal_strlit(" ");
        assert(" "@ =~= seq![' ']);
        assert(r@ =~= line_spec(label@, value@));
    }
    r
}

/// The full fixed-order, fixed-width report for a record.
pub fn render_report(c: &PackageRecord) -> (r: String)
    ensures
        r@ == report_spec(c@),
{
    let keywords = join_with(&c.keywords, ", ");
    let homepage = option_text(&c.homepage);
    let repository = option_text(&c.repository);
    let documentation = option_text(&c.documentation);
    let mut lines: Vec<String> = Vec::new();
    lines.push(report_line("Name:", c.name.as_str()));
    lines.push(report_line("Description:", c.description.as_str()));
    lines.push(report_line("Keywords:", keywords.as_str()));
    lines.push(report_line("Stable Version:", c.max_stable_version.as_str()));
    lines.push(report_line("Latest Version:", c.max_version.as_str()));
    lines.push(report_line("Homepage:", homepage.as_str()));
    lines.push(report_line("Repository:", repository.as_str()));
    lines.push(report_line("Documentation:", documentation.as_str()));
    let r = join_with(&lines, "\n");
    proof {
        reveal_strlit("\n");
        assert("\n"@ =~= seq!['\n']);
        assert(lines.deep_view() =~= report_lines_spec(c@));
    }
    r
}

/// The raw value of one selected field, with no label and no padding.
pub fn select_field(c: &PackageRecord, f: Field) -> (r: String)
    ensures
        r@ == select_spec(c@, f),
{
    match f {
        Field::Latest => c.max_version.clone(),
        Field::Stable => c.max_stable_version.clone(),
        Field::Homepage => option_text(&c.homepage),
        Field::Repository => option_text(&c.repository),
        Field::Documentation => option_text(&c.documentation),
    }
}

/// The message naming an identifier the registry found no package for.
pub fn no_crate_message(id: &str) -> (r: String)
    ensures
        r@ == no_crate_spec(id@),
{
    let mut r = String::from_str("No crate found for '");
    r.append(id);
    r.append("'!");
    r
}

/// Everything a completed lookup prints, as one value.
pub fn render_lookup(target: &Option<PackageRecord>, field: Option<Field>, id: &str) -> (r: String)
    ensures
        r@ == lookup_spec(opt_record_view(*target), field, id@),
{
    match target {
        None => no_crate_message(id),
        Some(c) => match field {
            None => render_report(c),
            Some(f) => select_field(c, f),
        },
    }
}

} // verus!
