//! Writing a report: the human layout and the plain record lines here; the
//! JSON and TOML encodings are made by the caller from the same report.

pub mod human;
pub mod machine;

use vstd::prelude::*;
use crate::cli::Format;
use crate::report::Report;
use crate::term::TermCtx;
use human::{render_human, render_human_spec};
use machine::{render_plain, render_plain_spec};

verus! {

/// The text of a report in a textual format; `None` for JSON and TOML,
/// which are encodings of the report itself.
pub open spec fn render_spec(report: crate::report::ReportModel, format: Format, term: TermCtx, verbose: bool) -> Option<
    Seq<char>,
> {
    match format {
        Format::Human => Some(render_human_spec(report, term, verbose)),
        Format::Plain => Some(render_plain_spec(report)),
        Format::Json | Format::Toml => None,
    }
}

pub fn render(report: &Report, format: Format, term: &TermCtx, verbose: bool) -> (r: Option<String>)
    ensures
        r matches Some(s) ==> render_spec(report@, format, *term, verbose) == Some(s@),
        r is None ==> render_spec(report@, format, *term, verbose) is None,
{
    match format {
        Format::Human => Some(render_human(report, term, verbose)),
        Format::Plain => Some(render_plain(report, term)),
        Format::Json | Format::Toml => None,
    }
}

} // verus!
